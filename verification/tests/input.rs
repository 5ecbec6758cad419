use minecraft_tty::input::{command_for_key, Command, Key, STEP, STEP_BACK, TURN, TURN_BACK};

#[test]
fn steps_are_half_a_block_and_ten_degrees() {
    assert_eq!((STEP, STEP_BACK), (1, -1));
    assert_eq!((TURN, TURN_BACK), (10, -10));
}

#[test]
fn escape_and_x_quit() {
    assert_eq!(command_for_key(Key::Esc), Some(Command::Quit));
    assert_eq!(command_for_key(Key::Char('x')), Some(Command::Quit));
}

#[test]
fn letters_and_arrows_move() {
    assert_eq!(command_for_key(Key::Char('w')), Some(Command::MoveForward(1)));
    assert_eq!(command_for_key(Key::Up), Some(Command::MoveForward(1)));
    assert_eq!(command_for_key(Key::Char('s')), Some(Command::MoveForward(-1)));
    assert_eq!(command_for_key(Key::Down), Some(Command::MoveForward(-1)));
    assert_eq!(command_for_key(Key::Char('a')), Some(Command::MoveRight(-1)));
    assert_eq!(command_for_key(Key::Left), Some(Command::MoveRight(-1)));
    assert_eq!(command_for_key(Key::Char('d')), Some(Command::MoveRight(1)));
    assert_eq!(command_for_key(Key::Right), Some(Command::MoveRight(1)));
    assert_eq!(command_for_key(Key::Char('q')), Some(Command::MoveUp(-1)));
    assert_eq!(command_for_key(Key::Char('e')), Some(Command::MoveUp(1)));
}

#[test]
fn h_l_j_k_rotate() {
    assert_eq!(command_for_key(Key::Char('h')), Some(Command::RotateYaw(-10)));
    assert_eq!(command_for_key(Key::Char('l')), Some(Command::RotateYaw(10)));
    assert_eq!(command_for_key(Key::Char('j')), Some(Command::RotatePitch(10)));
    assert_eq!(command_for_key(Key::Char('k')), Some(Command::RotatePitch(-10)));
}

#[test]
fn other_keys_do_nothing() {
    assert_eq!(command_for_key(Key::Other), None);
    assert_eq!(command_for_key(Key::Char('z')), None);
    assert_eq!(command_for_key(Key::Char('W')), None);
    assert_eq!(command_for_key(Key::Char(' ')), None);
}
