use enigma::error::ConfigError;
use enigma::plugboard::Plugboard;

#[test]
fn unplugged_letters_pass_through_unchanged() {
    let board = Plugboard::new();
    for i in 0..26u8 {
        assert_eq!(i, board.encipher(i));
    }
}

#[test]
fn plugged_pairs_swap_in_both_directions() {
    let mut board = Plugboard::new();
    board.add(0, 25).unwrap();
    board.add(4, 11).unwrap();
    assert_eq!(25, board.encipher(0));
    assert_eq!(0, board.encipher(25));
    assert_eq!(11, board.encipher(4));
    assert_eq!(4, board.encipher(11));
    assert_eq!(7, board.encipher(7));
}

#[test]
fn plugboard_stays_an_involution() {
    let mut board = Plugboard::new();
    board.add(1, 2).unwrap();
    board.add(3, 20).unwrap();
    board.add(19, 6).unwrap();
    for i in 0..26u8 {
        assert_eq!(i, board.encipher(board.encipher(i)));
    }
}

#[test]
fn bad_plug_pairs_are_rejected() {
    let mut board = Plugboard::new();
    assert_eq!(Err(ConfigError::InvalidPlug), board.add(3, 3));
    assert_eq!(Err(ConfigError::InvalidPlug), board.add(26, 1));
    assert_eq!(Err(ConfigError::InvalidPlug), board.add(1, 30));
    board.add(5, 6).unwrap();
    assert_eq!(Err(ConfigError::InvalidPlug), board.add(6, 9));
    assert_eq!(Err(ConfigError::InvalidPlug), board.add(9, 5));
    // the failed attempts left the board unchanged
    assert_eq!(6, board.encipher(5));
    assert_eq!(9, board.encipher(9));
}
