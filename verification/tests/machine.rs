use enigma::enigma::EnigmaMachine;
use enigma::error::ConfigError;
use enigma::letter::Letter;
use enigma::settings::Settings;
use enigma::specification::{ReflectorType, RotorType};

fn machine_b_i_ii_iii_at_aaa() -> EnigmaMachine {
    EnigmaMachine::new(
        ReflectorType::B,
        RotorType::I,
        RotorType::II,
        RotorType::III,
        Letter::from_char('A').unwrap(),
        Letter::from_char('A').unwrap(),
        Letter::from_char('A').unwrap(),
    )
    .unwrap()
}

fn encipher_char(machine: &mut EnigmaMachine, c: char) -> char {
    let letter = Letter::from_char(c).unwrap();
    machine.encipher(letter).to_char()
}

#[test]
fn first_keypress_matches_historical_vectors() {
    let cases = [
        ('A', 'U'),
        ('B', 'E'),
        ('C', 'J'),
        ('D', 'O'),
        ('F', 'T'),
        ('G', 'P'),
        ('H', 'Z'),
        ('I', 'W'),
        ('K', 'N'),
        ('L', 'S'),
        ('M', 'R'),
        ('Q', 'V'),
        ('X', 'Y'),
    ];
    for (input, expected) in cases {
        let mut machine = machine_b_i_ii_iii_at_aaa();
        assert_eq!(expected, encipher_char(&mut machine, input));
    }
}

#[test]
fn stream_of_a_keypresses_from_aaa() {
    let mut machine = machine_b_i_ii_iii_at_aaa();
    let mut cipher = String::new();
    for _ in 0..5 {
        cipher.push(encipher_char(&mut machine, 'A'));
    }
    assert_eq!("UBDZG", cipher);
}

#[test]
fn enciphering_twice_with_the_same_configuration_round_trips() {
    let plaintext = "THEQUICKBROWNFOXJUMPSOVERTHELAZYDOGAGAINANDAGAINUNTILNOTCHESTURN";
    let mut first = EnigmaMachine::new(
        ReflectorType::C,
        RotorType::IV,
        RotorType::VI,
        RotorType::II,
        Letter::from_char('F').unwrap(),
        Letter::from_char('R').unwrap(),
        Letter::from_char('Z').unwrap(),
    )
    .unwrap();
    let cipher: String = plaintext.chars().map(|c| encipher_char(&mut first, c)).collect();
    assert_ne!(plaintext, cipher);
    let mut second = EnigmaMachine::new(
        ReflectorType::C,
        RotorType::IV,
        RotorType::VI,
        RotorType::II,
        Letter::from_char('F').unwrap(),
        Letter::from_char('R').unwrap(),
        Letter::from_char('Z').unwrap(),
    )
    .unwrap();
    let recovered: String = cipher.chars().map(|c| encipher_char(&mut second, c)).collect();
    assert_eq!(plaintext, recovered);
}

#[test]
fn no_letter_ever_enciphers_to_itself() {
    let mut machine = machine_b_i_ii_iii_at_aaa();
    for _ in 0..100 {
        let out = encipher_char(&mut machine, 'Q');
        assert_ne!('Q', out);
    }
}

#[test]
fn encipher_stream_matches_letter_by_letter_calls() {
    let text = "STREAMSANDSINGLECALLSAGREE";
    let input: Vec<Letter> = text.chars().map(|c| Letter::from_char(c).unwrap()).collect();
    let mut streamed = machine_b_i_ii_iii_at_aaa();
    let output = streamed.encipher_stream(&input);
    let mut single = machine_b_i_ii_iii_at_aaa();
    for (letter, expected) in input.iter().zip(output.iter()) {
        assert_eq!(expected.to_char(), single.encipher(*letter).to_char());
    }
    assert_eq!(streamed.positions(), single.positions());
}

#[test]
fn an_empty_stream_leaves_the_machine_untouched() {
    let mut machine = machine_b_i_ii_iii_at_aaa();
    let output = machine.encipher_stream(&Vec::new());
    assert!(output.is_empty());
    assert_eq!((0, 0, 0), machine.positions());
}

#[test]
fn right_rotor_notch_advances_middle_rotor_once() {
    // rotor III on the right carries its notch at 'V' = 21: the middle rotor
    // advances on the keypress that moves the right rotor off 21
    let mut machine = EnigmaMachine::new(
        ReflectorType::B,
        RotorType::I,
        RotorType::II,
        RotorType::III,
        Letter::from_u8(0).unwrap(),
        Letter::from_u8(0).unwrap(),
        Letter::from_u8(0).unwrap(),
    )
    .unwrap();
    for _ in 0..21 {
        machine.encipher(Letter::from_u8(0).unwrap());
    }
    assert_eq!((0, 0, 21), machine.positions());
    for _ in 0..1 {
        machine.encipher(Letter::from_u8(0).unwrap());
    }
    assert_eq!((0, 1, 22), machine.positions());
}

#[test]
fn position_sequence_ignores_which_letters_are_typed() {
    let mut machine_a = machine_b_i_ii_iii_at_aaa();
    let mut machine_b = machine_b_i_ii_iii_at_aaa();
    for k in 0..60u8 {
        machine_a.encipher(Letter::from_u8(k % 26).unwrap());
        machine_b.encipher(Letter::from_u8((25 - k % 26) % 26).unwrap());
        assert_eq!(machine_a.positions(), machine_b.positions());
    }
}

#[test]
fn duplicate_rotors_are_rejected() {
    let result = EnigmaMachine::new(
        ReflectorType::B,
        RotorType::I,
        RotorType::II,
        RotorType::I,
        Letter::from_u8(0).unwrap(),
        Letter::from_u8(0).unwrap(),
        Letter::from_u8(0).unwrap(),
    );
    assert_eq!(Err(ConfigError::DuplicateRotor), result.map(|_| ()));
    let result = EnigmaMachine::new(
        ReflectorType::B,
        RotorType::V,
        RotorType::V,
        RotorType::I,
        Letter::from_u8(0).unwrap(),
        Letter::from_u8(0).unwrap(),
        Letter::from_u8(0).unwrap(),
    );
    assert_eq!(Err(ConfigError::DuplicateRotor), result.map(|_| ()));
}

#[test]
fn position_characters_outside_the_alphabet_are_rejected() {
    assert_eq!(Err(ConfigError::InvalidPosition), Letter::from_char('@'));
    assert_eq!(Err(ConfigError::InvalidPosition), Letter::from_char('a'));
    assert_eq!(Err(ConfigError::InvalidPosition), Letter::from_u8(26));
    let result = EnigmaMachine::new(
        ReflectorType::B,
        RotorType::I,
        RotorType::II,
        RotorType::III,
        Letter { byte: 99 },
        Letter { byte: 0 },
        Letter { byte: 0 },
    );
    assert_eq!(Err(ConfigError::InvalidPosition), result.map(|_| ()));
}

#[test]
fn machines_built_from_settings_match_machines_built_directly() {
    let mut settings = Settings::new();
    settings.reflector_type = ReflectorType::B;
    let mut from_settings = EnigmaMachine::from_settings(&settings).unwrap();
    let mut direct = machine_b_i_ii_iii_at_aaa();
    for c in "COMPARINGBOTHMACHINES".chars() {
        assert_eq!(encipher_char(&mut direct, c), encipher_char(&mut from_settings, c));
    }
    settings.m_rotor = RotorType::I;
    assert!(matches!(
        EnigmaMachine::from_settings(&settings),
        Err(ConfigError::DuplicateRotor)
    ));
}

#[test]
fn letters_convert_to_and_from_characters() {
    let a = Letter::from_char('A').unwrap();
    assert_eq!(0, a.index());
    assert_eq!('A', a.to_char());
    let z = Letter::from_u8(25).unwrap();
    assert_eq!('Z', z.to_char());
    assert_eq!(25, z.index());
}
