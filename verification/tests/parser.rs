use enigma::parser::{parse_byte, BufferParser};

#[test]
fn reader_yields_encoded_bytes() {
    let mut reader = BufferParser::new(b"Hello".to_vec());
    assert_eq!(b'H', reader.next().unwrap());
    assert_eq!(b'E', reader.next().unwrap());
}

#[test]
fn reader_ignores_space_and_punctuation() {
    let mut reader = BufferParser::new(b"Hello, world!".to_vec());
    let mut vector: Vec<u8> = Vec::new();
    while let Some(b) = reader.next() {
        vector.push(b);
    }
    assert_eq!(10, vector.len());
}

#[test]
fn reader_encodes_uppercase_and_lowercase_the_same() {
    let mut reader1 = BufferParser::new(b"Hello, world!".to_vec());
    let mut reader2 = BufferParser::new(b"HELLO, WORLD!!!!".to_vec());
    let input1 = reader1.collect_letters();
    let input2 = reader2.collect_letters();
    assert_eq!(input1, input2);
}

#[test]
fn collect_letters_uppercases_and_strips() {
    let mut reader = BufferParser::new(b"This is the first line.".to_vec());
    assert_eq!(b"THISISTHEFIRSTLINE".to_vec(), reader.collect_letters());
    assert_eq!(None, reader.next());
}

#[test]
fn parse_byte_classifies_letters_and_blanks() {
    assert_eq!(Some(b'Q'), parse_byte(b'Q'));
    assert_eq!(Some(b'Q'), parse_byte(b'q'));
    assert_eq!(None, parse_byte(b' '));
    assert_eq!(None, parse_byte(b'!'));
    assert_eq!(None, parse_byte(b'\n'));
}
