use thesis_rewriter::decode::PieceDecoder;

#[test]
fn ascii_piece_is_passed_through() {
    let mut d = PieceDecoder::new();
    assert_eq!(d.decode(b" Hello"), Ok(Some(" Hello".to_string())));
}

#[test]
fn empty_piece_shows_nothing() {
    let mut d = PieceDecoder::new();
    assert_eq!(d.decode(b""), Ok(None));
}

#[test]
fn split_utf8_sequence_is_joined_across_pieces() {
    let bytes = "é😀".as_bytes();
    let mut d = PieceDecoder::new();
    assert_eq!(d.decode(&bytes[..1]), Ok(None));
    assert_eq!(d.decode(&bytes[1..4]), Ok(Some("é".to_string())));
    assert_eq!(d.decode(&bytes[4..]), Ok(Some("😀".to_string())));
}

#[test]
fn stream_decodes_to_the_whole_text() {
    let text = "Académie: 研究 résultats ✓";
    let mut d = PieceDecoder::new();
    let mut out = String::new();
    for chunk in text.as_bytes().chunks(2) {
        if let Some(piece) = d.decode(chunk).unwrap() {
            out.push_str(&piece);
        }
    }
    assert_eq!(out, text);
}

#[test]
fn invalid_bytes_become_replacement_characters() {
    let mut d = PieceDecoder::new();
    assert_eq!(d.decode(&[0xff, b'a']), Ok(Some("\u{fffd}a".to_string())));
}

#[test]
fn leading_byte_order_mark_is_removed() {
    let mut d = PieceDecoder::new();
    assert_eq!(d.decode(&[0xEF, 0xBB]), Ok(None));
    assert_eq!(d.decode(&[0xBF, b'a']), Ok(Some("a".to_string())));
}

#[test]
fn single_ascii_byte_on_fresh_decoder() {
    let mut d = PieceDecoder::new();
    assert_eq!(d.decode(b"a"), Ok(Some("a".to_string())));
}
