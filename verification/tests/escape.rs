use telwrap::escape::escape_iacs;

#[test]
fn every_introducer_is_doubled() {
    assert_eq!(escape_iacs(&[]), Vec::<u8>::new());
    assert_eq!(escape_iacs(&[0xFF]), vec![0xFF, 0xFF]);
    assert_eq!(escape_iacs(&[0xFF, 0xFF]), vec![0xFF, 0xFF, 0xFF, 0xFF]);
    assert_eq!(escape_iacs(&[0x42, 0xFF, 0x41]), vec![0x42, 0xFF, 0xFF, 0x41]);
    assert_eq!(escape_iacs(&[0xFE, 0x00, 0xFF]), vec![0xFE, 0x00, 0xFF, 0xFF]);
}

#[test]
fn other_bytes_pass_unchanged() {
    let plain: Vec<u8> = (0..=254u8).collect();
    assert_eq!(escape_iacs(&plain), plain);
    assert_eq!(escape_iacs(b"Hello World!"), b"Hello World!".to_vec());
}

#[test]
fn escaping_goes_piece_by_piece() {
    let text = [0x01, 0xFF, 0xFF, 0x02, 0xFF];
    for cut in 0..=text.len() {
        let mut pieces = escape_iacs(&text[..cut]);
        pieces.extend(escape_iacs(&text[cut..]));
        assert_eq!(pieces, escape_iacs(&text));
    }
}

#[test]
fn escaped_length_counts_the_introducers() {
    let text = [0xFF, 0x10, 0xFF, 0x20, 0x30];
    assert_eq!(escape_iacs(&text).len(), text.len() + 2);
}
