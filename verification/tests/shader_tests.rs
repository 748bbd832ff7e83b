use oxide_engine::shader::words_from_bytes;

#[test]
fn words_are_little_endian() {
    let bytes: Vec<u8> = vec![0x03, 0x02, 0x23, 0x07, 0x00, 0x00, 0x01, 0x00];
    assert_eq!(words_from_bytes(&bytes), Some(vec![0x0723_0203, 0x0001_0000]));
    assert_eq!(words_from_bytes(&[]), Some(vec![]));
}

#[test]
fn byte_count_must_be_multiple_of_four() {
    assert_eq!(words_from_bytes(&[1, 2, 3]), None);
    assert_eq!(words_from_bytes(&[1, 2, 3, 4, 5]), None);
}
