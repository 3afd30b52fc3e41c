use voicegate::codec::{bytes_eq, encode_voice_name, fixed_name, VOICE_NAME_LEN};

#[test]
fn ascii_voice_name_is_laid_out_verbatim() {
    let buf = encode_voice_name("f1");
    assert_eq!(buf.len(), VOICE_NAME_LEN);
    assert_eq!(buf[0], b'f');
    assert_eq!(buf[1], b'1');
    assert!(buf[2..].iter().all(|&b| b == 0));
}

#[test]
fn japanese_voice_name_is_shift_jis_encoded() {
    // "あ" is a single character whose Shift_JIS encoding is 0x82 0xA0,
    // unlike its three-byte UTF-8 form.
    let buf = encode_voice_name("あ");
    assert_eq!(buf.len(), VOICE_NAME_LEN);
    assert_eq!(buf[0], 0x82);
    assert_eq!(buf[1], 0xA0);
    assert!(buf[2..].iter().all(|&b| b == 0));
}

#[test]
fn long_names_are_truncated_to_field_width() {
    let long: Vec<u8> = (0u8..=199).collect();
    let buf = fixed_name(&long);
    assert_eq!(buf.len(), VOICE_NAME_LEN);
    assert_eq!(&buf[..], &long[..VOICE_NAME_LEN]);
}

#[test]
fn bytes_eq_compares_contents() {
    assert!(bytes_eq(&vec![1, 2, 3], &vec![1, 2, 3]));
    assert!(!bytes_eq(&vec![1, 2, 3], &vec![1, 2, 4]));
    assert!(!bytes_eq(&vec![1, 2], &vec![1, 2, 3]));
    assert!(bytes_eq(&vec![], &vec![]));
}
