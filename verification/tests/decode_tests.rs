use mesh_config_reader::decode_pane_content;
use mesh_config_reader::PaneContent;

fn text_of(c: &PaneContent) -> String {
    c.text().clone()
}

#[test]
fn empty_buffer_fails_to_decode() {
    let c = decode_pane_content(&Vec::new());
    assert!(!c.is_decoded());
    assert!(!text_of(&c).is_empty());
}

#[test]
fn minimal_default_record_decodes() {
    // A zero length prefix is the minimal well-formed encoding of the
    // schema's default record.
    let c = decode_pane_content(&vec![0u8]);
    assert!(c.is_decoded());
    let expected = format!("{:#?}", prost_types::Struct::default());
    assert_eq!(text_of(&c), expected);
}

#[test]
fn truncated_buffer_fails_to_decode() {
    // Length prefix promises five bytes, only one follows.
    let c = decode_pane_content(&vec![5u8, 1u8]);
    assert!(!c.is_decoded());
    assert!(!text_of(&c).is_empty());
}

#[test]
fn dangling_varint_fails_to_decode() {
    // A continuation bit with nothing after it is not a valid length prefix.
    let c = decode_pane_content(&vec![0x80u8]);
    assert!(!c.is_decoded());
    assert!(!text_of(&c).is_empty());
}

#[test]
fn random_bytes_fail_to_decode() {
    let c = decode_pane_content(&vec![0xffu8, 0x13, 0x07, 0x99, 0x21]);
    assert!(!c.is_decoded());
    assert!(!text_of(&c).is_empty());
}

#[test]
fn valid_record_decodes_to_its_text() {
    let mut record = prost_types::Struct::default();
    record.fields.insert(
        "region".to_string(),
        prost_types::Value {
            kind: Some(prost_types::value::Kind::StringValue("EU_868".to_string())),
        },
    );
    let bytes = prost::Message::encode_length_delimited_to_vec(&record);
    let c = decode_pane_content(&bytes);
    assert!(c.is_decoded());
    let expected = format!("{:#?}", record);
    assert_eq!(text_of(&c), expected);
    assert!(!text_of(&c).is_empty());
}

#[test]
fn decoding_twice_gives_identical_text() {
    let buf = vec![0u8];
    let first = decode_pane_content(&buf);
    let second = decode_pane_content(&buf);
    assert_eq!(text_of(&first), text_of(&second));
    assert_eq!(first.is_decoded(), second.is_decoded());

    let bad = vec![9u8];
    let first_bad = decode_pane_content(&bad);
    let second_bad = decode_pane_content(&bad);
    assert_eq!(text_of(&first_bad), text_of(&second_bad));
}
