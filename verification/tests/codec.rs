use layout_provider::detector::decode_locale_name;
use layout_provider::event::{encode_layout_event, LAYOUT_EVENT_KIND};
use layout_provider::registry::position_of;

#[test]
fn frame_is_kind_byte_then_index() {
    assert_eq!(encode_layout_event(0), vec![LAYOUT_EVENT_KIND, 0]);
    assert_eq!(encode_layout_event(7), vec![LAYOUT_EVENT_KIND, 7]);
    assert_eq!(encode_layout_event(255), vec![LAYOUT_EVENT_KIND, 255]);
}

#[test]
fn position_of_finds_first_occurrence() {
    let registry: Vec<String> =
        vec!["en".to_string(), "ru".to_string(), "en".to_string(), "de".to_string()];
    assert_eq!(position_of(&registry, &"en".to_string()), Some(0));
    assert_eq!(position_of(&registry, &"ru".to_string()), Some(1));
    assert_eq!(position_of(&registry, &"de".to_string()), Some(3));
    assert_eq!(position_of(&registry, &"fr".to_string()), None);
    assert_eq!(position_of(&Vec::new(), &"en".to_string()), None);
}

#[test]
fn decode_trims_at_first_nul() {
    let buffer: [u16; 9] = [0x0065, 0x006E, 0, 0, 0, 0, 0, 0, 0];
    assert_eq!(decode_locale_name(&buffer), Some("en".to_string()));
}

#[test]
fn decode_without_nul_takes_whole_buffer() {
    let buffer: [u16; 3] = [0x0072, 0x0075, 0x0073];
    assert_eq!(decode_locale_name(&buffer), Some("rus".to_string()));
}

#[test]
fn decode_all_nuls_yields_empty_tag() {
    let buffer: [u16; 9] = [0; 9];
    assert_eq!(decode_locale_name(&buffer), Some(String::new()));
    assert_eq!(decode_locale_name(&[]), Some(String::new()));
}

#[test]
fn decode_rejects_invalid_utf16() {
    // A lone high surrogate before the nul padding is not valid UTF-16.
    let buffer: [u16; 4] = [0xD800, 0x0065, 0, 0];
    assert_eq!(decode_locale_name(&buffer), None);
}

#[test]
fn decode_ignores_garbage_after_nul() {
    let buffer: [u16; 5] = [0x0064, 0x0065, 0, 0xD800, 0x0041];
    assert_eq!(decode_locale_name(&buffer), Some("de".to_string()));
}
