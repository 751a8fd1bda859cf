use x11_data_transfer::atoms::Atoms;
use x11_data_transfer::bytes::{read_units, read_words, ByteOrder};
use x11_data_transfer::data::{SelectionReader, SendData};
use x11_data_transfer::error::TextError;
use x11_data_transfer::hint::TypeHint;
use x11_data_transfer::selection::SelectionType;
use x11_data_transfer::text::{encode_uri_list, split_uris};

fn atoms() -> Atoms {
    Atoms {
        none: 100,
        clipboard: 101,
        targets: 102,
        timestamp: 103,
        incr: 104,
        xdnd_action_copy: 105,
        xdnd_finished: 106,
        xdnd_status: 107,
        xdnd_selection: 108,
        xdnd_type_list: 109,
        text_uri_list: 110,
        string: 111,
        utf8_string: 112,
        text_plain: 113,
        text_plain_charset_utf8: 114,
        text_html: 115,
        text_html_charset_utf8: 116,
        application_rtf: 117,
        audio_aac: 118,
        audio_aiff: 119,
        audio_flac: 120,
        audio_vnd_wav: 121,
        audio_vnd_wave: 122,
        audio_wav: 123,
        audio_wave: 124,
        audio_x_wav: 125,
        audio_ogg: 126,
        audio_mpeg: 127,
        image_bmp: 128,
        image_gif: 129,
        image_jpeg: 130,
        image_pjpeg: 131,
        image_png: 132,
        image_raw: 133,
        image_svg: 134,
        image_tiff: 135,
        image_webp: 136,
        image_x_icon: 137,
    }
}

fn plain(data: &[u8]) -> SelectionReader {
    SelectionReader::new(SelectionType::new(&atoms(), atoms().utf8_string), data.to_vec())
}

fn html(data: &[u8]) -> SelectionReader {
    SelectionReader::new(SelectionType::new(&atoms(), atoms().text_html), data.to_vec())
}

fn uris(data: &[u8]) -> SelectionReader {
    SelectionReader::new(SelectionType::new(&atoms(), atoms().text_uri_list), data.to_vec())
}

fn utf16(text: &str) -> Vec<u8> {
    text.encode_utf16().flat_map(|unit| unit.to_ne_bytes()).collect()
}

fn strings(texts: &[&str]) -> Vec<String> {
    texts.iter().map(|text| text.to_string()).collect()
}

#[test]
fn a_machine_is_told_by_how_it_reads_a_number() {
    let order = ByteOrder::of_probe(u16::from_ne_bytes([1, 0]));
    let bytes = 0x0102_0304u32.to_ne_bytes().to_vec();
    assert_eq!(read_words(&bytes, order), vec![0x0102_0304]);
    let bytes = 0xabcdu16.to_ne_bytes().to_vec();
    assert_eq!(read_units(&bytes, order), vec![0xabcd]);
    assert_eq!(ByteOrder::of_probe(1), ByteOrder::Little);
    assert_eq!(ByteOrder::of_probe(256), ByteOrder::Big);
}

#[test]
fn numbers_are_read_in_either_order() {
    let bytes = vec![1, 2, 3, 4, 5, 6, 7];
    assert_eq!(read_words(&bytes, ByteOrder::Little), vec![0x0403_0201]);
    assert_eq!(read_words(&bytes, ByteOrder::Big), vec![0x0102_0304]);
    assert_eq!(read_units(&bytes, ByteOrder::Little), vec![0x0201, 0x0403, 0x0605]);
    assert_eq!(read_units(&bytes, ByteOrder::Big), vec![0x0102, 0x0304, 0x0506]);
    assert_eq!(read_words(&vec![255; 4], ByteOrder::Big), vec![u32::MAX]);
    assert!(read_words(&vec![1, 2, 3], ByteOrder::Little).is_empty());
}

#[test]
fn utf8_text_is_read() {
    let text = "na\u{ef}ve \u{20ac} \u{1f600}";
    assert_eq!(plain(text.as_bytes()).try_as_string().unwrap(), text);
    assert_eq!(html(text.as_bytes()).try_as_string().unwrap(), text);
    assert_eq!(uris(text.as_bytes()).try_as_string().unwrap(), text);
    assert_eq!(plain(b"").try_as_string().unwrap(), "");
}

#[test]
fn text_that_is_not_utf8_is_read_as_utf16() {
    let text = "\u{e9}t\u{e9} \u{1f600}";
    let bytes = utf16(text);
    assert!(std::str::from_utf8(&bytes).is_err());
    assert_eq!(plain(&bytes).try_as_string().unwrap(), text);
    assert_eq!(html(&bytes).try_as_string().unwrap(), text);
    let mut odd = bytes.clone();
    odd.push(0x41);
    assert_eq!(plain(&odd).try_as_string().unwrap(), text);
}

#[test]
fn utf16_is_read_in_either_order() {
    let bytes = [0xe9, 0x00, 0x3d, 0xd8, 0x00, 0xde];
    let text = plain(&bytes).as_string_in(ByteOrder::Little).unwrap();
    assert_eq!(text, "\u{e9}\u{1f600}");
    let bytes = [0x00, 0xe9, 0xd8, 0x3d, 0xde, 0x00];
    let text = plain(&bytes).as_string_in(ByteOrder::Big).unwrap();
    assert_eq!(text, "\u{e9}\u{1f600}");
}

#[test]
fn a_lone_surrogate_is_not_text() {
    let bytes = [0x00, 0xd8, 0x41, 0x00];
    assert!(matches!(
        plain(&bytes).as_string_in(ByteOrder::Little),
        Err(TextError::InvalidUtf16(_))
    ));
    let low = 0xdc00u16.to_ne_bytes();
    assert!(matches!(plain(&low).try_as_string(), Err(TextError::InvalidUtf16(_))));
}

#[test]
fn a_list_of_uris_is_not_read_as_utf16() {
    let bytes = utf16("\u{e9}");
    let expected = String::from_utf8(bytes.clone()).unwrap_err();
    match uris(&bytes).try_as_string() {
        Err(TextError::InvalidUtf8(error)) => assert_eq!(error, expected),
        other => panic!("the data should not be UTF-8, but reads {other:?}"),
    }
    match uris(&bytes).try_as_uris() {
        Err(TextError::InvalidUtf8(error)) => {
            assert_eq!(error.as_bytes(), bytes);
            assert_eq!(error, expected);
        },
        other => panic!("the data should not be UTF-8, but reads {other:?}"),
    }
}

#[test]
fn other_data_is_not_text() {
    let a = atoms();
    for atom in [a.application_rtf, a.image_png, a.audio_ogg, 9] {
        let reader = SelectionReader::new(SelectionType::new(&a, atom), b"text".to_vec());
        assert!(matches!(reader.try_as_string(), Err(TextError::WrongType)));
        assert!(matches!(reader.try_as_uris(), Err(TextError::WrongType)));
    }
}

#[test]
fn only_a_list_of_uris_is_read_as_one() {
    assert!(matches!(plain(b"file:///a\r\n").try_as_uris(), Err(TextError::WrongType)));
    assert_eq!(uris(b"file:///a\r\n").try_as_uris().unwrap(), strings(&["file:///a"]));
}

#[test]
fn uris_are_split_at_every_line_break() {
    assert_eq!(split_uris("a\nb\rc\r\nd"), strings(&["a", "b", "c", "d"]));
    assert_eq!(split_uris("\r\n\r\na b\n\n\n"), strings(&["a b"]));
    assert_eq!(split_uris("\u{20ac}\r\u{e9}"), strings(&["\u{20ac}", "\u{e9}"]));
    assert!(split_uris("").is_empty());
    assert!(split_uris("\r\n").is_empty());
}

#[test]
fn uris_are_written_on_lines_of_their_own() {
    assert_eq!(encode_uri_list(&strings(&["a", "\u{e9}"])), b"a\r\n\xc3\xa9\r\n".to_vec());
    assert!(encode_uri_list(&Vec::new()).is_empty());
    assert_eq!(encode_uri_list(&strings(&[""])), b"\r\n".to_vec());
}

#[test]
fn written_uris_are_read_back() {
    let list = strings(&["file:///tmp/a b", "https://example.org/\u{20ac}", "x"]);
    assert_eq!(uris(&encode_uri_list(&list)).try_as_uris().unwrap(), list);
}

#[test]
fn sent_text_is_read_back_under_every_text_type() {
    let text = "caf\u{e9}";
    let bytes = SendData::String(text.to_string()).into_wire_bytes().unwrap();
    assert_eq!(bytes, text.as_bytes());
    assert_eq!(plain(&bytes).try_as_string().unwrap(), text);
    assert_eq!(html(&bytes).try_as_string().unwrap(), text);
    assert_eq!(uris(&bytes).try_as_string().unwrap(), text);
}

#[test]
fn bytes_are_sent_as_they_are_and_unknown_data_is_not_sent() {
    assert_eq!(SendData::Bytes(vec![0, 255]).into_wire_bytes(), Some(vec![0, 255]));
    assert_eq!(SendData::Unknown.into_wire_bytes(), None);
}

#[test]
fn a_reader_hands_out_its_bytes_and_its_type() {
    let reader = plain(&[1, 2, 3]);
    assert_eq!(reader.try_read(), Some(vec![1, 2, 3]));
    assert_eq!(reader.type_().hint(), Some(TypeHint::Plaintext));
    assert_eq!(reader.type_().atom(), atoms().utf8_string);
}
