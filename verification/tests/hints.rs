use x11_data_transfer::hint::TypeHint;

const WAV: TypeHint = TypeHint::Audio { extension_hint: Some("wav") };
const OGG: TypeHint = TypeHint::Audio { extension_hint: Some("ogg") };
const ANY_AUDIO: TypeHint = TypeHint::Audio { extension_hint: None };
const PNG: TypeHint = TypeHint::Image { extension_hint: Some("png") };
const WAV_IMAGE: TypeHint = TypeHint::Image { extension_hint: Some("wav") };
const ANY_IMAGE: TypeHint = TypeHint::Image { extension_hint: None };

const ALL: [TypeHint; 10] = [
    TypeHint::Plaintext,
    TypeHint::UriList,
    TypeHint::Html,
    TypeHint::Rtf,
    WAV,
    OGG,
    ANY_AUDIO,
    PNG,
    WAV_IMAGE,
    ANY_IMAGE,
];

#[test]
fn only_equal_hints_are_the_same() {
    for (i, left) in ALL.iter().enumerate() {
        for (j, right) in ALL.iter().enumerate() {
            assert_eq!(left.same_as(right), i == j, "{left:?} and {right:?}");
        }
    }
}

#[test]
fn extensions_are_compared_by_their_text() {
    let text = String::from("xwav");
    let leaked: &'static str = Box::leak(text.into_boxed_str());
    let other = TypeHint::Audio { extension_hint: Some(&leaked[1..]) };
    assert!(WAV.same_as(&other));
    assert!(WAV.matches(&other));
}

#[test]
fn an_open_encoding_matches_every_encoding() {
    assert!(ANY_AUDIO.matches(&WAV));
    assert!(WAV.matches(&ANY_AUDIO));
    assert!(ANY_AUDIO.matches(&ANY_AUDIO));
    assert!(ANY_IMAGE.matches(&PNG));
    assert!(PNG.matches(&ANY_IMAGE));
}

#[test]
fn different_encodings_and_kinds_do_not_match() {
    assert!(!WAV.matches(&OGG));
    assert!(!WAV.matches(&WAV_IMAGE));
    assert!(!ANY_AUDIO.matches(&ANY_IMAGE));
    assert!(!TypeHint::Plaintext.matches(&TypeHint::Html));
    assert!(!TypeHint::Rtf.matches(&ANY_AUDIO));
    for hint in ALL {
        assert!(hint.matches(&hint));
    }
}
