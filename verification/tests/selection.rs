use x11_data_transfer::atoms::Atoms;
use x11_data_transfer::hint::TypeHint;
use x11_data_transfer::selection::{
    ClipboardSelectionType, Selection, SelectionType, TransferType,
};

fn atoms() -> Atoms {
    Atoms {
        none: 100,
        clipboard: 101,
        targets: 102,
        timestamp: 103,
        incr: 104,
        xdnd_action_copy: 105,
        xdnd_finished: 106,
        xdnd_status: 107,
        xdnd_selection: 108,
        xdnd_type_list: 109,
        text_uri_list: 110,
        string: 111,
        utf8_string: 112,
        text_plain: 113,
        text_plain_charset_utf8: 114,
        text_html: 115,
        text_html_charset_utf8: 116,
        application_rtf: 117,
        audio_aac: 118,
        audio_aiff: 119,
        audio_flac: 120,
        audio_vnd_wav: 121,
        audio_vnd_wave: 122,
        audio_wav: 123,
        audio_wave: 124,
        audio_x_wav: 125,
        audio_ogg: 126,
        audio_mpeg: 127,
        image_bmp: 128,
        image_gif: 129,
        image_jpeg: 130,
        image_pjpeg: 131,
        image_png: 132,
        image_raw: 133,
        image_svg: 134,
        image_tiff: 135,
        image_webp: 136,
        image_x_icon: 137,
    }
}

fn audio(extension: &'static str) -> Option<TypeHint> {
    Some(TypeHint::Audio { extension_hint: Some(extension) })
}

fn image(extension: &'static str) -> Option<TypeHint> {
    Some(TypeHint::Image { extension_hint: Some(extension) })
}

#[test]
fn iter_walks_through_every_selection() {
    let all: Vec<_> = ClipboardSelectionType::iter().collect();
    assert_eq!(
        all,
        vec![
            ClipboardSelectionType::Primary,
            ClipboardSelectionType::Secondary,
            ClipboardSelectionType::Clipboard,
        ]
    );
}

#[test]
fn selections_have_the_atoms_of_the_protocol() {
    let atoms = atoms();
    assert_eq!(ClipboardSelectionType::Primary.to_atom(&atoms), 1);
    assert_eq!(ClipboardSelectionType::Secondary.to_atom(&atoms), 2);
    assert_eq!(ClipboardSelectionType::Clipboard.to_atom(&atoms), atoms.clipboard);
}

#[test]
fn selections_are_found_by_their_atoms() {
    let atoms = atoms();
    for clipboard in ClipboardSelectionType::iter() {
        let atom = clipboard.to_atom(&atoms);
        assert_eq!(ClipboardSelectionType::from_atom(&atoms, atom), Some(clipboard));
    }
    assert_eq!(ClipboardSelectionType::from_atom(&atoms, 0), None);
    assert_eq!(ClipboardSelectionType::from_atom(&atoms, 3), None);
}

#[test]
fn an_ambiguous_atom_names_the_first_selection() {
    let ambiguous = Atoms { clipboard: 1, ..atoms() };
    assert_eq!(
        ClipboardSelectionType::from_atom(&ambiguous, 1),
        Some(ClipboardSelectionType::Primary)
    );
}

#[test]
fn known_atoms_have_hints() {
    let a = atoms();
    let expected = vec![
        (a.text_uri_list, Some(TypeHint::UriList)),
        (a.string, Some(TypeHint::Plaintext)),
        (a.utf8_string, Some(TypeHint::Plaintext)),
        (a.text_plain, Some(TypeHint::Plaintext)),
        (a.text_plain_charset_utf8, Some(TypeHint::Plaintext)),
        (a.text_html, Some(TypeHint::Html)),
        (a.text_html_charset_utf8, Some(TypeHint::Html)),
        (a.application_rtf, Some(TypeHint::Rtf)),
        (a.audio_aac, audio("aac")),
        (a.audio_aiff, audio("aif")),
        (a.audio_flac, audio("flac")),
        (a.audio_vnd_wav, audio("wav")),
        (a.audio_vnd_wave, audio("wav")),
        (a.audio_wav, audio("wav")),
        (a.audio_wave, audio("wav")),
        (a.audio_x_wav, audio("wav")),
        (a.audio_ogg, audio("ogg")),
        (a.audio_mpeg, audio("mp3")),
        (a.image_bmp, image("bmp")),
        (a.image_gif, image("gif")),
        (a.image_jpeg, image("jpg")),
        (a.image_pjpeg, image("jpg")),
        (a.image_png, image("png")),
        (a.image_raw, image("raw")),
        (a.image_svg, image("svg")),
        (a.image_tiff, image("tiff")),
        (a.image_webp, image("webp")),
        (a.image_x_icon, image("ico")),
        (a.targets, None),
        (a.incr, None),
        (7, None),
    ];
    for (atom, hint) in expected {
        let type_ = SelectionType::new(&a, atom);
        assert_eq!(type_.atom(), atom);
        assert_eq!(type_.hint(), hint);
    }
}

#[test]
fn the_first_entry_for_an_atom_counts() {
    let a = Atoms { string: 110, ..atoms() };
    assert_eq!(a.text_uri_list, 110);
    assert_eq!(SelectionType::new(&a, 110).hint(), Some(TypeHint::UriList));
}

fn advertised(type_: TransferType) -> Vec<u32> {
    SelectionType::from_dyn(&atoms(), &type_).iter().map(|type_| type_.atom()).collect()
}

#[test]
fn a_hint_is_advertised_under_all_matching_atoms() {
    let a = atoms();
    let text = TransferType::Other { hint: Some(TypeHint::Plaintext) };
    assert_eq!(
        advertised(text),
        vec![a.string, a.utf8_string, a.text_plain, a.text_plain_charset_utf8]
    );
    let wav = TransferType::Other { hint: audio("wav") };
    assert_eq!(
        advertised(wav),
        vec![a.audio_vnd_wav, a.audio_vnd_wave, a.audio_wav, a.audio_wave, a.audio_x_wav]
    );
    let any_image = TransferType::Other { hint: Some(TypeHint::Image { extension_hint: None }) };
    assert_eq!(advertised(any_image).len(), 10);
    let any_audio = TransferType::Other { hint: Some(TypeHint::Audio { extension_hint: None }) };
    assert_eq!(advertised(any_audio).len(), 10);
}

#[test]
fn a_type_without_a_hint_is_not_advertised() {
    assert!(advertised(TransferType::Other { hint: None }).is_empty());
    assert!(advertised(TransferType::Other { hint: audio("mid") }).is_empty());
}

#[test]
fn a_selection_type_is_advertised_as_itself() {
    let a = atoms();
    let known = SelectionType::new(&a, a.image_png);
    let unknown = SelectionType::new(&a, 9);
    assert_eq!(SelectionType::from_dyn(&a, &TransferType::Selection(known)), vec![known]);
    assert_eq!(SelectionType::from_dyn(&a, &TransferType::Selection(unknown)), vec![unknown]);
}

#[test]
fn advertised_atoms_are_understood_when_asked_for() {
    let a = atoms();
    let any_audio = TypeHint::Audio { extension_hint: None };
    for type_ in SelectionType::from_dyn(&a, &TransferType::Other { hint: Some(any_audio) }) {
        assert_eq!(SelectionType::new(&a, type_.atom()), type_);
        assert!(type_.hint().unwrap().matches(&any_audio));
    }
}

#[test]
fn selection_types_match_by_equality_and_others_by_hint() {
    let a = atoms();
    let string = SelectionType::new(&a, a.string);
    let utf8 = SelectionType::new(&a, a.utf8_string);
    let unknown = SelectionType::new(&a, 9);
    assert!(string.matches(&TransferType::Selection(string)));
    assert!(!string.matches(&TransferType::Selection(utf8)));
    assert!(unknown.matches(&TransferType::Selection(unknown)));
    assert!(string.matches(&TransferType::Other { hint: Some(TypeHint::Plaintext) }));
    assert!(!string.matches(&TransferType::Other { hint: Some(TypeHint::Html) }));
    assert!(!string.matches(&TransferType::Other { hint: None }));
    assert!(!unknown.matches(&TransferType::Other { hint: None }));
    let wav = SelectionType::new(&a, a.audio_wav);
    let any_audio = Some(TypeHint::Audio { extension_hint: None });
    assert!(!wav.matches(&TransferType::Other { hint: any_audio }));
}

#[test]
fn a_selection_lists_its_types_in_order() {
    let a = atoms();
    let types = vec![SelectionType::new(&a, a.image_png), SelectionType::new(&a, a.string)];
    let selection = Selection::new(types.clone());
    assert_eq!(selection.available_types(), &types);
}
