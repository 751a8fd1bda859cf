use winit_core::event_loop::AsyncRequestSerial;
use x11_data_transfer::atoms::Atoms;
use x11_data_transfer::bytes::ByteOrder;
use x11_data_transfer::clipboard::Delivery;
use x11_data_transfer::data::SendData;
use x11_data_transfer::drag::{DndState, DragState};
use x11_data_transfer::error::X11Error;
use x11_data_transfer::hint::TypeHint;
use x11_data_transfer::id::{DataTransferId, TransferIds};
use x11_data_transfer::protocol::{
    PropertyChange, PropertyTake, PropertyValue, XPropertyEvent, XSelectionEvent,
    XSelectionRequestEvent,
};
use x11_data_transfer::selection::{ClipboardSelectionType, SelectionType, TransferType};
use x11_data_transfer::transfer::copy::{AttachStep, Refusal};
use x11_data_transfer::transfer::DataTransferState;
use x11rb::errors::{ConnectionError, ReplyError};
use x11rb::protocol::ErrorKind;
use x11rb::x11_utils::X11Error as X11Failure;

fn atoms() -> Atoms {
    Atoms {
        none: 100,
        clipboard: 101,
        targets: 102,
        timestamp: 103,
        incr: 104,
        xdnd_action_copy: 105,
        xdnd_finished: 106,
        xdnd_status: 107,
        xdnd_selection: 108,
        xdnd_type_list: 109,
        text_uri_list: 110,
        string: 111,
        utf8_string: 112,
        text_plain: 113,
        text_plain_charset_utf8: 114,
        text_html: 115,
        text_html_charset_utf8: 116,
        application_rtf: 117,
        audio_aac: 118,
        audio_aiff: 119,
        audio_flac: 120,
        audio_vnd_wav: 121,
        audio_vnd_wave: 122,
        audio_wav: 123,
        audio_wave: 124,
        audio_x_wav: 125,
        audio_ogg: 126,
        audio_mpeg: 127,
        image_bmp: 128,
        image_gif: 129,
        image_jpeg: 130,
        image_pjpeg: 131,
        image_png: 132,
        image_raw: 133,
        image_svg: 134,
        image_tiff: 135,
        image_webp: 136,
        image_x_icon: 137,
    }
}

const CLIPBOARD: ClipboardSelectionType = ClipboardSelectionType::Clipboard;

fn start() -> (DataTransferState<&'static str>, TransferIds) {
    let mut ids = TransferIds::new();
    let state = DataTransferState::new(atoms(), &mut ids);
    (state, ids)
}

fn type_of(atom: u32) -> SelectionType {
    SelectionType::new(&atoms(), atom)
}

fn request(selection: u32, target: u32) -> XSelectionRequestEvent {
    XSelectionRequestEvent {
        requestor: 0x7_0000_0031,
        selection: selection as u64,
        target: target as u64,
        property: 0x9_0000_0032,
    }
}

fn deleted(property: u64) -> XPropertyEvent {
    XPropertyEvent { window: 0x31, atom: property, state: 1 }
}

fn arrived(property: u64) -> XPropertyEvent {
    XPropertyEvent { window: 0x51, atom: property, state: 0 }
}

fn bytes_of(change: &PropertyChange) -> Vec<u8> {
    match &change.value {
        PropertyValue::Bytes(bytes) => bytes.clone(),
        PropertyValue::Longs(_) => panic!("bytes were expected"),
    }
}

fn longs_of(change: &PropertyChange) -> Vec<u32> {
    match &change.value {
        PropertyValue::Longs(longs) => longs.clone(),
        PropertyValue::Bytes(_) => panic!("32-bit values were expected"),
    }
}

fn written(step: AttachStep) -> PropertyChange {
    assert_eq!(step.resolved(), Some(true));
    match step {
        AttachStep::Write(change) => change,
        other => panic!("a write was expected, not {other:?}"),
    }
}

#[test]
fn a_new_state_is_empty() {
    let (mut state, mut ids) = start();
    assert!(state.state().is_none());
    assert!(state.state_mut().is_none());
    for (i, clipboard) in ClipboardSelectionType::iter().enumerate() {
        let id = state.get_clipboard(clipboard).clipboard_serial();
        assert_eq!(id, DataTransferId { raw: i as i64 });
        assert_eq!(state.resolve_clipboard_type(id), Some(clipboard));
        assert!(state.get_clipboard(clipboard).owned_data().is_none());
        assert!(state.get_clipboard(clipboard).get_types().available_types().is_empty());
    }
    assert_eq!(state.resolve_clipboard_type(DataTransferId { raw: 3 }), None);
    assert_eq!(ids.generate_transfer_id().raw, 3);
}

#[test]
fn the_primary_selection_is_watched() {
    let watch = start().0.selection_watch(77);
    assert_eq!((watch.window, watch.selection, watch.mask), (77, 1, 1));
}

#[test]
fn a_drag_goes_on_when_another_enters() {
    let (mut state, mut ids) = start();
    let types = vec![type_of(atoms().text_uri_list), type_of(atoms().string)];
    let drag = state.init_state(&mut ids, 5, 11, 12, types.clone());
    assert_eq!(drag.version, 5);
    assert_eq!(drag.transfer_id.raw, 3);
    assert_eq!((drag.source_window, drag.target_window), (11, 12));
    assert_eq!(drag.types, types);
    assert!(drag.pending_fetch_types.is_empty());
    assert_eq!(drag.finished, None);
    assert_eq!(drag.accepted, None);

    let drag = state.init_state(&mut ids, 4, 21, 22, Vec::new());
    assert_eq!(drag.version, 5);
    assert_eq!(drag.transfer_id.raw, 3);
    assert_eq!(drag.types, types);
    assert_eq!(ids.generate_transfer_id().raw, 5);
}

#[test]
fn the_types_of_a_drag_are_found_by_hint() {
    let (mut state, mut ids) = start();
    assert!(state.find_type_by_hint(TypeHint::Plaintext).is_none());
    let a = atoms();
    let types = vec![type_of(a.text_html), type_of(a.utf8_string), type_of(a.string)];
    state.init_state(&mut ids, 5, 1, 2, types);
    assert_eq!(state.find_type_by_hint(TypeHint::Plaintext).unwrap().atom(), a.utf8_string);
    assert_eq!(state.find_type_by_hint(TypeHint::Html).unwrap().atom(), a.text_html);
    assert!(state.find_type_by_hint(TypeHint::Rtf).is_none());
}

#[test]
fn the_source_of_a_drag_learns_the_status() {
    let (state, _) = start();
    let a = atoms();
    let message = state.send_status(1, 2, DndState::Accepted);
    assert_eq!((message.window, message.target_window), (2, 2));
    assert_eq!(message.message_type, a.xdnd_status);
    assert_eq!(message.data, [1, 1, 0, 0, a.xdnd_action_copy]);
    let message = state.send_status(1, 2, DndState::Rejected);
    assert_eq!(message.data, [1, 0, 0, 0, a.none]);
}

#[test]
fn the_source_of_a_drag_learns_that_it_is_over() {
    let (mut state, mut ids) = start();
    let a = atoms();
    match state.send_finished(1, 2).unwrap_err() {
        X11Error::UnexpectedNull(what) => assert_eq!(
            what,
            "Drag-and-drop state was not initialized (called `send_finished` before XdndEnter"
        ),
        other => panic!("a missing drag was expected, not {other:?}"),
    }
    state.init_state(&mut ids, 5, 1, 2, Vec::new());
    let message = state.send_finished(1, 2).unwrap();
    assert_eq!((message.window, message.target_window), (2, 2));
    assert_eq!(message.message_type, a.xdnd_finished);
    assert_eq!(message.data, [1, 0, a.none, 0, 0]);
    state.state_mut().unwrap().accepted = Some(true);
    let message = state.send_finished(1, 2).unwrap();
    assert_eq!(message.data, [1, 1, a.xdnd_action_copy, 0, 0]);
}

#[test]
fn silence_about_a_drag_is_no_rejection_and_no_acceptance() {
    let (mut silent, mut ids) = start();
    let (mut rejected, _) = start();
    silent.init_state(&mut ids, 5, 1, 2, Vec::new());
    rejected.init_state(&mut ids, 5, 1, 2, Vec::new());
    rejected.state_mut().unwrap().accepted = Some(false);
    assert_eq!(silent.state().unwrap().accepted, None);
    assert_ne!(silent.state().unwrap().accepted, rejected.state().unwrap().accepted);
    let message = silent.send_finished(1, 2).unwrap();
    assert_eq!(message.data, [1, 0, atoms().none, 0, 0]);
    assert_eq!(message, rejected.send_finished(1, 2).unwrap());
    assert_eq!(DragState::new(&mut ids).accepted, None);
}

#[test]
fn dragged_data_is_read_from_its_properties() {
    let (state, _) = start();
    let a = atoms();
    let list = state.get_type_list(9);
    assert_eq!((list.window, list.property, list.type_), (9, a.xdnd_type_list, 4));
    let read = state.read_data(8, &type_of(a.string));
    assert_eq!((read.window, read.property, read.type_), (8, a.xdnd_selection, a.string));
}

#[test]
fn setting_a_clipboard_takes_ownership_under_a_new_id() {
    let (mut state, mut ids) = start();
    let owner = state.set_clipboard(&mut ids, 6, "text", CLIPBOARD);
    assert_eq!((owner.owner, owner.selection, owner.time), (6, atoms().clipboard, 0));
    assert_eq!(state.get_clipboard(CLIPBOARD).owned_data(), Some(&"text"));
    assert_eq!(state.get_clipboard(CLIPBOARD).clipboard_serial().raw, 3);
    assert_eq!(state.resolve_clipboard_type(DataTransferId { raw: 3 }), Some(CLIPBOARD));
    assert_eq!(state.resolve_clipboard_type(DataTransferId { raw: 2 }), None);
    let primary = state.get_clipboard(ClipboardSelectionType::Primary);
    assert!(primary.owned_data().is_none());
    assert_eq!(primary.clipboard_serial().raw, 0);
}

#[test]
fn every_new_contents_have_a_new_id() {
    let (mut state, mut ids) = start();
    let mut seen: Vec<i64> = vec![0, 1, 2];
    for clipboard in ClipboardSelectionType::iter().chain(ClipboardSelectionType::iter()) {
        let before = state.get_clipboard(clipboard).clipboard_serial();
        state.set_clipboard(&mut ids, 6, "text", clipboard);
        let id = state.get_clipboard(clipboard).clipboard_serial();
        assert!(!seen.contains(&id.raw));
        assert_eq!(state.resolve_clipboard_type(id), Some(clipboard));
        assert_eq!(state.resolve_clipboard_type(before), None);
        seen.push(id.raw);
    }
}

#[test]
fn a_drag_has_an_id_of_its_own() {
    let (mut state, mut ids) = start();
    let id = state.init_state(&mut ids, 5, 1, 2, Vec::new()).transfer_id;
    assert_eq!(state.resolve_clipboard_type(id), None);
    for clipboard in ClipboardSelectionType::iter() {
        state.set_clipboard(&mut ids, 6, "text", clipboard);
        assert_ne!(state.get_clipboard(clipboard).clipboard_serial(), id);
    }
    assert_eq!(state.resolve_clipboard_type(id), None);
    assert_ne!(DragState::new(&mut ids).transfer_id, id);
}

#[test]
fn pasting_keeps_the_contents_and_their_id() {
    let (mut state, mut ids) = start();
    let a = atoms();
    state.set_clipboard(&mut ids, 6, "text", CLIPBOARD);
    let serial = AsyncRequestSerial::get();
    state.populate_targets(a.clipboard, a.string.to_ne_bytes().to_vec());
    state.get_clipboard_mut(CLIPBOARD).add_to_fetch(serial, type_of(a.string));
    state.attach_sender(&request(a.clipboard, a.string), vec![1], type_of(a.string), Ok(()));
    state.check_incr_send_data(&deleted(0x32), &vec![true]);
    state.start_incr_receiver(&notify(a.clipboard, 0x60));
    assert!(state.check_incr_receive_data(&arrived(0x60), Some(Vec::new())).is_some());
    assert_eq!(state.get_clipboard(CLIPBOARD).owned_data(), Some(&"text"));
    assert_eq!(state.get_clipboard(CLIPBOARD).clipboard_serial().raw, 3);
    assert_eq!(state.request_clipboard_read(7, CLIPBOARD).0.raw, 3);
}

#[test]
fn owned_data_is_cleared_once() {
    let (mut state, mut ids) = start();
    state.set_clipboard(&mut ids, 6, "text", CLIPBOARD);
    assert!(state.get_clipboard_mut(CLIPBOARD).clear_owned_data());
    assert!(!state.get_clipboard_mut(CLIPBOARD).clear_owned_data());
    assert!(state.get_clipboard(CLIPBOARD).owned_data().is_none());
}

#[test]
fn pasting_asks_for_the_types_first_and_keeps_the_id() {
    let (state, _) = start();
    let (id, convert) = state.request_clipboard_read(5, ClipboardSelectionType::Secondary);
    assert_eq!(id.raw, 1);
    assert_eq!((convert.requestor, convert.selection), (5, 2));
    assert_eq!((convert.target, convert.property, convert.time), (atoms().targets, 42, 0));
    assert_eq!(state.request_clipboard_read(5, ClipboardSelectionType::Secondary).0, id);
}

#[test]
fn listed_types_are_remembered() {
    let (mut state, _) = start();
    let a = atoms();
    let mut data: Vec<u8> = Vec::new();
    for atom in [a.targets, a.string, a.image_png] {
        data.extend(atom.to_ne_bytes());
    }
    data.push(1);
    state.populate_targets(a.clipboard, data);
    let types = state.get_clipboard(CLIPBOARD).get_types();
    let listed: Vec<u32> = types.available_types().iter().map(|type_| type_.atom()).collect();
    assert_eq!(listed, vec![a.targets, a.string, a.image_png]);
    let clipboard = state.get_clipboard(CLIPBOARD);
    assert_eq!(clipboard.find_type_by_hint(TypeHint::Plaintext).unwrap().atom(), a.string);
    assert!(clipboard.find_type_by_hint(TypeHint::Html).is_none());
    let any_image = TypeHint::Image { extension_hint: None };
    assert!(clipboard.find_type_by_hint(any_image).is_none());
    let primary = state.get_clipboard(ClipboardSelectionType::Primary);
    assert!(primary.get_types().available_types().is_empty());
}

#[test]
fn listed_types_are_read_in_the_given_order() {
    let (mut state, _) = start();
    state.populate_targets_in(1, vec![0, 0, 0, 111], ByteOrder::Big);
    let primary = state.get_clipboard(ClipboardSelectionType::Primary);
    assert_eq!(primary.get_types().available_types(), &vec![type_of(111)]);
    state.populate_targets_in(1, vec![112, 0, 0, 0], ByteOrder::Little);
    let primary = state.get_clipboard(ClipboardSelectionType::Primary);
    assert_eq!(primary.get_types().available_types(), &vec![type_of(112)]);
}

#[test]
fn types_listed_for_an_unknown_selection_are_ignored() {
    let (mut state, _) = start();
    state.populate_targets(99, 111u32.to_ne_bytes().to_vec());
    for clipboard in ClipboardSelectionType::iter() {
        assert!(state.get_clipboard(clipboard).get_types().available_types().is_empty());
    }
}

#[test]
fn fetches_are_answered_in_order() {
    let (mut state, _) = start();
    let a = atoms();
    let serials: Vec<AsyncRequestSerial> = (0..3).map(|_| AsyncRequestSerial::get()).collect();
    let targets = [a.string, a.text_html, a.image_png];
    for (i, (serial, target)) in serials.iter().zip(targets).enumerate() {
        let clipboard = state.get_clipboard_mut(CLIPBOARD);
        assert_eq!(clipboard.add_to_fetch(*serial, type_of(target)), i == 0);
    }
    for i in 0..3 {
        let Delivery { finished, next } =
            state.send_clipboard_data(7, CLIPBOARD, vec![i as u8]).unwrap();
        match targets.get(i + 1) {
            Some(target) => {
                let next = next.unwrap();
                assert_eq!((next.requestor, next.selection), (7, a.clipboard));
                assert_eq!((next.target, next.property), (*target, a.clipboard));
                assert_eq!(next.time, 0);
            },
            None => assert_eq!(next, None),
        }
        assert_eq!(finished.window().raw, 7);
        let event = finished.to_event();
        assert_eq!(event.id.raw, 2);
        assert_eq!(event.serial, serials[i]);
        assert_eq!(event.value.type_().atom(), targets[i]);
        assert_eq!(event.value.try_read(), Some(vec![i as u8]));
    }
    assert!(state.send_clipboard_data(7, CLIPBOARD, vec![9]).is_none());
    let serial = AsyncRequestSerial::get();
    assert!(state.get_clipboard_mut(CLIPBOARD).add_to_fetch(serial, type_of(a.string)));
}

#[test]
fn requests_for_unknown_or_foreign_clipboards_are_refused() {
    let (mut state, mut ids) = start();
    let a = atoms();
    let step = state.attach_clipboard_property(&request(99, a.targets));
    assert_eq!(step.resolved(), Some(false));
    assert!(matches!(step, AttachStep::Refused(Refusal::UnknownClipboard)));
    let step = state.attach_clipboard_property(&request(a.clipboard, a.targets));
    assert_eq!(step.resolved(), Some(false));
    assert!(matches!(step, AttachStep::Refused(Refusal::NoData)));

    state.set_clipboard(&mut ids, 6, "text", CLIPBOARD);
    let step = state.attach_clipboard_property(&request(a.clipboard, a.targets));
    assert!(matches!(step, AttachStep::ListTypes(CLIPBOARD)));
    assert_eq!(step.resolved(), None);
    let step = state.attach_clipboard_property(&request(1, a.targets));
    assert!(matches!(step, AttachStep::Refused(Refusal::NoData)));

    state.get_clipboard_mut(CLIPBOARD).clear_owned_data();
    let step = state.attach_clipboard_property(&request(a.clipboard, a.targets));
    assert!(matches!(step, AttachStep::Refused(Refusal::NoData)));
}

#[test]
fn the_offered_types_are_advertised() {
    let (state, _) = start();
    let a = atoms();
    let offers = vec![
        TransferType::Other { hint: Some(TypeHint::Html) },
        TransferType::Selection(type_of(9)),
        TransferType::Other { hint: None },
        TransferType::Other { hint: Some(TypeHint::UriList) },
    ];
    let change = written(state.attach_targets(&request(a.clipboard, a.targets), &offers));
    assert_eq!((change.window, change.property), (0x31, 0x32));
    assert_eq!((change.type_, change.mode), (4, 0));
    assert_eq!(
        longs_of(&change),
        vec![
            a.timestamp,
            a.targets,
            a.text_html,
            a.text_html_charset_utf8,
            9,
            a.text_uri_list,
        ]
    );
    let change = written(state.attach_targets(&request(a.clipboard, a.targets), &Vec::new()));
    assert_eq!(longs_of(&change), vec![a.timestamp, a.targets]);
}

#[test]
fn a_timestamp_is_answered_with_now() {
    let (mut state, mut ids) = start();
    let a = atoms();
    state.set_clipboard(&mut ids, 6, "text", ClipboardSelectionType::Primary);
    let change = written(state.attach_clipboard_property(&request(1, a.timestamp)));
    assert_eq!((change.window, change.property), (0x31, 0x32));
    assert_eq!((change.type_, change.mode), (19, 0));
    assert_eq!(longs_of(&change), vec![0]);
}

#[test]
fn other_targets_are_fetched_from_the_application() {
    let (mut state, mut ids) = start();
    let a = atoms();
    state.set_clipboard(&mut ids, 6, "text", CLIPBOARD);
    match state.attach_clipboard_property(&request(a.clipboard, a.text_html)) {
        AttachStep::FetchData { clipboard, ty } => {
            assert_eq!(clipboard, CLIPBOARD);
            assert_eq!(ty, type_of(a.text_html));
        },
        other => panic!("data should be fetched, not {other:?}"),
    }
}

#[test]
fn data_that_is_not_supplied_is_refused() {
    let (state, _) = start();
    let a = atoms();
    let xev = request(a.clipboard, a.string);
    let ty = type_of(a.string);
    let step = state.attach_data(&xev, ty, None);
    assert!(matches!(step, AttachStep::Refused(Refusal::UnknownTarget)));
    let step = state.attach_data(&xev, ty, Some(SendData::Unknown));
    assert!(matches!(step, AttachStep::Refused(Refusal::UnknownData)));
    match state.attach_data(&xev, ty, Some(SendData::String("hi".to_string()))) {
        AttachStep::Listen { requestor, data, ty: listed } => {
            assert_eq!(requestor, 0x31);
            assert_eq!(data, b"hi".to_vec());
            assert_eq!(listed, ty);
        },
        other => panic!("the data should be sent, not {other:?}"),
    }
}

/// What the X server answers when it is asked about a window that is gone.
fn no_such_window() -> X11Failure {
    X11Failure {
        error_kind: ErrorKind::Window,
        error_code: 3,
        sequence: 7,
        bad_value: 0x31,
        minor_opcode: 0,
        major_opcode: 3,
        extension_name: None,
        request_name: Some("GetWindowAttributes"),
    }
}

#[test]
fn a_sender_starts_only_while_listening() {
    let (mut state, _) = start();
    let a = atoms();
    let ty = type_of(a.string);
    match state.start_incr_sender(&request(99, a.string), vec![1], ty, Ok(())).unwrap_err() {
        X11Error::UnexpectedNull(what) => assert_eq!(what, "getting clipboard selection"),
        other => panic!("an unknown selection was expected, not {other:?}"),
    }
    let failure = Err(ReplyError::ConnectionError(ConnectionError::UnknownError));
    assert!(matches!(
        state.start_incr_sender(&request(99, a.string), vec![1], ty, failure),
        Err(X11Error::UnexpectedNull("getting clipboard selection"))
    ));
    let xev = request(a.clipboard, a.string);
    let failure = Err(ReplyError::ConnectionError(ConnectionError::UnsupportedExtension));
    assert!(matches!(
        state.start_incr_sender(&xev, vec![1], ty, failure),
        Err(X11Error::Reply(ReplyError::ConnectionError(ConnectionError::UnsupportedExtension)))
    ));
    assert!(matches!(
        state.start_incr_sender(&xev, vec![1], ty, Err(ReplyError::X11Error(no_such_window()))),
        Err(X11Error::Reply(ReplyError::X11Error(error))) if error == no_such_window()
    ));
    let failure = Err(ReplyError::X11Error(no_such_window()));
    let step = state.attach_sender(&xev, vec![1], ty, failure);
    assert!(matches!(step, AttachStep::Refused(Refusal::NotStarted)));
    assert!(state.incr_send_chunks(&deleted(0x32)).is_empty());

    let change = written(state.attach_sender(&xev, vec![1], ty, Ok(())));
    assert_eq!((change.window, change.property), (0x31, 0x32));
    assert_eq!((change.type_, change.mode), (a.incr, 0));
    assert!(longs_of(&change).is_empty());
    assert_eq!(state.incr_send_chunks(&deleted(0x32)).len(), 1);
}

fn sender(lens: &[usize]) -> DataTransferState<&'static str> {
    let (mut state, _) = start();
    let a = atoms();
    for len in lens {
        let data = (0..*len).map(|i| (i % 251) as u8).collect();
        let xev = request(a.clipboard, a.string);
        state.start_incr_sender(&xev, data, type_of(a.string), Ok(())).unwrap();
    }
    state
}

fn chunk_lens(state: &mut DataTransferState<&'static str>, turns: usize) -> Vec<usize> {
    let mut lens = Vec::new();
    for _ in 0..turns {
        let changes = state.incr_send_chunks(&deleted(0x32));
        assert_eq!(changes.len(), 1);
        assert_eq!((changes[0].window, changes[0].property), (0x31, 0x32));
        assert_eq!((changes[0].type_, changes[0].mode), (atoms().string, 0));
        lens.push(bytes_of(&changes[0]).len());
        state.check_incr_send_data(&deleted(0x32), &vec![true]);
    }
    assert!(state.incr_send_chunks(&deleted(0x32)).is_empty());
    lens
}

#[test]
fn data_is_cut_into_chunks() {
    assert_eq!(chunk_lens(&mut sender(&[2500]), 4), vec![1024, 1024, 452, 0]);
    assert_eq!(chunk_lens(&mut sender(&[1024]), 2), vec![1024, 0]);
    assert_eq!(chunk_lens(&mut sender(&[1]), 2), vec![1, 0]);
    assert_eq!(chunk_lens(&mut sender(&[0]), 1), vec![0]);
}

#[test]
fn only_a_deletion_of_the_property_moves_a_sender() {
    let mut state = sender(&[10]);
    assert!(state.incr_send_chunks(&arrived(0x32)).is_empty());
    state.check_incr_send_data(&arrived(0x32), &Vec::new());
    assert!(state.incr_send_chunks(&deleted(0x33)).is_empty());
    state.check_incr_send_data(&deleted(0x33), &Vec::new());
    assert_eq!(bytes_of(&state.incr_send_chunks(&deleted(0x32))[0]).len(), 10);
}

#[test]
fn a_write_without_a_result_counts_as_failed() {
    let mut state = sender(&[5, 2000, 3000]);
    state.check_incr_send_data(&deleted(0x32), &vec![true, true]);
    let changes = state.incr_send_chunks(&deleted(0x32));
    let lens: Vec<usize> = changes.iter().map(|change| bytes_of(change).len()).collect();
    assert_eq!(lens, vec![0, 976]);
    state.check_incr_send_data(&deleted(0x32), &Vec::new());
    assert!(state.incr_send_chunks(&deleted(0x32)).is_empty());
    let mut state = sender(&[5]);
    state.check_incr_send_data(&deleted(0x32), &vec![true, false, false]);
    assert_eq!(state.incr_send_chunks(&deleted(0x32)).len(), 1);
}

#[test]
fn a_failed_write_ends_its_transfer_alone() {
    let mut state = sender(&[5, 2000, 0]);
    let changes = state.incr_send_chunks(&deleted(0x32));
    let lens: Vec<usize> = changes.iter().map(|change| bytes_of(change).len()).collect();
    assert_eq!(lens, vec![5, 1024, 0]);
    state.check_incr_send_data(&deleted(0x32), &vec![false, true, true]);
    let changes = state.incr_send_chunks(&deleted(0x32));
    assert_eq!(changes.len(), 1);
    assert_eq!(bytes_of(&changes[0]).len(), 976);
    assert_eq!(bytes_of(&changes[0])[0], (1024 % 251) as u8);
}

fn notify(selection: u32, property: u64) -> XSelectionEvent {
    XSelectionEvent {
        requestor: 0x51,
        selection: selection as u64,
        target: atoms().string as u64,
        property,
    }
}

#[test]
fn chunks_are_put_together() {
    let (mut state, _) = start();
    let a = atoms();
    let serial = AsyncRequestSerial::get();
    state.get_clipboard_mut(CLIPBOARD).add_to_fetch(serial, type_of(a.text_html));
    assert_eq!(state.incr_receive_chunk(&arrived(0x60)), None);
    state.start_incr_receiver(&notify(a.clipboard, 0x60));
    assert_eq!(
        state.incr_receive_chunk(&arrived(0x60)),
        Some(PropertyTake { window: 0x51, property: 0x60 })
    );
    assert_eq!(state.incr_receive_chunk(&deleted(0x60)), None);
    assert_eq!(state.incr_receive_chunk(&arrived(0x61)), None);

    assert!(state.check_incr_receive_data(&deleted(0x60), Some(vec![9])).is_none());
    assert!(state.check_incr_receive_data(&arrived(0x61), Some(vec![9])).is_none());
    assert!(state.check_incr_receive_data(&arrived(0x60), Some(vec![1, 2])).is_none());
    assert!(state.check_incr_receive_data(&arrived(0x60), Some(vec![3])).is_none());
    let delivery = state.check_incr_receive_data(&arrived(0x60), Some(Vec::new())).unwrap();
    assert_eq!(delivery.next, None);
    assert_eq!(delivery.finished.window().raw, 0x51);
    let event = delivery.finished.to_event();
    assert_eq!(event.serial, serial);
    assert_eq!(event.value.try_read(), Some(vec![1, 2, 3]));
    assert_eq!(event.value.type_().atom(), a.text_html);
    assert_eq!(state.incr_receive_chunk(&arrived(0x60)), None);
}

#[test]
fn chunks_of_any_size_are_put_together() {
    let (mut state, _) = start();
    let a = atoms();
    let serial = AsyncRequestSerial::get();
    state.get_clipboard_mut(CLIPBOARD).add_to_fetch(serial, type_of(a.image_png));
    state.start_incr_receiver(&notify(a.clipboard, 0x60));
    let mut all = Vec::new();
    for (i, len) in [1, 5000, 3, 1024, 70_000].into_iter().enumerate() {
        let chunk = vec![i as u8; len];
        all.extend_from_slice(&chunk);
        assert!(state.check_incr_receive_data(&arrived(0x60), Some(chunk)).is_none());
    }
    let delivery = state.check_incr_receive_data(&arrived(0x60), Some(Vec::new())).unwrap();
    assert_eq!(delivery.finished.to_event().value.try_read(), Some(all));
    assert_eq!(state.incr_receive_chunk(&arrived(0x60)), None);
}

#[test]
fn a_chunk_that_cannot_be_taken_ends_the_transfer() {
    let (mut state, _) = start();
    let a = atoms();
    let serial = AsyncRequestSerial::get();
    state.get_clipboard_mut(CLIPBOARD).add_to_fetch(serial, type_of(a.string));
    state.start_incr_receiver(&notify(a.clipboard, 0x60));
    assert!(state.check_incr_receive_data(&arrived(0x60), None).is_none());
    assert_eq!(state.incr_receive_chunk(&arrived(0x60)), None);
    assert!(state.send_clipboard_data(1, CLIPBOARD, Vec::new()).is_some());
}

#[test]
fn an_unknown_selection_is_not_received() {
    let (mut state, _) = start();
    state.start_incr_receiver(&notify(99, 0x60));
    assert_eq!(state.incr_receive_chunk(&arrived(0x60)), None);
}

#[test]
fn the_first_receiver_on_a_property_takes_the_chunk() {
    let (mut state, _) = start();
    let a = atoms();
    let serial = AsyncRequestSerial::get();
    state.get_clipboard_mut(ClipboardSelectionType::Primary).add_to_fetch(serial, type_of(7));
    state.start_incr_receiver(&notify(a.clipboard, 0x61));
    state.start_incr_receiver(&notify(1, 0x60));
    state.start_incr_receiver(&notify(a.clipboard, 0x60));
    assert!(state.check_incr_receive_data(&arrived(0x60), Some(vec![4])).is_none());
    let delivery = state.check_incr_receive_data(&arrived(0x60), Some(Vec::new())).unwrap();
    assert_eq!(delivery.finished.to_event().value.try_read(), Some(vec![4]));
    assert!(state.incr_receive_chunk(&arrived(0x60)).is_some());
    assert!(state.check_incr_receive_data(&arrived(0x60), Some(Vec::new())).is_none());
    assert!(state.incr_receive_chunk(&arrived(0x60)).is_none());
    assert!(state.incr_receive_chunk(&arrived(0x61)).is_some());
}

#[test]
fn what_is_copied_is_pasted() {
    let a = atoms();
    let (mut owner, mut ids) = start();
    let (mut paster, _) = start();
    let uris: Vec<String> = (0..200).map(|i| format!("file:///tmp/{i}")).collect();

    owner.set_clipboard(&mut ids, 6, "uris", CLIPBOARD);
    let serial = AsyncRequestSerial::get();
    let wanted = type_of(a.text_uri_list);
    assert!(paster.get_clipboard_mut(CLIPBOARD).add_to_fetch(serial, wanted));

    let xev = request(a.clipboard, a.text_uri_list);
    let AttachStep::FetchData { ty, .. } = owner.attach_clipboard_property(&xev) else {
        panic!("the data should be fetched");
    };
    let step = owner.attach_data(&xev, ty, Some(SendData::Uris(uris.clone())));
    let AttachStep::Listen { data, ty, .. } = step else {
        panic!("the data should be sent");
    };
    let len = data.len();
    assert!(len > 2048);
    assert_eq!(owner.attach_sender(&xev, data, ty, Ok(())).resolved(), Some(true));
    paster.start_incr_receiver(&notify(a.clipboard, 0x32));

    let mut turns = 0;
    let delivery = loop {
        turns += 1;
        let chunk = bytes_of(&owner.incr_send_chunks(&deleted(0x32))[0]);
        owner.check_incr_send_data(&deleted(0x32), &vec![true]);
        assert!(paster.incr_receive_chunk(&arrived(0x32)).is_some());
        if let Some(delivery) = paster.check_incr_receive_data(&arrived(0x32), Some(chunk)) {
            break delivery;
        }
    };
    assert_eq!(turns, len.div_ceil(1024) + 1);
    assert!(owner.incr_send_chunks(&deleted(0x32)).is_empty());
    assert_eq!(delivery.finished.to_event().value.try_as_uris().unwrap(), uris);
}
