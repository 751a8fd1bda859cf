//! The X11 events and requests of a transfer, and the numbers that the protocol fixes.

use vstd::prelude::*;
use x11rb::protocol::xfixes::SelectionEventMask;
use x11rb::protocol::xproto::{AtomEnum, EventMask, PropMode, Property};

verus! {

/// An atom, as the X server numbers them.
pub type Atom = u32;

/// The X server's number for a window.
pub type Window = u32;

/// The window identifier that the application sees.
#[derive(Debug, Clone, Copy, PartialEq, Eq, Hash)]
pub struct WindowId {
    pub raw: usize,
}

/// The application's identifier of the X window `window`.
pub open spec fn window_id(window: Window) -> WindowId {
    WindowId { raw: window as usize }
}

/// Turns an X window into the application's identifier of it.
pub fn mkwid(window: Window) -> (id: WindowId)
    ensures
        id == window_id(window),
        id.raw == window,
{
    WindowId { raw: window as usize }
}

/// Another client asks for the contents of a selection that this one owns.
///
/// The numbers are as wide as Xlib hands them over; only their low 32 bits carry meaning.
#[derive(Debug, Clone, Copy, PartialEq, Eq)]
pub struct XSelectionRequestEvent {
    pub requestor: u64,
    pub selection: u64,
    pub target: u64,
    pub property: u64,
}

/// The owner of a selection answers a conversion that this client asked for.
#[derive(Debug, Clone, Copy, PartialEq, Eq)]
pub struct XSelectionEvent {
    pub requestor: u64,
    pub selection: u64,
    pub target: u64,
    pub property: u64,
}

/// A property of a window got a new value or was deleted.
#[derive(Debug, Clone, Copy, PartialEq, Eq)]
pub struct XPropertyEvent {
    pub window: u64,
    pub atom: u64,
    pub state: i32,
}

/// The atoms that have the same number on every X server.
#[derive(Debug, Clone, Copy, PartialEq, Eq)]
pub enum PredefinedAtom {
    /// The primary selection.
    Primary,
    /// The secondary selection.
    Secondary,
    /// The property type "list of atoms".
    Atom,
    /// The property type "integer".
    Integer,
}

impl PredefinedAtom {
    /// The number that the core protocol assigns to the atom.
    pub open spec fn number(self) -> Atom {
        match self {
            PredefinedAtom::Primary => 1,
            PredefinedAtom::Secondary => 2,
            PredefinedAtom::Atom => 4,
            PredefinedAtom::Integer => 19,
        }
    }
}

/// Calls `From<AtomEnum> for u32` of `x11rb` on `AtomEnum::PRIMARY`, `SECONDARY`, `ATOM` or
/// `INTEGER`.
///
/// Assumed of it: the results are the numbers that the core protocol assigns to these atoms.
#[verifier::external_body]
pub(crate) fn predefined_atom(atom: PredefinedAtom) -> (number: Atom)
    ensures
        number == atom.number(),
{
    match atom {
        PredefinedAtom::Primary => AtomEnum::PRIMARY.into(),
        PredefinedAtom::Secondary => AtomEnum::SECONDARY.into(),
        PredefinedAtom::Atom => AtomEnum::ATOM.into(),
        PredefinedAtom::Integer => AtomEnum::INTEGER.into(),
    }
}

/// What can happen to a property.
#[derive(Debug, Clone, Copy, PartialEq, Eq)]
pub enum PropertyState {
    NewValue,
    Deleted,
}

impl PropertyState {
    /// The number by which a property event reports the change.
    pub open spec fn number(self) -> u32 {
        match self {
            PropertyState::NewValue => 0,
            PropertyState::Deleted => 1,
        }
    }
}

/// Calls `From<Property> for u32` of `x11rb` on `Property::NEW_VALUE` or `Property::DELETE`.
///
/// Assumed of it: it gives 0 for a new value and 1 for a deletion.
#[verifier::external_body]
fn property_state(state: PropertyState) -> (number: u32)
    ensures
        number == state.number(),
{
    match state {
        PropertyState::NewValue => Property::NEW_VALUE.into(),
        PropertyState::Deleted => Property::DELETE.into(),
    }
}

/// Calls `From<PropMode> for u8` of `x11rb` on `PropMode::REPLACE`.
///
/// Assumed of it: the number of the mode is 0.
#[verifier::external_body]
fn replace_mode() -> (mode: u8)
    ensures
        mode == REPLACE_MODE,
{
    PropMode::REPLACE.into()
}

/// Calls `BitOr<EventMask> for u32` of `x11rb` on `mask` and `EventMask::PROPERTY_CHANGE`.
///
/// Assumed of it: the result is `mask` with bit 22 set and every other bit as it was.
#[verifier::external_body]
fn or_property_change(mask: u32) -> (both: u32)
    ensures
        both == mask | PROPERTY_CHANGE_BIT,
{
    (mask | EventMask::PROPERTY_CHANGE).into()
}

/// Reads the constant `x11rb::CURRENT_TIME`.
///
/// Assumed of it: its value is 0.
#[verifier::external_body]
pub(crate) fn current_time() -> (time: u32)
    ensures
        time == CURRENT_TIME,
{
    x11rb::CURRENT_TIME
}

/// Calls `From<SelectionEventMask> for u32` of `x11rb` on
/// `SelectionEventMask::SET_SELECTION_OWNER`.
///
/// Assumed of it: the mask is the lowest bit.
#[verifier::external_body]
pub(crate) fn selection_owner_mask() -> (mask: u32)
    ensures
        mask == SELECTION_OWNER_BIT,
{
    SelectionEventMask::SET_SELECTION_OWNER.into()
}

/// The mode of a property change that replaces what the property held.
pub const REPLACE_MODE: u8 = 0;

/// The bit of an event mask by which a client listens for property changes.
pub const PROPERTY_CHANGE_BIT: u32 = 0x40_0000;

/// The timestamp that stands for "now".
pub const CURRENT_TIME: u32 = 0;

/// The bit of an XFIXES selection mask that asks for changes of the selection's owner.
pub const SELECTION_OWNER_BIT: u32 = 1;

impl XPropertyEvent {
    /// Whether the event reports the given change.
    pub open spec fn reports(self, state: PropertyState) -> bool {
        self.state as u32 == state.number()
    }

    /// Whether the event reports a new value.
    pub fn is_new_value(&self) -> (new_value: bool)
        ensures
            new_value == self.reports(PropertyState::NewValue),
    {
        self.state as u32 == property_state(PropertyState::NewValue)
    }

    /// Whether the event reports that the property is gone.
    pub fn is_delete(&self) -> (deleted: bool)
        ensures
            deleted == self.reports(PropertyState::Deleted),
    {
        self.state as u32 == property_state(PropertyState::Deleted)
    }
}

/// What is written into a property: bytes, or 32-bit values.
#[derive(Debug)]
pub enum PropertyValue {
    Bytes(Vec<u8>),
    Longs(Vec<u32>),
}

/// The contents of a [`PropertyValue`].
pub enum ValueView {
    Bytes(Seq<u8>),
    Longs(Seq<u32>),
}

impl View for PropertyValue {
    type V = ValueView;

    open spec fn view(&self) -> ValueView {
        match self {
            PropertyValue::Bytes(bytes) => ValueView::Bytes(bytes@),
            PropertyValue::Longs(longs) => ValueView::Longs(longs@),
        }
    }
}

/// A request to change a property of a window.
#[derive(Debug)]
pub struct PropertyChange {
    pub window: Window,
    pub property: Atom,
    pub type_: Atom,
    pub mode: u8,
    pub value: PropertyValue,
}

/// The contents of a [`PropertyChange`].
pub struct ChangeView {
    pub window: Window,
    pub property: Atom,
    pub type_: Atom,
    pub mode: u8,
    pub value: ValueView,
}

impl View for PropertyChange {
    type V = ChangeView;

    open spec fn view(&self) -> ChangeView {
        ChangeView {
            window: self.window,
            property: self.property,
            type_: self.type_,
            mode: self.mode,
            value: self.value@,
        }
    }
}

/// The request that replaces a property's value.
pub open spec fn replacing(
    window: Window,
    property: Atom,
    type_: Atom,
    value: ValueView,
) -> ChangeView {
    ChangeView { window, property, type_, mode: REPLACE_MODE, value }
}

impl PropertyChange {
    /// The request that replaces a property's value.
    pub fn replace(window: Window, property: Atom, type_: Atom, value: PropertyValue) -> (change:
        PropertyChange)
        ensures
            change@ == replacing(window, property, type_, value@),
    {
        PropertyChange { window, property, type_, mode: replace_mode(), value }
    }
}

/// A request to read a property of a window.
#[derive(Debug, Clone, Copy, PartialEq, Eq)]
pub struct PropertyRead {
    pub window: Window,
    pub property: Atom,
    pub type_: Atom,
}

/// A request to take the value out of a property, whatever its type: the value is read, and the
/// property is deleted.
#[derive(Debug, Clone, Copy, PartialEq, Eq)]
pub struct PropertyTake {
    pub window: Window,
    pub property: Atom,
}

/// A request to convert a selection to a target type and store it in a property.
#[derive(Debug, Clone, Copy, PartialEq, Eq)]
pub struct ConvertSelection {
    pub requestor: Window,
    pub selection: Atom,
    pub target: Atom,
    pub property: Atom,
    pub time: u32,
}

/// A request to become the owner of a selection.
#[derive(Debug, Clone, Copy, PartialEq, Eq)]
pub struct SetSelectionOwner {
    pub owner: Window,
    pub selection: Atom,
    pub time: u32,
}

/// A request to be told when a selection changes hands.
#[derive(Debug, Clone, Copy, PartialEq, Eq)]
pub struct SelectionWatch {
    pub window: Window,
    pub selection: Atom,
    pub mask: u32,
}

/// A message from this client to another one.
#[derive(Debug, Clone, Copy, PartialEq, Eq)]
pub struct ClientMessage {
    pub window: Window,
    pub target_window: Window,
    pub message_type: Atom,
    pub data: [u32; 5],
}

/// A request to set the events that this client wants from a window.
#[derive(Debug, Clone, Copy, PartialEq, Eq)]
pub struct ListenRequest {
    pub window: Window,
    pub event_mask: u32,
}

impl ListenRequest {
    /// Adds property changes to the events in `current_mask`, so that no event that was asked
    /// for before gets lost.
    pub fn property_changes(window: Window, current_mask: u32) -> (request: ListenRequest)
        ensures
            request == (ListenRequest {
                window,
                event_mask: current_mask | PROPERTY_CHANGE_BIT,
            }),
    {
        ListenRequest { window, event_mask: or_property_change(current_mask) }
    }
}

/// Listening for property changes keeps every event that was asked for before, and adds just the
/// one.
pub proof fn listening_keeps_other_events(current_mask: u32, bit: u32)
    requires
        bit < 32,
    ensures
        (current_mask | PROPERTY_CHANGE_BIT) & PROPERTY_CHANGE_BIT == PROPERTY_CHANGE_BIT,
        bit != 22 ==> (current_mask | PROPERTY_CHANGE_BIT) & (1u32 << bit) == current_mask & (1u32
            << bit),
{
    assert((current_mask | 0x40_0000u32) & 0x40_0000u32 == 0x40_0000u32) by (bit_vector);
    assert(bit < 32 && bit != 22 ==> (current_mask | 0x40_0000u32) & (1u32 << bit) == current_mask
        & (1u32 << bit)) by (bit_vector);
}

/// The numbers that the protocol fixes are the same on every X server.
pub proof fn numbers_are_those_of_the_protocol(window: Window)
    ensures
        PredefinedAtom::Primary.number() == 1,
        PredefinedAtom::Secondary.number() == 2,
        PredefinedAtom::Atom.number() == 4,
        PredefinedAtom::Integer.number() == 19,
        PropertyState::NewValue.number() == 0,
        PropertyState::Deleted.number() == 1,
        REPLACE_MODE == 0,
        PROPERTY_CHANGE_BIT == 0x40_0000,
        CURRENT_TIME == 0,
        SELECTION_OWNER_BIT == 1,
        window_id(window).raw == window,
{
}

/// A property event reports a new value or a deletion, never both, and it says which by its state
/// alone.
pub proof fn events_report_what_their_state_says(xev: XPropertyEvent)
    ensures
        xev.reports(PropertyState::NewValue) <==> xev.state == 0,
        xev.reports(PropertyState::Deleted) <==> xev.state == 1,
{
    let state = xev.state;
    assert(state as u32 == 0u32 <==> state == 0i32) by (bit_vector);
    assert(state as u32 == 1u32 <==> state == 1i32) by (bit_vector);
}

/// A request to change a property says where, what type and what value, and that the value
/// replaces what was there.
pub proof fn changes_say_what_they_write(change: PropertyChange)
    ensures
        change@.window == change.window,
        change@.property == change.property,
        change@.type_ == change.type_,
        change@.mode == change.mode,
        match change.value {
            PropertyValue::Bytes(bytes) => change@.value == ValueView::Bytes(bytes@),
            PropertyValue::Longs(longs) => change@.value == ValueView::Longs(longs@),
        },
{
}

/// Replacing a value keeps the place, the type and the value as they were given.
pub proof fn replacing_keeps_what_is_given(
    window: Window,
    property: Atom,
    type_: Atom,
    value: ValueView,
)
    ensures
        replacing(window, property, type_, value).window == window,
        replacing(window, property, type_, value).property == property,
        replacing(window, property, type_, value).type_ == type_,
        replacing(window, property, type_, value).mode == 0,
        replacing(window, property, type_, value).value == value,
{
}

} // verus!
