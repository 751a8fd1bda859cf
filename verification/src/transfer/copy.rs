//! Copying: other clients ask for the contents of this client's clipboards.
//!
//! A request is answered in steps. [`DataTransferState::attach_clipboard_property`] takes the
//! first one; where a step needs something from the application or from the X server, the next
//! step takes what came back. The request is answered in the end by writing a property, or it is
//! refused.

use vstd::prelude::*;
use x11rb::errors::ReplyError;
use crate::atoms::Atoms;
use crate::data::{SendData, SendView};
use crate::error::X11Error;
use crate::incr::{incr_views, IncrState, IncrView};
use crate::protocol::{current_time, predefined_atom, replacing, Atom, ChangeView, PredefinedAtom};
use crate::protocol::{PropertyChange, PropertyValue, ValueView, Window, XSelectionRequestEvent};
use crate::protocol::CURRENT_TIME;
use crate::selection::{type_views, ClipboardSelectionType, OfferView, SelectionType};
use crate::selection::{SelectionTypeView, TransferType};
use crate::transfer::{DataTransferState, TransferView};

verus! {

/// Why a request is refused.
#[derive(Debug, Clone, Copy, PartialEq, Eq)]
pub enum Refusal {
    /// The selection is none of the clipboards.
    UnknownClipboard,
    /// This client does not own the clipboard.
    NoData,
    /// The application supplies nothing for the type that was asked for.
    UnknownTarget,
    /// The application supplies something that cannot be sent.
    UnknownData,
    /// The transfer could not be started.
    NotStarted,
}

/// What has to be done next about a request.
#[derive(Debug)]
pub enum AttachStep {
    /// Nothing: the request is refused.
    Refused(Refusal),
    /// Let the application list the types in which it supplies the clipboard's contents.
    ListTypes(ClipboardSelectionType),
    /// Let the application supply the clipboard's contents in the given type.
    FetchData { clipboard: ClipboardSelectionType, ty: SelectionType },
    /// Listen for changes of the properties of the requesting window, to send it the data.
    Listen { requestor: Window, data: Vec<u8>, ty: SelectionType },
    /// Write a property; with that the request is answered.
    Write(PropertyChange),
}

/// What an [`AttachStep`] says.
pub enum StepView {
    Refused(Refusal),
    ListTypes(ClipboardSelectionType),
    FetchData(ClipboardSelectionType, SelectionTypeView),
    Listen(Window, Seq<u8>, SelectionTypeView),
    Write(ChangeView),
}

impl View for AttachStep {
    type V = StepView;

    open spec fn view(&self) -> StepView {
        match self {
            AttachStep::Refused(refusal) => StepView::Refused(*refusal),
            AttachStep::ListTypes(clipboard) => StepView::ListTypes(*clipboard),
            AttachStep::FetchData { clipboard, ty } => StepView::FetchData(*clipboard, ty@),
            AttachStep::Listen { requestor, data, ty } => {
                StepView::Listen(*requestor, data@, ty@)
            },
            AttachStep::Write(change) => StepView::Write(change@),
        }
    }
}

impl StepView {
    /// Whether the request was resolved, once that is settled.
    pub open spec fn resolved(self) -> Option<bool> {
        match self {
            StepView::Refused(_) => Some(false),
            StepView::Write(_) => Some(true),
            _ => None,
        }
    }
}

impl AttachStep {
    /// Whether the request was resolved, once that is settled.
    pub fn resolved(&self) -> (resolved: Option<bool>)
        ensures
            resolved == self@.resolved(),
    {
        match self {
            AttachStep::Refused(_) => Some(false),
            AttachStep::Write(_) => Some(true),
            _ => None,
        }
    }
}

impl XSelectionRequestEvent {
    /// The window that the property belongs to.
    pub open spec fn window(self) -> Window {
        self.requestor as Window
    }

    /// The property into which the answer goes.
    pub open spec fn answer_property(self) -> Atom {
        self.property as Atom
    }

    /// The type that is asked for.
    pub open spec fn target_type(self) -> Atom {
        self.target as Atom
    }

    /// The clipboard whose contents are asked for.
    pub open spec fn clipboard(self, atoms: Atoms) -> Option<ClipboardSelectionType> {
        ClipboardSelectionType::of_atom(atoms, self.selection as Atom)
    }
}

/// The atoms under which a clipboard with the given offers is advertised. The two types that
/// every clipboard can be asked for come first.
pub open spec fn advertised_atoms(atoms: Atoms, offers: Seq<OfferView>) -> Seq<Atom>
    decreases offers.len(),
{
    if offers.len() == 0 {
        seq![atoms.timestamp, atoms.targets]
    } else {
        advertised_atoms(atoms, offers.drop_last()) + SelectionTypeView::advertised(
            atoms,
            offers.last(),
        ).map_values(|type_: SelectionTypeView| type_.atom)
    }
}

/// What each of a sequence of offers says.
pub open spec fn offer_views(offers: Seq<TransferType>) -> Seq<OfferView> {
    offers.map_values(|offer: TransferType| offer@)
}

/// The answer to the question in which types a clipboard can be had.
pub open spec fn targets_answer(
    atoms: Atoms,
    xev: XSelectionRequestEvent,
    offers: Seq<OfferView>,
) -> ChangeView {
    replacing(
        xev.window(),
        xev.answer_property(),
        PredefinedAtom::Atom.number(),
        ValueView::Longs(advertised_atoms(atoms, offers)),
    )
}

/// The answer to the question since when this client owns a clipboard.
pub open spec fn timestamp_answer(xev: XSelectionRequestEvent) -> ChangeView {
    replacing(
        xev.window(),
        xev.answer_property(),
        PredefinedAtom::Integer.number(),
        ValueView::Longs(seq![CURRENT_TIME]),
    )
}

/// The empty property that announces a transfer in chunks.
pub open spec fn incr_answer(atoms: Atoms, xev: XSelectionRequestEvent) -> ChangeView {
    replacing(xev.window(), xev.answer_property(), atoms.incr, ValueView::Longs(seq![]))
}

/// What is done with what the application supplies.
pub open spec fn supplied_step(
    xev: XSelectionRequestEvent,
    ty: SelectionTypeView,
    send_data: Option<SendView>,
) -> StepView {
    match send_data {
        None => StepView::Refused(Refusal::UnknownTarget),
        Some(send_data) => match send_data.wire_bytes() {
            None => StepView::Refused(Refusal::UnknownData),
            Some(bytes) => StepView::Listen(xev.window(), bytes, ty),
        },
    }
}

/// What an optional [`SendData`] says.
pub open spec fn send_view(send_data: Option<SendData>) -> Option<SendView> {
    match send_data {
        Some(send_data) => Some(send_data@),
        None => None,
    }
}

impl<D> TransferView<D> {
    /// The first step of answering a request.
    pub open spec fn attach_step(self, xev: XSelectionRequestEvent) -> StepView {
        match xev.clipboard(self.atoms) {
            None => StepView::Refused(Refusal::UnknownClipboard),
            Some(clipboard) => {
                if self.clipboard(clipboard).owned_data is None {
                    StepView::Refused(Refusal::NoData)
                } else if xev.target_type() == self.atoms.targets {
                    StepView::ListTypes(clipboard)
                } else if xev.target_type() == self.atoms.timestamp {
                    StepView::Write(timestamp_answer(xev))
                } else {
                    StepView::FetchData(
                        clipboard,
                        SelectionTypeView::of_atom(self.atoms, xev.target_type()),
                    )
                }
            },
        }
    }

    /// What is done once it is settled whether changes of the requesting window's properties will
    /// be seen.
    pub open spec fn sender_step(self, xev: XSelectionRequestEvent, listening: bool) -> StepView {
        if xev.clipboard(self.atoms) is Some && listening {
            StepView::Write(incr_answer(self.atoms, xev))
        } else {
            StepView::Refused(Refusal::NotStarted)
        }
    }

    /// The state once a transfer in chunks was started. It is not started for a selection that
    /// is no clipboard, nor where changes of the property would go unseen.
    pub open spec fn with_sender(
        self,
        xev: XSelectionRequestEvent,
        data: Seq<u8>,
        ty: SelectionTypeView,
        listening: bool,
    ) -> TransferView<D> {
        match xev.clipboard(self.atoms) {
            Some(clipboard) if listening => TransferView {
                clip_incr_send: self.clip_incr_send.push(
                    IncrView { data, property: xev.answer_property(), ty, clipboard },
                ),
                ..self
            },
            _ => self,
        }
    }
}

/// What [`DataTransferState::start_incr_sender`] says of a selection that is no clipboard.
pub const NO_CLIPBOARD: &'static str = "getting clipboard selection";

impl<D> DataTransferState<D> {
    /// Starts to answer a request for the contents of a clipboard.
    pub fn attach_clipboard_property(&self, xev: &XSelectionRequestEvent) -> (step: AttachStep)
        ensures
            step@ == self@.attach_step(*xev),
    {
        let target = xev.target as Atom;
        let clipboard = match ClipboardSelectionType::from_atom(&self.atoms, xev.selection as Atom) {
            Some(clipboard) => clipboard,
            None => return AttachStep::Refused(Refusal::UnknownClipboard),
        };
        if self.get_clipboard(clipboard).owned_data().is_none() {
            return AttachStep::Refused(Refusal::NoData);
        }
        if target == self.atoms.targets {
            AttachStep::ListTypes(clipboard)
        } else if target == self.atoms.timestamp {
            let now = vec![current_time()];
            assert(now@ =~= seq![CURRENT_TIME]);
            let change = PropertyChange::replace(
                xev.requestor as Window,
                xev.property as Atom,
                predefined_atom(PredefinedAtom::Integer),
                PropertyValue::Longs(now),
            );
            AttachStep::Write(change)
        } else {
            AttachStep::FetchData { clipboard, ty: SelectionType::new(&self.atoms, target) }
        }
    }

    /// Answers a request for the types in which a clipboard can be had, once the application
    /// has listed them.
    pub fn attach_targets(&self, xev: &XSelectionRequestEvent, offers: &Vec<TransferType>) -> (step:
        AttachStep)
        ensures
            step@ == StepView::Write(targets_answer(self@.atoms, *xev, offer_views(offers@))),
    {
        let ghost views = offer_views(offers@);
        let mut accepted: Vec<Atom> = vec![self.atoms.timestamp, self.atoms.targets];
        let mut i: usize = 0;
        assert(accepted@ =~= advertised_atoms(self.atoms, views.take(0)));
        while i < offers.len()
            invariant
                i <= offers@.len(),
                views == offer_views(offers@),
                accepted@ == advertised_atoms(self.atoms, views.take(i as int)),
            decreases offers@.len() - i,
        {
            let ghost before = accepted@;
            let types = SelectionType::from_dyn(&self.atoms, &offers[i]);
            let ghost atoms_of = type_views(types@).map_values(
                |type_: SelectionTypeView| type_.atom,
            );
            let mut k: usize = 0;
            assert(accepted@ =~= before + atoms_of.take(0));
            while k < types.len()
                invariant
                    k <= types@.len(),
                    atoms_of == type_views(types@).map_values(
                        |type_: SelectionTypeView| type_.atom,
                    ),
                    accepted@ == before + atoms_of.take(k as int),
                decreases types@.len() - k,
            {
                accepted.push(types[k].atom());
                k += 1;
                assert(accepted@ =~= before + atoms_of.take(k as int));
            }
            proof {
                assert(atoms_of.take(types@.len() as int) =~= atoms_of);
                let longer = views.take(i + 1);
                assert(longer.drop_last() =~= views.take(i as int));
                assert(longer.last() == offers@[i as int]@);
            }
            i += 1;
        }
        assert(views.take(offers@.len() as int) =~= views);
        let change = PropertyChange::replace(
            xev.requestor as Window,
            xev.property as Atom,
            predefined_atom(PredefinedAtom::Atom),
            PropertyValue::Longs(accepted),
        );
        AttachStep::Write(change)
    }

    /// Goes on to answer a request for the contents of a clipboard in the type `ty`, once the
    /// application has supplied them, or supplied nothing.
    pub fn attach_data(
        &self,
        xev: &XSelectionRequestEvent,
        ty: SelectionType,
        send_data: Option<SendData>,
    ) -> (step: AttachStep)
        ensures
            step@ == supplied_step(*xev, ty@, send_view(send_data)),
    {
        match send_data {
            None => AttachStep::Refused(Refusal::UnknownTarget),
            Some(send_data) => match send_data.into_wire_bytes() {
                None => AttachStep::Refused(Refusal::UnknownData),
                Some(data) => AttachStep::Listen { requestor: xev.requestor as Window, data, ty },
            },
        }
    }

    /// Starts to send `data` in chunks, where changes of the requesting window's properties will
    /// be seen. `listening` says whether they will be, or what came back when that was asked for;
    /// that error is handed on.
    pub fn start_incr_sender(
        &mut self,
        xev: &XSelectionRequestEvent,
        data: Vec<u8>,
        ty: SelectionType,
        listening: Result<(), ReplyError>,
    ) -> (announced: Result<PropertyChange, X11Error>)
        ensures
            final(self)@ == old(self)@.with_sender(*xev, data@, ty@, listening is Ok),
            match announced {
                Ok(change) => {
                    &&& xev.clipboard(old(self)@.atoms) is Some
                    &&& listening is Ok
                    &&& change@ == incr_answer(old(self)@.atoms, *xev)
                },
                Err(X11Error::UnexpectedNull(what)) => {
                    &&& xev.clipboard(old(self)@.atoms) is None
                    &&& what == NO_CLIPBOARD
                },
                Err(X11Error::Reply(error)) => {
                    &&& xev.clipboard(old(self)@.atoms) is Some
                    &&& listening == Err::<(), ReplyError>(error)
                },
            },
    {
        let property = xev.property as Atom;
        let clipboard = match ClipboardSelectionType::from_atom(&self.atoms, xev.selection as Atom) {
            Some(clipboard) => clipboard,
            None => return Err(X11Error::UnexpectedNull(NO_CLIPBOARD)),
        };
        if let Err(error) = listening {
            return Err(X11Error::Reply(error));
        }
        let ghost before = self.clip_incr_send@;
        let transfer = IncrState::new(data, property, ty, clipboard);
        self.clip_incr_send.push(transfer);
        assert(incr_views(self.clip_incr_send@) =~= incr_views(before).push(transfer@));
        let nothing: Vec<u32> = Vec::new();
        assert(nothing@ =~= seq![]);
        let change = PropertyChange::replace(
            xev.requestor as Window,
            property,
            self.atoms.incr,
            PropertyValue::Longs(nothing),
        );
        Ok(change)
    }

    /// Answers a request for the contents of a clipboard by announcing a transfer in chunks.
    /// `listening` says whether changes of the requesting window's properties will be seen, or what
    /// came back when that was asked for.
    pub fn attach_sender(
        &mut self,
        xev: &XSelectionRequestEvent,
        data: Vec<u8>,
        ty: SelectionType,
        listening: Result<(), ReplyError>,
    ) -> (step: AttachStep)
        ensures
            final(self)@ == old(self)@.with_sender(*xev, data@, ty@, listening is Ok),
            step@ == old(self)@.sender_step(*xev, listening is Ok),
    {
        match self.start_incr_sender(xev, data, ty, listening) {
            Ok(change) => AttachStep::Write(change),
            Err(_) => AttachStep::Refused(Refusal::NotStarted),
        }
    }
}

} // verus!
