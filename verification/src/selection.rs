//! Selections, and the types to which their owners convert them.

use vstd::prelude::*;
use vstd::std_specs::iter::IteratorSpec;
use crate::atoms::Atoms;
use crate::hint::{HintView, TypeHint};
use crate::protocol::{predefined_atom, Atom, PredefinedAtom};

verus! {

/// The selections that serve as a clipboard.
#[derive(Debug, Clone, Copy, PartialEq, Eq)]
pub enum ClipboardSelectionType {
    /// Primary selection, often used for the currently selected text.
    Primary,
    /// Secondary selection, rarely used.
    Secondary,
    /// Clipboard, used for copying and pasting.
    Clipboard,
}

impl ClipboardSelectionType {
    /// The atom that names the selection.
    pub open spec fn named_by(self, atoms: Atoms) -> Atom {
        match self {
            ClipboardSelectionType::Primary => PredefinedAtom::Primary.number(),
            ClipboardSelectionType::Secondary => PredefinedAtom::Secondary.number(),
            ClipboardSelectionType::Clipboard => atoms.clipboard,
        }
    }

    /// The first selection, in the order of [`ClipboardSelectionType::iter`], that `atom` names.
    pub open spec fn of_atom(atoms: Atoms, atom: Atom) -> Option<ClipboardSelectionType> {
        if ClipboardSelectionType::Primary.named_by(atoms) == atom {
            Some(ClipboardSelectionType::Primary)
        } else if ClipboardSelectionType::Secondary.named_by(atoms) == atom {
            Some(ClipboardSelectionType::Secondary)
        } else if ClipboardSelectionType::Clipboard.named_by(atoms) == atom {
            Some(ClipboardSelectionType::Clipboard)
        } else {
            None
        }
    }

    /// The atom that names the selection.
    #[must_use]
    pub fn to_atom(self, atoms: &Atoms) -> (atom: Atom)
        ensures
            atom == self.named_by(*atoms),
    {
        match self {
            ClipboardSelectionType::Primary => predefined_atom(PredefinedAtom::Primary),
            ClipboardSelectionType::Secondary => predefined_atom(PredefinedAtom::Secondary),
            ClipboardSelectionType::Clipboard => atoms.clipboard,
        }
    }

    /// The selection that `atom` names, if there is one.
    #[must_use]
    pub fn from_atom(atoms: &Atoms, atom: Atom) -> (clipboard: Option<ClipboardSelectionType>)
        ensures
            clipboard == Self::of_atom(*atoms, atom),
    {
        if ClipboardSelectionType::Primary.to_atom(atoms) == atom {
            Some(ClipboardSelectionType::Primary)
        } else if ClipboardSelectionType::Secondary.to_atom(atoms) == atom {
            Some(ClipboardSelectionType::Secondary)
        } else if ClipboardSelectionType::Clipboard.to_atom(atoms) == atom {
            Some(ClipboardSelectionType::Clipboard)
        } else {
            None
        }
    }

    /// All selections, each once.
    pub open spec fn all() -> Seq<ClipboardSelectionType> {
        seq![
            ClipboardSelectionType::Primary,
            ClipboardSelectionType::Secondary,
            ClipboardSelectionType::Clipboard,
        ]
    }

    /// Walks through all selections.
    pub fn iter() -> (selections: std::vec::IntoIter<ClipboardSelectionType>)
        ensures
            selections.remaining() == Self::all(),
    {
        let selections = vec![
            ClipboardSelectionType::Primary,
            ClipboardSelectionType::Secondary,
            ClipboardSelectionType::Clipboard,
        ];
        assert(selections@ =~= Self::all());
        selections.into_iter()
    }
}

/// What the atoms with a known meaning stand for. Where an atom occurs twice, the earlier entry
/// counts.
pub open spec fn atom_hints(atoms: Atoms) -> Seq<(Atom, HintView)> {
    seq![
        // Files
        (atoms.text_uri_list, HintView::UriList),
        // Plain text
        (atoms.string, HintView::Plaintext),
        (atoms.utf8_string, HintView::Plaintext),
        (atoms.text_plain, HintView::Plaintext),
        (atoms.text_plain_charset_utf8, HintView::Plaintext),
        // HTML
        (atoms.text_html, HintView::Html),
        (atoms.text_html_charset_utf8, HintView::Html),
        // RTF
        (atoms.application_rtf, HintView::Rtf),
        // Audio
        (atoms.audio_aac, HintView::Audio(Some("aac"@))),
        (atoms.audio_aiff, HintView::Audio(Some("aif"@))),
        (atoms.audio_flac, HintView::Audio(Some("flac"@))),
        (atoms.audio_vnd_wav, HintView::Audio(Some("wav"@))),
        (atoms.audio_vnd_wave, HintView::Audio(Some("wav"@))),
        (atoms.audio_wav, HintView::Audio(Some("wav"@))),
        (atoms.audio_wave, HintView::Audio(Some("wav"@))),
        (atoms.audio_x_wav, HintView::Audio(Some("wav"@))),
        (atoms.audio_ogg, HintView::Audio(Some("ogg"@))),
        (atoms.audio_mpeg, HintView::Audio(Some("mp3"@))),
        // Images
        (atoms.image_bmp, HintView::Image(Some("bmp"@))),
        (atoms.image_gif, HintView::Image(Some("gif"@))),
        (atoms.image_jpeg, HintView::Image(Some("jpg"@))),
        (atoms.image_pjpeg, HintView::Image(Some("jpg"@))),
        (atoms.image_png, HintView::Image(Some("png"@))),
        (atoms.image_raw, HintView::Image(Some("raw"@))),
        (atoms.image_svg, HintView::Image(Some("svg"@))),
        (atoms.image_tiff, HintView::Image(Some("tiff"@))),
        (atoms.image_webp, HintView::Image(Some("webp"@))),
        (atoms.image_x_icon, HintView::Image(Some("ico"@))),
    ]
}

/// The hint of the first entry for `atom`.
pub open spec fn first_hint(entries: Seq<(Atom, HintView)>, atom: Atom) -> Option<HintView>
    decreases entries.len(),
{
    if entries.len() == 0 {
        None
    } else if entries[0].0 == atom {
        Some(entries[0].1)
    } else {
        first_hint(entries.drop_first(), atom)
    }
}

/// A type of data as X11 clients name it: by an atom.
#[derive(Debug, Clone, Copy, PartialEq, Eq, Hash)]
pub struct SelectionType {
    hint: Option<TypeHint>,
    atom: Atom,
}

/// What a [`SelectionType`] says.
pub struct SelectionTypeView {
    pub hint: Option<HintView>,
    pub atom: Atom,
}

/// What an optional [`TypeHint`] says.
pub open spec fn hint_view(hint: Option<TypeHint>) -> Option<HintView> {
    match hint {
        Some(hint) => Some(hint@),
        None => None,
    }
}

/// What each of a sequence of types says.
pub open spec fn type_views(types: Seq<SelectionType>) -> Seq<SelectionTypeView> {
    types.map_values(|type_: SelectionType| type_@)
}

impl View for SelectionType {
    type V = SelectionTypeView;

    closed spec fn view(&self) -> SelectionTypeView {
        SelectionTypeView { hint: hint_view(self.hint), atom: self.atom }
    }
}

impl SelectionTypeView {
    /// The type that `atom` names.
    pub open spec fn of_atom(atoms: Atoms, atom: Atom) -> SelectionTypeView {
        SelectionTypeView { hint: first_hint(atom_hints(atoms), atom), atom }
    }

    /// The types that a clipboard with the given offer is advertised under: the type itself where
    /// it is an X11 type, else every known atom whose meaning matches the hint.
    pub open spec fn advertised(atoms: Atoms, offer: OfferView) -> Seq<SelectionTypeView> {
        match offer {
            OfferView::Selection(type_) => seq![type_],
            OfferView::Other(None) => seq![],
            OfferView::Other(Some(hint)) => atom_hints(atoms).filter(
                |entry: (Atom, HintView)| entry.1.matches(hint),
            ).map_values(
                |entry: (Atom, HintView)|
                    SelectionTypeView { hint: Some(entry.1), atom: entry.0 },
            ),
        }
    }

    /// Whether two types are equivalent: X11 types when they are equal, an X11 type and another
    /// type when both have the same hint.
    pub open spec fn matches(self, offer: OfferView) -> bool {
        match offer {
            OfferView::Selection(type_) => self == type_,
            OfferView::Other(hint) => self.hint is Some && hint == self.hint,
        }
    }
}

/// A type that the owner of a clipboard offers: one of X11, or one that is known by no more than
/// its hint.
#[derive(Debug, Clone, Copy)]
pub enum TransferType {
    Selection(SelectionType),
    Other { hint: Option<TypeHint> },
}

/// What a [`TransferType`] says.
pub enum OfferView {
    Selection(SelectionTypeView),
    Other(Option<HintView>),
}

impl View for TransferType {
    type V = OfferView;

    open spec fn view(&self) -> OfferView {
        match *self {
            TransferType::Selection(type_) => OfferView::Selection(type_@),
            TransferType::Other { hint } => OfferView::Other(hint_view(hint)),
        }
    }
}

impl SelectionType {
    fn atom_hints(atoms: &Atoms) -> (entries: Vec<(Atom, TypeHint)>)
        ensures
            entries@.map_values(|entry: (Atom, TypeHint)| (entry.0, entry.1@)) == atom_hints(
                *atoms,
            ),
    {
        let entries = vec![
            // Files
            (atoms.text_uri_list, TypeHint::UriList),
            // Plain text
            (atoms.string, TypeHint::Plaintext),
            (atoms.utf8_string, TypeHint::Plaintext),
            (atoms.text_plain, TypeHint::Plaintext),
            (atoms.text_plain_charset_utf8, TypeHint::Plaintext),
            // HTML
            (atoms.text_html, TypeHint::Html),
            (atoms.text_html_charset_utf8, TypeHint::Html),
            // RTF
            (atoms.application_rtf, TypeHint::Rtf),
            // Audio
            (atoms.audio_aac, TypeHint::Audio { extension_hint: Some("aac") }),
            (atoms.audio_aiff, TypeHint::Audio { extension_hint: Some("aif") }),
            (atoms.audio_flac, TypeHint::Audio { extension_hint: Some("flac") }),
            (atoms.audio_vnd_wav, TypeHint::Audio { extension_hint: Some("wav") }),
            (atoms.audio_vnd_wave, TypeHint::Audio { extension_hint: Some("wav") }),
            (atoms.audio_wav, TypeHint::Audio { extension_hint: Some("wav") }),
            (atoms.audio_wave, TypeHint::Audio { extension_hint: Some("wav") }),
            (atoms.audio_x_wav, TypeHint::Audio { extension_hint: Some("wav") }),
            (atoms.audio_ogg, TypeHint::Audio { extension_hint: Some("ogg") }),
            (atoms.audio_mpeg, TypeHint::Audio { extension_hint: Some("mp3") }),
            // Images
            (atoms.image_bmp, TypeHint::Image { extension_hint: Some("bmp") }),
            (atoms.image_gif, TypeHint::Image { extension_hint: Some("gif") }),
            (atoms.image_jpeg, TypeHint::Image { extension_hint: Some("jpg") }),
            (atoms.image_pjpeg, TypeHint::Image { extension_hint: Some("jpg") }),
            (atoms.image_png, TypeHint::Image { extension_hint: Some("png") }),
            (atoms.image_raw, TypeHint::Image { extension_hint: Some("raw") }),
            (atoms.image_svg, TypeHint::Image { extension_hint: Some("svg") }),
            (atoms.image_tiff, TypeHint::Image { extension_hint: Some("tiff") }),
            (atoms.image_webp, TypeHint::Image { extension_hint: Some("webp") }),
            (atoms.image_x_icon, TypeHint::Image { extension_hint: Some("ico") }),
        ];
        assert(entries@.map_values(|entry: (Atom, TypeHint)| (entry.0, entry.1@)) =~= atom_hints(
            *atoms,
        ));
        entries
    }

    /// The type that `atom` names.
    pub fn new(atoms: &Atoms, atom: Atom) -> (type_: SelectionType)
        ensures
            type_@ == SelectionTypeView::of_atom(*atoms, atom),
    {
        let entries = Self::atom_hints(atoms);
        let ghost views = entries@.map_values(|entry: (Atom, TypeHint)| (entry.0, entry.1@));
        let mut i: usize = 0;
        assert(views.skip(0) =~= views);
        while i < entries.len()
            invariant
                i <= entries@.len(),
                views == entries@.map_values(|entry: (Atom, TypeHint)| (entry.0, entry.1@)),
                views == atom_hints(*atoms),
                first_hint(views.skip(i as int), atom) == first_hint(views, atom),
            decreases entries@.len() - i,
        {
            let (haystack, hint) = entries[i];
            assert(views.skip(i as int)[0] == (haystack, hint@));
            assert(views.skip(i as int).drop_first() =~= views.skip(i + 1));
            if haystack == atom {
                return SelectionType { hint: Some(hint), atom };
            }
            i += 1;
        }
        SelectionType { hint: None, atom }
    }

    /// The types under which a clipboard that offers `type_` is advertised.
    pub fn from_dyn(atoms: &Atoms, type_: &TransferType) -> (types: Vec<SelectionType>)
        ensures
            type_views(types@) == SelectionTypeView::advertised(*atoms, type_@),
    {
        let mut types: Vec<SelectionType> = Vec::new();
        match *type_ {
            TransferType::Selection(type_) => {
                types.push(type_);
                assert(type_views(types@) =~= seq![type_@]);
            },
            TransferType::Other { hint: None } => {
                assert(type_views(types@) =~= seq![]);
            },
            TransferType::Other { hint: Some(hint) } => {
                let entries = Self::atom_hints(atoms);
                let ghost views = entries@.map_values(
                    |entry: (Atom, TypeHint)| (entry.0, entry.1@),
                );
                let ghost keep = |entry: (Atom, HintView)| entry.1.matches(hint@);
                let ghost typed = |entry: (Atom, HintView)|
                    SelectionTypeView { hint: Some(entry.1), atom: entry.0 };
                let mut i: usize = 0;
                proof {
                    reveal(Seq::filter);
                    assert(views.take(0).filter(keep).map_values(typed) =~= seq![]);
                    assert(type_views(types@) =~= seq![]);
                }
                while i < entries.len()
                    invariant
                        i <= entries@.len(),
                        views == entries@.map_values(
                            |entry: (Atom, TypeHint)| (entry.0, entry.1@),
                        ),
                        keep == (|entry: (Atom, HintView)| entry.1.matches(hint@)),
                        typed == (|entry: (Atom, HintView)|
                            SelectionTypeView { hint: Some(entry.1), atom: entry.0 }),
                        type_views(types@) == views.take(i as int).filter(keep).map_values(typed),
                    decreases entries@.len() - i,
                {
                    let ghost before = types@;
                    let (atom, haystack) = entries[i];
                    if haystack.matches(&hint) {
                        types.push(SelectionType { hint: Some(haystack), atom });
                    }
                    proof {
                        reveal(Seq::filter);
                        let longer = views.take(i + 1);
                        assert(longer.drop_last() =~= views.take(i as int));
                        assert(longer.last() == (atom, haystack@));
                        let kept = views.take(i as int).filter(keep);
                        if keep(longer.last()) {
                            assert(longer.filter(keep) == kept.push(longer.last()));
                            assert(kept.push(longer.last()).map_values(typed)
                                =~= kept.map_values(typed).push(typed(longer.last())));
                            assert(type_views(types@) =~= type_views(before).push(
                                typed(longer.last()),
                            ));
                        } else {
                            assert(longer.filter(keep) == kept);
                        }
                    }
                    i += 1;
                }
                assert(views.take(entries@.len() as int) =~= views);
            },
        }
        types
    }

    /// The atom that names the type.
    pub fn atom(&self) -> (atom: Atom)
        ensures
            atom == self@.atom,
    {
        self.atom
    }

    /// What the type stands for, where that is known.
    pub fn hint(&self) -> (hint: Option<TypeHint>)
        ensures
            hint_view(hint) == self@.hint,
    {
        self.hint
    }

    /// Whether two types are equivalent.
    pub fn matches(&self, other: &TransferType) -> (matching: bool)
        ensures
            matching == self@.matches(other@),
    {
        match *other {
            TransferType::Selection(other) => {
                self.atom == other.atom && same_hint(self.hint, other.hint)
            },
            TransferType::Other { hint } => self.hint.is_some() && same_hint(hint, self.hint),
        }
    }

    /// Whether the type stands for exactly `hint`.
    pub fn has_hint(&self, hint: TypeHint) -> (has: bool)
        ensures
            has == (self@.hint == Some(hint@)),
    {
        same_hint(self.hint, Some(hint))
    }
}

/// Compares two optional hints.
fn same_hint(left: Option<TypeHint>, right: Option<TypeHint>) -> (same: bool)
    ensures
        same == (hint_view(left) == hint_view(right)),
{
    match (left, right) {
        (Some(left), Some(right)) => left.same_as(&right),
        (None, None) => true,
        _ => false,
    }
}

/// The position of the first type that stands for exactly `hint`.
pub open spec fn first_with_hint(types: Seq<SelectionTypeView>, hint: HintView) -> Option<int>
    decreases types.len(),
{
    if types.len() == 0 {
        None
    } else if types[0].hint == Some(hint) {
        Some(0)
    } else {
        match first_with_hint(types.drop_first(), hint) {
            Some(i) => Some(i + 1),
            None => None,
        }
    }
}

/// Finds the first type that stands for exactly `hint`.
pub(crate) fn find_by_hint(types: &Vec<SelectionType>, hint: TypeHint) -> (found: Option<
    &SelectionType,
>)
    ensures
        match first_with_hint(type_views(types@), hint@) {
            Some(i) => 0 <= i < types@.len() && found == Some(&types@[i]),
            None => found is None,
        },
{
    let ghost views = type_views(types@);
    let mut i: usize = 0;
    assert(views.skip(0) =~= views);
    while i < types.len()
        invariant
            i <= types@.len(),
            views == type_views(types@),
            match first_with_hint(views.skip(i as int), hint@) {
                Some(k) => first_with_hint(views, hint@) == Some(k + i),
                None => first_with_hint(views, hint@) is None,
            },
        decreases types@.len() - i,
    {
        assert(views.skip(i as int)[0] == types@[i as int]@);
        assert(views.skip(i as int).drop_first() =~= views.skip(i + 1));
        if types[i].has_hint(hint) {
            return Some(&types[i]);
        }
        i += 1;
    }
    None
}

/// The types in which a selection can be had.
#[derive(Debug)]
pub struct Selection {
    types: Vec<SelectionType>,
}

impl View for Selection {
    type V = Seq<SelectionTypeView>;

    closed spec fn view(&self) -> Seq<SelectionTypeView> {
        type_views(self.types@)
    }
}

impl Selection {
    /// A selection that can be had in the given types.
    pub fn new(types: Vec<SelectionType>) -> (selection: Selection)
        ensures
            selection@ == type_views(types@),
    {
        Selection { types }
    }

    /// The types, in the order in which the owner of the selection lists them.
    pub fn available_types(&self) -> (types: &Vec<SelectionType>)
        ensures
            type_views(types@) == self@,
    {
        &self.types
    }
}

/// No two of the atoms with a known meaning are the same.
pub open spec fn distinct_types(atoms: Atoms) -> bool {
    forall|i: int, j: int|
        0 <= i < j < atom_hints(atoms).len() ==> (#[trigger] atom_hints(atoms)[i]).0 != (
        #[trigger] atom_hints(atoms)[j]).0
}

proof fn lemma_first_hint_of_entry(entries: Seq<(Atom, HintView)>, k: int)
    requires
        0 <= k < entries.len(),
        forall|i: int, j: int|
            0 <= i < j < entries.len() ==> (#[trigger] entries[i]).0 != (#[trigger] entries[j]).0,
    ensures
        first_hint(entries, entries[k].0) == Some(entries[k].1),
    decreases entries.len(),
{
    if k > 0 {
        assert(entries[0].0 != entries[k].0);
        assert(entries.drop_first()[k - 1] == entries[k]);
        lemma_first_hint_of_entry(entries.drop_first(), k - 1);
    }
}

/// An atom that names a selection is told apart from every other atom, and the selection that is
/// found for an atom is one that the atom names.
pub proof fn found_selection_is_named_by_atom(atoms: Atoms, atom: Atom)
    ensures
        match ClipboardSelectionType::of_atom(atoms, atom) {
            Some(clipboard) => clipboard.named_by(atoms) == atom,
            None => forall|clipboard: ClipboardSelectionType|
                (#[trigger] clipboard.named_by(atoms)) != atom,
        },
{
    if ClipboardSelectionType::of_atom(atoms, atom) is None {
        assert forall|clipboard: ClipboardSelectionType| (#[trigger] clipboard.named_by(atoms))
            != atom by {
            match clipboard {
                ClipboardSelectionType::Primary => {},
                ClipboardSelectionType::Secondary => {},
                ClipboardSelectionType::Clipboard => {},
            }
        }
    }
}

/// A selection is found again by the atom that names it, on every server on which the clipboard
/// has an atom of its own.
pub proof fn selection_is_found_by_its_atom(atoms: Atoms, clipboard: ClipboardSelectionType)
    requires
        atoms.clipboard != PredefinedAtom::Primary.number(),
        atoms.clipboard != PredefinedAtom::Secondary.number(),
    ensures
        ClipboardSelectionType::of_atom(atoms, clipboard.named_by(atoms)) == Some(clipboard),
{
}

/// The walk through all selections meets each of them exactly once.
pub proof fn every_selection_is_listed_once(clipboard: ClipboardSelectionType)
    ensures
        ClipboardSelectionType::all().contains(clipboard),
        ClipboardSelectionType::all().no_duplicates(),
{
    let all = ClipboardSelectionType::all();
    match clipboard {
        ClipboardSelectionType::Primary => assert(all[0] == clipboard),
        ClipboardSelectionType::Secondary => assert(all[1] == clipboard),
        ClipboardSelectionType::Clipboard => assert(all[2] == clipboard),
    }
}

/// What is advertised for an offered hint can be asked for: a request for an advertised atom is
/// taken for the very type that was advertised, and that type matches the hint.
pub proof fn advertised_types_are_understood(atoms: Atoms, hint: HintView, i: int)
    requires
        distinct_types(atoms),
        0 <= i < SelectionTypeView::advertised(atoms, OfferView::Other(Some(hint))).len(),
    ensures
        ({
            let type_ = SelectionTypeView::advertised(atoms, OfferView::Other(Some(hint)))[i];
            &&& SelectionTypeView::of_atom(atoms, type_.atom) == type_
            &&& type_.hint is Some
            &&& type_.hint->0.matches(hint)
        }),
{
    let entries = atom_hints(atoms);
    let keep = |entry: (Atom, HintView)| entry.1.matches(hint);
    let entry = entries.filter(keep)[i];
    assert(entries.filter(keep).contains(entry));
    entries.lemma_filter_contains_rev(keep, entry);
    entries.lemma_filter_pred(keep, i);
    let k = choose|k: int| 0 <= k < entries.len() && entries[k] == entry;
    lemma_first_hint_of_entry(entries, k);
}

/// Every atom whose known meaning matches an offered hint is advertised.
pub proof fn matching_atoms_are_advertised(atoms: Atoms, hint: HintView, k: int)
    requires
        0 <= k < atom_hints(atoms).len(),
        atom_hints(atoms)[k].1.matches(hint),
    ensures
        SelectionTypeView::advertised(atoms, OfferView::Other(Some(hint))).contains(
            SelectionTypeView { hint: Some(atom_hints(atoms)[k].1), atom: atom_hints(atoms)[k].0 },
        ),
{
    let entries = atom_hints(atoms);
    let keep = |entry: (Atom, HintView)| entry.1.matches(hint);
    entries.lemma_filter_contains(keep, k);
    let i = choose|i: int|
        0 <= i < entries.filter(keep).len() && entries.filter(keep)[i] == entries[k];
    let advertised = SelectionTypeView::advertised(atoms, OfferView::Other(Some(hint)));
    assert(advertised[i] == (SelectionTypeView {
        hint: Some(entries[k].1),
        atom: entries[k].0,
    }));
}

/// Each selection has the name that the protocol or the X server gave it, and an atom is looked up
/// in the order primary, secondary, clipboard. No other atom names a selection.
pub proof fn atoms_name_the_selections(atoms: Atoms, atom: Atom)
    ensures
        ClipboardSelectionType::Primary.named_by(atoms) == 1,
        ClipboardSelectionType::Secondary.named_by(atoms) == 2,
        ClipboardSelectionType::Clipboard.named_by(atoms) == atoms.clipboard,
        ClipboardSelectionType::of_atom(atoms, atom) == Some(ClipboardSelectionType::Primary)
            <==> atom == 1,
        ClipboardSelectionType::of_atom(atoms, atom) == Some(ClipboardSelectionType::Secondary)
            <==> atom == 2,
        ClipboardSelectionType::of_atom(atoms, atom) == Some(ClipboardSelectionType::Clipboard)
            <==> atom == atoms.clipboard && atom != 1 && atom != 2,
        ClipboardSelectionType::all().len() == 3,
        ClipboardSelectionType::all()[0] == ClipboardSelectionType::Primary,
        ClipboardSelectionType::all()[1] == ClipboardSelectionType::Secondary,
        ClipboardSelectionType::all()[2] == ClipboardSelectionType::Clipboard,
{
}

/// A type keeps the atom that names it. The atom says what the type stands for: the known formats
/// of text, audio and images each have their hint, and every other atom has none.
pub proof fn atoms_stand_for_their_hints(atoms: Atoms, atom: Atom)
    ensures
        SelectionTypeView::of_atom(atoms, atom).atom == atom,
        SelectionTypeView::of_atom(atoms, atom).hint == (if atom == atoms.text_uri_list {
            Some(HintView::UriList)
        } else if atom == atoms.string || atom == atoms.utf8_string || atom == atoms.text_plain
            || atom == atoms.text_plain_charset_utf8 {
            Some(HintView::Plaintext)
        } else if atom == atoms.text_html || atom == atoms.text_html_charset_utf8 {
            Some(HintView::Html)
        } else if atom == atoms.application_rtf {
            Some(HintView::Rtf)
        } else if atom == atoms.audio_aac {
            Some(HintView::Audio(Some("aac"@)))
        } else if atom == atoms.audio_aiff {
            Some(HintView::Audio(Some("aif"@)))
        } else if atom == atoms.audio_flac {
            Some(HintView::Audio(Some("flac"@)))
        } else if atom == atoms.audio_vnd_wav || atom == atoms.audio_vnd_wave || atom
            == atoms.audio_wav || atom == atoms.audio_wave || atom == atoms.audio_x_wav {
            Some(HintView::Audio(Some("wav"@)))
        } else if atom == atoms.audio_ogg {
            Some(HintView::Audio(Some("ogg"@)))
        } else if atom == atoms.audio_mpeg {
            Some(HintView::Audio(Some("mp3"@)))
        } else if atom == atoms.image_bmp {
            Some(HintView::Image(Some("bmp"@)))
        } else if atom == atoms.image_gif {
            Some(HintView::Image(Some("gif"@)))
        } else if atom == atoms.image_jpeg || atom == atoms.image_pjpeg {
            Some(HintView::Image(Some("jpg"@)))
        } else if atom == atoms.image_png {
            Some(HintView::Image(Some("png"@)))
        } else if atom == atoms.image_raw {
            Some(HintView::Image(Some("raw"@)))
        } else if atom == atoms.image_svg {
            Some(HintView::Image(Some("svg"@)))
        } else if atom == atoms.image_tiff {
            Some(HintView::Image(Some("tiff"@)))
        } else if atom == atoms.image_webp {
            Some(HintView::Image(Some("webp"@)))
        } else if atom == atoms.image_x_icon {
            Some(HintView::Image(Some("ico"@)))
        } else {
            None
        }),
        atom_hints(atoms).len() == 28,
{
    reveal_with_fuel(first_hint, 29);
}

/// The search for a hint gives the first type that stands for it. It gives none exactly where no
/// type of the whole list does.
pub proof fn found_type_is_the_first(types: Seq<SelectionTypeView>, hint: HintView)
    ensures
        match first_with_hint(types, hint) {
            Some(i) => {
                &&& 0 <= i < types.len()
                &&& types[i].hint == Some(hint)
                &&& forall|k: int| 0 <= k < i ==> (#[trigger] types[k]).hint != Some(hint)
            },
            None => forall|k: int|
                0 <= k < types.len() ==> (#[trigger] types[k]).hint != Some(hint),
        },
    decreases types.len(),
{
    if types.len() > 0 && types[0].hint != Some(hint) {
        let later = types.drop_first();
        found_type_is_the_first(later, hint);
        let end = match first_with_hint(later, hint) {
            Some(i) => i + 1,
            None => types.len() as int,
        };
        assert forall|k: int| 0 <= k < end implies (#[trigger] types[k]).hint != Some(hint) by {
            if k > 0 {
                assert(later[k - 1] == types[k]);
            }
        }
    }
}

/// An X11 type is offered as itself and matches only itself. A type that is known by its hint
/// matches the X11 types with that very hint; one without a hint is offered as nothing and matches
/// nothing.
pub proof fn offers_are_kept(type_: SelectionTypeView, other: SelectionTypeView, atoms: Atoms)
    ensures
        SelectionTypeView::advertised(atoms, OfferView::Selection(type_)).len() == 1,
        SelectionTypeView::advertised(atoms, OfferView::Selection(type_))[0] == type_,
        SelectionTypeView::advertised(atoms, OfferView::Other(None)).len() == 0,
        type_.matches(OfferView::Selection(other)) <==> type_.atom == other.atom && type_.hint
            == other.hint,
        type_.matches(OfferView::Other(other.hint)) <==> type_.hint is Some && type_.hint
            == other.hint,
        !type_.matches(OfferView::Other(None)),
{
}

/// What an offer says is what it holds, and a list of types keeps every type in its place.
pub proof fn offers_say_what_they_hold(
    type_: SelectionType,
    hint: TypeHint,
    types: Seq<SelectionType>,
    i: int,
)
    ensures
        TransferType::Selection(type_)@ == OfferView::Selection(type_@),
        (TransferType::Other { hint: Some(hint) })@ == OfferView::Other(Some(hint@)),
        (TransferType::Other { hint: None })@ == OfferView::Other(None),
        hint_view(Some(hint)) == Some(hint@),
        hint_view(None) is None,
        type_views(types).len() == types.len(),
        0 <= i < types.len() ==> type_views(types)[i] == types[i]@,
{
}

proof fn lemma_filter_keeps_order<A>(items: Seq<A>, keep: spec_fn(A) -> bool, i: int, j: int) -> (
at: (int, int))
    requires
        0 <= i < j < items.filter(keep).len(),
    ensures
        0 <= at.0 < at.1 < items.len(),
        items[at.0] == items.filter(keep)[i],
        items[at.1] == items.filter(keep)[j],
    decreases items.len(),
{
    reveal(Seq::filter);
    let earlier = items.drop_last();
    let kept = earlier.filter(keep);
    if j < kept.len() {
        lemma_filter_keeps_order(earlier, keep, i, j)
    } else {
        assert(kept.contains(kept[i]));
        earlier.lemma_filter_contains_rev(keep, kept[i]);
        let k = choose|k: int| 0 <= k < earlier.len() && earlier[k] == kept[i];
        (k, items.len() - 1)
    }
}

/// What is advertised for a hint comes in the order of the known types, and where these are
/// distinct, no type is advertised twice.
pub proof fn advertised_types_keep_their_order(atoms: Atoms, hint: HintView, i: int, j: int)
    requires
        0 <= i < j < SelectionTypeView::advertised(atoms, OfferView::Other(Some(hint))).len(),
    ensures
        ({
            let advertised = SelectionTypeView::advertised(atoms, OfferView::Other(Some(hint)));
            &&& exists|k: int, l: int|
                0 <= k < l < atom_hints(atoms).len() && (#[trigger] atom_hints(atoms)[k]).0
                    == advertised[i].atom && (#[trigger] atom_hints(atoms)[l]).0
                    == advertised[j].atom
            &&& distinct_types(atoms) ==> advertised[i].atom != advertised[j].atom
        }),
{
    let entries = atom_hints(atoms);
    let keep = |entry: (Atom, HintView)| entry.1.matches(hint);
    let (k, l) = lemma_filter_keeps_order(entries, keep, i, j);
    let advertised = SelectionTypeView::advertised(atoms, OfferView::Other(Some(hint)));
    assert(entries[k].0 == advertised[i].atom && entries[l].0 == advertised[j].atom);
}

proof fn lemma_first_hint_is_an_entry(entries: Seq<(Atom, HintView)>, atom: Atom) -> (k: int)
    requires
        first_hint(entries, atom) is Some,
    ensures
        0 <= k < entries.len(),
        entries[k] == (atom, first_hint(entries, atom)->0),
    decreases entries.len(),
{
    if entries[0].0 == atom {
        0
    } else {
        let k = lemma_first_hint_is_an_entry(entries.drop_first(), atom);
        k + 1
    }
}

/// An atom is advertised for an offered hint exactly where what the atom stands for matches the
/// hint.
pub proof fn atoms_are_advertised_where_they_match(atoms: Atoms, hint: HintView, atom: Atom)
    requires
        distinct_types(atoms),
    ensures
        SelectionTypeView::advertised(atoms, OfferView::Other(Some(hint))).contains(
            SelectionTypeView::of_atom(atoms, atom),
        ) <==> (SelectionTypeView::of_atom(atoms, atom).hint is Some
            && SelectionTypeView::of_atom(atoms, atom).hint->0.matches(hint)),
{
    let advertised = SelectionTypeView::advertised(atoms, OfferView::Other(Some(hint)));
    let type_ = SelectionTypeView::of_atom(atoms, atom);
    if advertised.contains(type_) {
        let i = choose|i: int| 0 <= i < advertised.len() && advertised[i] == type_;
        advertised_types_are_understood(atoms, hint, i);
    }
    if type_.hint is Some && type_.hint->0.matches(hint) {
        let k = lemma_first_hint_is_an_entry(atom_hints(atoms), atom);
        matching_atoms_are_advertised(atoms, hint, k);
    }
}

/// What is advertised for a hint is known: each advertised type is one of the known types, with
/// its atom and its hint, and that hint matches.
pub proof fn advertised_types_are_known(atoms: Atoms, hint: HintView, i: int)
    requires
        0 <= i < SelectionTypeView::advertised(atoms, OfferView::Other(Some(hint))).len(),
    ensures
        ({
            let type_ = SelectionTypeView::advertised(atoms, OfferView::Other(Some(hint)))[i];
            &&& type_.hint is Some
            &&& type_.hint->0.matches(hint)
            &&& atom_hints(atoms).contains((type_.atom, type_.hint->0))
        }),
{
    let entries = atom_hints(atoms);
    let keep = |entry: (Atom, HintView)| entry.1.matches(hint);
    let entry = entries.filter(keep)[i];
    assert(entries.filter(keep).contains(entry));
    entries.lemma_filter_contains_rev(keep, entry);
    entries.lemma_filter_pred(keep, i);
}

proof fn lemma_filter_step(
    entries: Seq<(Atom, HintView)>,
    keep: spec_fn((Atom, HintView)) -> bool,
    n: int,
)
    requires
        0 <= n < entries.len(),
    ensures
        entries.take(n + 1).filter(keep) == if keep(entries[n]) {
            entries.take(n).filter(keep).push(entries[n])
        } else {
            entries.take(n).filter(keep)
        },
{
    reveal(Seq::filter);
    assert(entries.take(n + 1).drop_last() =~= entries.take(n));
    assert(entries.take(n + 1).last() == entries[n]);
}

/// A hint that names a format of text, and one that leaves the encoding of audio or of an image
/// open, is advertised under all known names of that kind, in one fixed order.
pub proof fn kinds_are_advertised_under_all_their_names(atoms: Atoms, hint: HintView)
    requires
        hint is UriList || hint is Plaintext || hint is Html || hint is Rtf || hint
            == HintView::Audio(None) || hint == HintView::Image(None),
    ensures
        SelectionTypeView::advertised(atoms, OfferView::Other(Some(hint))).map_values(
            |type_: SelectionTypeView| type_.atom,
        ) == (match hint {
            HintView::UriList => seq![atoms.text_uri_list],
            HintView::Plaintext => seq![
                atoms.string,
                atoms.utf8_string,
                atoms.text_plain,
                atoms.text_plain_charset_utf8,
            ],
            HintView::Html => seq![atoms.text_html, atoms.text_html_charset_utf8],
            HintView::Rtf => seq![atoms.application_rtf],
            HintView::Audio(_) => seq![
                atoms.audio_aac,
                atoms.audio_aiff,
                atoms.audio_flac,
                atoms.audio_vnd_wav,
                atoms.audio_vnd_wave,
                atoms.audio_wav,
                atoms.audio_wave,
                atoms.audio_x_wav,
                atoms.audio_ogg,
                atoms.audio_mpeg,
            ],
            HintView::Image(_) => seq![
                atoms.image_bmp,
                atoms.image_gif,
                atoms.image_jpeg,
                atoms.image_pjpeg,
                atoms.image_png,
                atoms.image_raw,
                atoms.image_svg,
                atoms.image_tiff,
                atoms.image_webp,
                atoms.image_x_icon,
            ],
        }),
{
    let entries = atom_hints(atoms);
    let keep = |entry: (Atom, HintView)| entry.1.matches(hint);
    reveal(Seq::filter);
    assert(entries.take(0).filter(keep) =~= seq![]);
    lemma_filter_step(entries, keep, 0);
    lemma_filter_step(entries, keep, 1);
    lemma_filter_step(entries, keep, 2);
    lemma_filter_step(entries, keep, 3);
    lemma_filter_step(entries, keep, 4);
    lemma_filter_step(entries, keep, 5);
    lemma_filter_step(entries, keep, 6);
    lemma_filter_step(entries, keep, 7);
    lemma_filter_step(entries, keep, 8);
    lemma_filter_step(entries, keep, 9);
    lemma_filter_step(entries, keep, 10);
    lemma_filter_step(entries, keep, 11);
    lemma_filter_step(entries, keep, 12);
    lemma_filter_step(entries, keep, 13);
    lemma_filter_step(entries, keep, 14);
    lemma_filter_step(entries, keep, 15);
    lemma_filter_step(entries, keep, 16);
    lemma_filter_step(entries, keep, 17);
    lemma_filter_step(entries, keep, 18);
    lemma_filter_step(entries, keep, 19);
    lemma_filter_step(entries, keep, 20);
    lemma_filter_step(entries, keep, 21);
    lemma_filter_step(entries, keep, 22);
    lemma_filter_step(entries, keep, 23);
    lemma_filter_step(entries, keep, 24);
    lemma_filter_step(entries, keep, 25);
    lemma_filter_step(entries, keep, 26);
    lemma_filter_step(entries, keep, 27);
    assert(entries.take(28) =~= entries);
    let typed = SelectionTypeView::advertised(atoms, OfferView::Other(Some(hint))).map_values(
        |type_: SelectionTypeView| type_.atom,
    );
    match hint {
        HintView::UriList => assert(typed =~= seq![atoms.text_uri_list]),
        HintView::Plaintext => assert(typed =~= seq![
            atoms.string,
            atoms.utf8_string,
            atoms.text_plain,
            atoms.text_plain_charset_utf8,
        ]),
        HintView::Html => assert(typed =~= seq![atoms.text_html, atoms.text_html_charset_utf8]),
        HintView::Rtf => assert(typed =~= seq![atoms.application_rtf]),
        _ => {},
    }
}

} // verus!
