//! Platform-independent descriptions of what a piece of transferred data is.

use vstd::prelude::*;
use vstd::utf8::encode_utf8;
use winit_core::data_transfer::TypeHint as CoreHint;

verus! {

/// The data types that can be named independently of the windowing system.
#[derive(Debug, Clone, Copy, PartialEq, Eq, Hash)]
pub enum TypeHint {
    /// Plain text.
    Plaintext,
    /// A list of URIs, one per line.
    UriList,
    /// Text formatted as HTML.
    Html,
    /// Text formatted as RTF.
    Rtf,
    /// Audio, with the usual file extension of its encoding where that is known.
    Audio { extension_hint: Option<&'static str> },
    /// An image, with the usual file extension of its encoding where that is known.
    Image { extension_hint: Option<&'static str> },
}

/// What a [`TypeHint`] says, with its extension as a sequence of characters.
pub enum HintView {
    Plaintext,
    UriList,
    Html,
    Rtf,
    Audio(Option<Seq<char>>),
    Image(Option<Seq<char>>),
}

/// The characters of an optional file extension.
pub open spec fn extension_view(extension: Option<&'static str>) -> Option<Seq<char>> {
    match extension {
        Some(text) => Some(text@),
        None => None,
    }
}

impl View for TypeHint {
    type V = HintView;

    open spec fn view(&self) -> HintView {
        match *self {
            TypeHint::Plaintext => HintView::Plaintext,
            TypeHint::UriList => HintView::UriList,
            TypeHint::Html => HintView::Html,
            TypeHint::Rtf => HintView::Rtf,
            TypeHint::Audio { extension_hint } => HintView::Audio(extension_view(extension_hint)),
            TypeHint::Image { extension_hint } => HintView::Image(extension_view(extension_hint)),
        }
    }
}

impl HintView {
    /// Two hints match when they are equal, and also when both are audio or both are images and
    /// at least one of them leaves the encoding open.
    pub open spec fn matches(self, other: HintView) -> bool {
        match (self, other) {
            (HintView::Audio(this), HintView::Audio(that)) => {
                this is None || that is None || this == that
            },
            (HintView::Image(this), HintView::Image(that)) => {
                this is None || that is None || this == that
            },
            _ => self == other,
        }
    }
}

/// Compares two strings by their contents.
fn same_text(left: &str, right: &str) -> (same: bool)
    ensures
        same == (left@ == right@),
{
    proof {
        vstd::utf8::encode_utf8_decode_utf8(left@);
        vstd::utf8::encode_utf8_decode_utf8(right@);
    }
    let left_bytes = left.as_bytes();
    let right_bytes = right.as_bytes();
    if left_bytes.len() != right_bytes.len() {
        return false;
    }
    let mut i: usize = 0;
    while i < left_bytes.len()
        invariant
            left_bytes@ == encode_utf8(left@),
            right_bytes@ == encode_utf8(right@),
            left_bytes@.len() == right_bytes@.len(),
            i <= left_bytes@.len(),
            forall|j: int| 0 <= j < i ==> left_bytes@[j] == right_bytes@[j],
        decreases left_bytes@.len() - i,
    {
        if left_bytes[i] != right_bytes[i] {
            return false;
        }
        i += 1;
    }
    assert(left_bytes@ =~= right_bytes@);
    true
}

/// Compares two optional file extensions by their contents.
fn same_extension(left: Option<&'static str>, right: Option<&'static str>) -> (same: bool)
    ensures
        same == (extension_view(left) == extension_view(right)),
{
    match (left, right) {
        (Some(left), Some(right)) => same_text(left, right),
        (None, None) => true,
        _ => false,
    }
}

/// Calls `winit_core::data_transfer::TypeHint::matches` on the two hints.
///
/// Assumed of it: it answers `true` for two hints of one kind without an extension, `false` for
/// two hints of different kinds, and for two audio hints or two image hints it answers `true`
/// exactly when an extension is missing on either side or both extensions are the same text.
#[verifier::external_body]
fn core_hints_match(left: &TypeHint, right: &TypeHint) -> (matching: bool)
    ensures
        matching == left@.matches(right@),
{
    let [left, right] = [left, right].map(|hint| match *hint {
        TypeHint::Plaintext => CoreHint::Plaintext,
        TypeHint::UriList => CoreHint::UriList,
        TypeHint::Html => CoreHint::Html,
        TypeHint::Rtf => CoreHint::Rtf,
        TypeHint::Audio { extension_hint } => CoreHint::Audio { extension_hint },
        TypeHint::Image { extension_hint } => CoreHint::Image { extension_hint },
    });
    left.matches(&right)
}

impl TypeHint {
    /// Whether the two hints say exactly the same thing.
    pub fn same_as(&self, other: &TypeHint) -> (same: bool)
        ensures
            same == (self@ == other@),
    {
        match (*self, *other) {
            (TypeHint::Plaintext, TypeHint::Plaintext) => true,
            (TypeHint::UriList, TypeHint::UriList) => true,
            (TypeHint::Html, TypeHint::Html) => true,
            (TypeHint::Rtf, TypeHint::Rtf) => true,
            (
                TypeHint::Audio { extension_hint: left },
                TypeHint::Audio { extension_hint: right },
            ) => same_extension(left, right),
            (
                TypeHint::Image { extension_hint: left },
                TypeHint::Image { extension_hint: right },
            ) => same_extension(left, right),
            _ => false,
        }
    }

    /// Whether the two hints match: like equality, but audio or an image without a known
    /// encoding matches any audio or any image.
    pub fn matches(&self, other: &TypeHint) -> (matching: bool)
        ensures
            matching == self@.matches(other@),
    {
        core_hints_match(self, other)
    }
}

/// What a hint says is of the same kind as the hint, and its file extension is the same text.
pub proof fn hints_say_what_they_are(hint: TypeHint)
    ensures
        hint@ == HintView::Plaintext <==> hint == TypeHint::Plaintext,
        hint@ == HintView::UriList <==> hint == TypeHint::UriList,
        hint@ == HintView::Html <==> hint == TypeHint::Html,
        hint@ == HintView::Rtf <==> hint == TypeHint::Rtf,
        hint@ == HintView::Audio(None) <==> hint == (TypeHint::Audio { extension_hint: None }),
        hint@ == HintView::Image(None) <==> hint == (TypeHint::Image { extension_hint: None }),
        forall|text: &'static str|
            hint == (TypeHint::Audio { extension_hint: Some(text) }) ==> hint@ == HintView::Audio(
                Some(#[trigger] text@),
            ),
        forall|text: &'static str|
            hint == (TypeHint::Image { extension_hint: Some(text) }) ==> hint@ == HintView::Image(
                Some(#[trigger] text@),
            ),
{
}

/// Matching is reflexive and symmetric. A hint that leaves nothing open matches itself alone; one
/// that leaves the encoding open matches every hint of its kind and no other.
pub proof fn hints_match_unless_they_differ(left: HintView, right: HintView)
    ensures
        left.matches(left),
        left.matches(right) == right.matches(left),
        left.matches(right) && left != right ==> {
            ||| left is Audio && right is Audio && (left == HintView::Audio(None) || right
                == HintView::Audio(None))
            ||| left is Image && right is Image && (left == HintView::Image(None) || right
                == HintView::Image(None))
        },
        left == HintView::Audio(None) && right is Audio ==> left.matches(right),
        left == HintView::Image(None) && right is Image ==> left.matches(right),
{
}

} // verus!
