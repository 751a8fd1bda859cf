//! Text and lists of URIs as bytes.

use std::str::Utf8Error;
use std::string::{FromUtf16Error, FromUtf8Error};
use vstd::prelude::*;
use vstd::utf8::{decode_utf8, encode_utf8, valid_utf8};
use crate::bytes::{read_units, unit_bytes, units_of, ByteOrder};

verus! {

/// `std::str::from_utf8`: it succeeds exactly on valid UTF-8, and gives the characters that the
/// bytes encode. Nothing is said of the error, which no caller looks at.
pub assume_specification[ std::str::from_utf8 ](bytes: &[u8]) -> (text: Result<&str, Utf8Error>)
    ensures
        match text {
            Ok(text) => valid_utf8(bytes@) && text@ == decode_utf8(bytes@),
            Err(_) => !valid_utf8(bytes@),
        },
;

/// The error with which `String::from_utf8` answers the bytes, where they are not UTF-8. It says
/// what the bytes are and where they go wrong; two such errors are the same if `==` says so.
pub uninterp spec fn utf8_error(bytes: Seq<u8>) -> FromUtf8Error;

/// `String::from_utf8`: it succeeds exactly on valid UTF-8, and gives the characters that the
/// bytes encode. Its error is a function of the bytes.
pub assume_specification[ std::string::String::from_utf8 ](bytes: Vec<u8>) -> (text: Result<
    std::string::String,
    FromUtf8Error,
>)
    ensures
        match text {
            Ok(text) => valid_utf8(bytes@) && text@ == decode_utf8(bytes@),
            Err(error) => !valid_utf8(bytes@) && error == utf8_error(bytes@),
        },
;

/// The error with which `String::from_utf16` answers the units, where they are not UTF-16.
pub uninterp spec fn utf16_error(units: Seq<u16>) -> FromUtf16Error;

/// `String::from_utf16`: it succeeds exactly where every surrogate is half of a pair, and gives
/// the characters that the units encode. Its error is a function of the units.
pub assume_specification[ std::string::String::from_utf16 ](units: &[u16]) -> (text: Result<
    std::string::String,
    FromUtf16Error,
>)
    ensures
        match text {
            Ok(text) => decode_utf16(units@) == Some(text@),
            Err(error) => decode_utf16(units@) is None && error == utf16_error(units@),
        },
;

/// `String::push`: it appends the character.
pub assume_specification[ std::string::String::push ](text: &mut std::string::String, c: char)
    ensures
        final(text)@ == old(text)@.push(c),
;

/// The first half of a surrogate pair.
pub open spec fn is_high_surrogate(unit: u16) -> bool {
    0xd800 <= unit <= 0xdbff
}

/// The second half of a surrogate pair.
pub open spec fn is_low_surrogate(unit: u16) -> bool {
    0xdc00 <= unit <= 0xdfff
}

/// The characters that the units encode in UTF-16, if they encode any.
pub open spec fn decode_utf16(units: Seq<u16>) -> Option<Seq<char>>
    decreases units.len(),
{
    if units.len() == 0 {
        Some(seq![])
    } else if !is_high_surrogate(units[0]) && !is_low_surrogate(units[0]) {
        match decode_utf16(units.drop_first()) {
            Some(rest) => Some(seq![units[0] as char] + rest),
            None => None,
        }
    } else if is_high_surrogate(units[0]) && units.len() > 1 && is_low_surrogate(units[1]) {
        match decode_utf16(units.skip(2)) {
            Some(rest) => Some(
                seq![(0x10000 + 0x400 * (units[0] - 0xd800) + (units[1] - 0xdc00)) as char]
                    + rest,
            ),
            None => None,
        }
    } else {
        None
    }
}

/// Reads bytes as UTF-16.
pub fn decode_utf16_bytes(bytes: &Vec<u8>, order: ByteOrder) -> (text: Result<
    String,
    FromUtf16Error,
>)
    ensures
        match text {
            Ok(text) => decode_utf16(units_of(bytes@, order)) == Some(text@),
            Err(error) => {
                &&& decode_utf16(units_of(bytes@, order)) is None
                &&& error == utf16_error(units_of(bytes@, order))
            },
        },
{
    let units = read_units(bytes, order);
    String::from_utf16(units.as_slice())
}

/// The characters at which a list of URIs is split.
pub open spec fn is_line_break(c: char) -> bool {
    c == '\n' || c == '\r'
}

/// The pieces of a text before, between and after its line breaks, empty ones included.
pub open spec fn split_at_breaks(text: Seq<char>) -> Seq<Seq<char>>
    decreases text.len(),
{
    if text.len() == 0 {
        seq![seq![]]
    } else {
        let pieces = split_at_breaks(text.drop_last());
        if is_line_break(text.last()) {
            pieces.push(seq![])
        } else {
            pieces.drop_last().push(pieces.last().push(text.last()))
        }
    }
}

/// The pieces of a text between its line breaks that are not empty.
pub open spec fn uris_of(text: Seq<char>) -> Seq<Seq<char>> {
    split_at_breaks(text).filter(|piece: Seq<char>| piece.len() > 0)
}

/// The characters of each of a sequence of strings.
pub open spec fn texts(strings: Seq<String>) -> Seq<Seq<char>> {
    strings.map_values(|text: String| text@)
}

proof fn lemma_split_is_not_empty(text: Seq<char>)
    ensures
        split_at_breaks(text).len() > 0,
    decreases text.len(),
{
    if text.len() > 0 {
        lemma_split_is_not_empty(text.drop_last());
    }
}

/// Splits a text at its line breaks and drops the empty pieces.
pub fn split_uris(text: &str) -> (uris: Vec<String>)
    ensures
        texts(uris@) == uris_of(text@),
{
    let mut uris: Vec<String> = Vec::new();
    let mut piece = String::new();
    let ghost keep = |piece: Seq<char>| piece.len() > 0;
    proof {
        reveal(Seq::filter);
        assert(text@.take(0) =~= seq![]);
        assert(split_at_breaks(seq![]).drop_last() =~= seq![]);
        assert(texts(uris@) =~= seq![]);
    }
    for c in chars: text.chars()
        invariant
            chars.seq() == text@,
            keep == (|piece: Seq<char>| piece.len() > 0),
            piece@ == split_at_breaks(text@.take(chars.index())).last(),
            texts(uris@) == split_at_breaks(text@.take(chars.index())).drop_last().filter(keep),
    {
        let ghost done = text@.take(chars.index());
        let ghost longer = text@.take(chars.index() + 1);
        let ghost pieces = split_at_breaks(done);
        proof {
            lemma_split_is_not_empty(done);
            assert(longer.drop_last() =~= done);
            assert(longer.last() == c);
        }
        if c == '\n' || c == '\r' {
            proof {
                reveal(Seq::filter);
                assert(split_at_breaks(longer).drop_last() =~= pieces);
            }
            let ghost before = uris@;
            let ghost finished = piece@;
            if !piece.as_str().is_empty() {
                uris.push(piece);
                assert(texts(uris@) =~= texts(before).push(finished));
            }
            piece = String::new();
        } else {
            piece.push(c);
            assert(split_at_breaks(longer).drop_last() =~= pieces.drop_last());
        }
    }
    proof {
        reveal(Seq::filter);
        lemma_split_is_not_empty(text@);
        assert(text@.take(text@.len() as int) =~= text@);
    }
    let ghost before = uris@;
    let ghost finished = piece@;
    if !piece.as_str().is_empty() {
        uris.push(piece);
        assert(texts(uris@) =~= texts(before).push(finished));
    }
    uris
}

/// The bytes of a list of URIs: each of them in UTF-8, followed by a carriage return and a line
/// feed.
pub open spec fn uri_list_bytes(uris: Seq<Seq<char>>) -> Seq<u8>
    decreases uris.len(),
{
    if uris.len() == 0 {
        seq![]
    } else {
        uri_list_bytes(uris.drop_last()) + encode_utf8(uris.last()) + seq![13u8, 10u8]
    }
}

/// Writes a list of URIs, each on a line of its own.
pub fn encode_uri_list(uri_list: &Vec<String>) -> (bytes: Vec<u8>)
    ensures
        bytes@ == uri_list_bytes(texts(uri_list@)),
{
    let mut out: Vec<u8> = Vec::new();
    let mut i: usize = 0;
    while i < uri_list.len()
        invariant
            i <= uri_list@.len(),
            out@ == uri_list_bytes(texts(uri_list@).take(i as int)),
        decreases uri_list@.len() - i,
    {
        let ghost before = out@;
        let uri = uri_list[i].as_str().as_bytes();
        out.extend_from_slice(uri);
        assert(out@ =~= before + uri@);
        out.push(13);
        out.push(10);
        proof {
            let longer = texts(uri_list@).take(i + 1);
            assert(longer.drop_last() =~= texts(uri_list@).take(i as int));
            assert(out@ =~= before + uri@ + seq![13u8, 10u8]);
        }
        i += 1;
    }
    assert(texts(uri_list@).take(uri_list@.len() as int) =~= texts(uri_list@));
    out
}

/// A URI as it can stand in a list: it is not empty, and no line break cuts it in two.
pub open spec fn is_listable(uri: Seq<char>) -> bool {
    uri.len() > 0 && forall|i: int| 0 <= i < uri.len() ==> !is_line_break(#[trigger] uri[i])
}

/// The text whose UTF-8 bytes make up a list of URIs.
spec fn uri_list_text(uris: Seq<Seq<char>>) -> Seq<char>
    decreases uris.len(),
{
    if uris.len() == 0 {
        seq![]
    } else {
        uri_list_text(uris.drop_last()) + uris.last() + seq!['\r', '\n']
    }
}

proof fn lemma_encode_utf8_concat(left: Seq<char>, right: Seq<char>)
    ensures
        encode_utf8(left + right) == encode_utf8(left) + encode_utf8(right),
    decreases left.len(),
{
    if left.len() == 0 {
        assert(left + right =~= right);
        assert(encode_utf8(left) + encode_utf8(right) =~= encode_utf8(right));
    } else {
        assert((left + right).drop_first() =~= left.drop_first() + right);
        lemma_encode_utf8_concat(left.drop_first(), right);
        assert(encode_utf8(left + right) =~= encode_utf8(left) + encode_utf8(right));
    }
}

proof fn lemma_uri_list_bytes_encode_text(uris: Seq<Seq<char>>)
    ensures
        uri_list_bytes(uris) == encode_utf8(uri_list_text(uris)),
    decreases uris.len(),
{
    if uris.len() > 0 {
        let ending = seq!['\r', '\n'];
        lemma_uri_list_bytes_encode_text(uris.drop_last());
        lemma_encode_utf8_concat(uri_list_text(uris.drop_last()), uris.last());
        lemma_encode_utf8_concat(uri_list_text(uris.drop_last()) + uris.last(), ending);
        vstd::utf8::is_ascii_chars_encode_utf8(ending);
        assert(encode_utf8(ending) =~= seq![13u8, 10u8]);
    }
}

/// A text without line breaks extends the last piece of the text before it.
proof fn lemma_split_after_line(text: Seq<char>, line: Seq<char>)
    requires
        forall|i: int| 0 <= i < line.len() ==> !is_line_break(#[trigger] line[i]),
    ensures
        split_at_breaks(text + line) == split_at_breaks(text).drop_last().push(
            split_at_breaks(text).last() + line,
        ),
    decreases line.len(),
{
    let pieces = split_at_breaks(text);
    lemma_split_is_not_empty(text);
    if line.len() == 0 {
        assert(text + line =~= text);
        assert(pieces.last() + line =~= pieces.last());
        assert(pieces =~= pieces.drop_last().push(pieces.last()));
    } else {
        lemma_split_after_line(text, line.drop_last());
        assert((text + line).drop_last() =~= text + line.drop_last());
        assert((text + line).last() == line.last());
        assert(!is_line_break(line[line.len() - 1]));
        let shorter = split_at_breaks(text + line.drop_last());
        assert(shorter.drop_last() =~= pieces.drop_last());
        assert((pieces.last() + line.drop_last()).push(line.last()) =~= pieces.last() + line);
    }
}

proof fn lemma_split_of_uri_list(uris: Seq<Seq<char>>)
    requires
        forall|i: int| 0 <= i < uris.len() ==> is_listable(#[trigger] uris[i]),
    ensures
        split_at_breaks(uri_list_text(uris)).last() == Seq::<char>::empty(),
        uris_of(uri_list_text(uris)) == uris,
    decreases uris.len(),
{
    reveal(Seq::filter);
    let keep = |piece: Seq<char>| piece.len() > 0;
    let text = uri_list_text(uris);
    let pieces = split_at_breaks(text);
    if uris.len() == 0 {
        assert(pieces =~= seq![seq![]]);
        assert(pieces.drop_last().filter(keep) =~= seq![]);
        assert(!keep(pieces.last()));
        assert(uris_of(text) =~= uris);
    } else {
        let before = uri_list_text(uris.drop_last());
        let earlier = split_at_breaks(before);
        let uri = uris.last();
        assert(is_listable(uris[uris.len() - 1]));
        lemma_split_of_uri_list(uris.drop_last());
        lemma_split_is_not_empty(before);
        lemma_split_after_line(before, uri);
        assert(Seq::<char>::empty() + uri =~= uri);
        let with_uri = earlier.drop_last().push(uri);
        assert(split_at_breaks(before + uri) == with_uri);
        let with_cr = before + uri + seq!['\r'];
        assert(with_cr.drop_last() =~= before + uri);
        assert(with_cr.last() == '\r');
        assert(split_at_breaks(with_cr) == with_uri.push(seq![]));
        assert(text.drop_last() =~= with_cr);
        assert(text.last() == '\n');
        assert(pieces == with_uri.push(seq![]).push(seq![]));
        assert(pieces.drop_last() =~= with_uri.push(seq![]));
        assert(with_uri.push(seq![]).drop_last() =~= with_uri);
        assert(with_uri.drop_last() =~= earlier.drop_last());
        assert(earlier.filter(keep) == earlier.drop_last().filter(keep));
        assert(with_uri.filter(keep) == earlier.filter(keep).push(uri));
        assert(with_uri.push(seq![]).filter(keep) == with_uri.filter(keep));
        assert(pieces.filter(keep) == with_uri.filter(keep));
        assert(uris =~= uris.drop_last().push(uri));
    }
}

/// A list of URIs is read back as it was written: the bytes are UTF-8, and splitting the text
/// gives the same URIs in the same order. It holds of URIs that are not empty and have no line
/// break in them; the format has no way to write others.
pub proof fn uri_list_is_read_back(uris: Seq<Seq<char>>)
    requires
        forall|i: int| 0 <= i < uris.len() ==> is_listable(#[trigger] uris[i]),
    ensures
        valid_utf8(uri_list_bytes(uris)),
        uris_of(decode_utf8(uri_list_bytes(uris))) == uris,
{
    lemma_uri_list_bytes_encode_text(uris);
    lemma_split_of_uri_list(uris);
    vstd::utf8::encode_utf8_valid_utf8(uri_list_text(uris));
    vstd::utf8::encode_utf8_decode_utf8(uri_list_text(uris));
}

/// Every URI that is read from a list could stand in one.
pub proof fn read_uris_are_listable(text: Seq<char>, i: int)
    requires
        0 <= i < uris_of(text).len(),
    ensures
        is_listable(uris_of(text)[i]),
{
    let keep = |piece: Seq<char>| piece.len() > 0;
    let pieces = split_at_breaks(text);
    pieces.lemma_filter_pred(keep, i);
    let uri = pieces.filter(keep)[i];
    assert(pieces.filter(keep).contains(uri));
    pieces.lemma_filter_contains_rev(keep, uri);
    let k = choose|k: int| 0 <= k < pieces.len() && pieces[k] == uri;
    lemma_pieces_have_no_breaks(text, k);
}

proof fn lemma_pieces_have_no_breaks(text: Seq<char>, k: int)
    requires
        0 <= k < split_at_breaks(text).len(),
    ensures
        forall|i: int|
            0 <= i < split_at_breaks(text)[k].len() ==> !is_line_break(
                #[trigger] split_at_breaks(text)[k][i],
            ),
    decreases text.len(),
{
    if text.len() > 0 {
        let pieces = split_at_breaks(text.drop_last());
        lemma_split_is_not_empty(text.drop_last());
        if k < pieces.len() {
            lemma_pieces_have_no_breaks(text.drop_last(), k);
        }
    }
}

/// The units by which UTF-16 writes a text.
pub open spec fn encode_utf16(text: Seq<char>) -> Seq<u16>
    decreases text.len(),
{
    if text.len() == 0 {
        seq![]
    } else {
        let code = text[0] as int;
        let first = if code < 0x10000 {
            seq![code as u16]
        } else {
            seq![
                (0xd800 + (code - 0x10000) / 0x400) as u16,
                (0xdc00 + (code - 0x10000) % 0x400) as u16,
            ]
        };
        first + encode_utf16(text.drop_first())
    }
}

pub(crate) proof fn lemma_decode_encode_utf16(text: Seq<char>)
    ensures
        decode_utf16(encode_utf16(text)) == Some(text),
    decreases text.len(),
{
    let units = encode_utf16(text);
    if text.len() > 0 {
        let rest = text.drop_first();
        lemma_decode_encode_utf16(rest);
        let code = text[0] as int;
        vstd::utf8::char_is_scalar(text[0]);
        vstd::utf8::char_u32_cast(text[0], text[0] as u32);
        if code < 0x10000 {
            assert(units.drop_first() =~= encode_utf16(rest));
            assert(units[0] as char == text[0]);
        } else {
            assert(code <= 0x10ffff);
            assert(units.skip(2) =~= encode_utf16(rest));
            assert(is_high_surrogate(units[0]));
            assert(is_low_surrogate(units[1]));
        }
        assert(seq![text[0]] + rest =~= text);
    }
}

/// Text that was stored as UTF-16 is read back as it was, on a machine of either byte order, and
/// also with an odd byte behind it.
pub proof fn utf16_text_is_read_back(text: Seq<char>, order: ByteOrder, odd: Seq<u8>)
    requires
        odd.len() <= 1,
    ensures
        decode_utf16(units_of(unit_bytes(encode_utf16(text), order) + odd, order)) == Some(text),
{
    crate::bytes::units_are_read_back(encode_utf16(text), order, odd);
    lemma_decode_encode_utf16(text);
}

/// A text without line breaks is read as the list of just that text, whether or not a line break
/// follows it. An empty text is read as the empty list.
pub proof fn one_line_is_one_uri(line: Seq<char>)
    requires
        forall|i: int| 0 <= i < line.len() ==> (#[trigger] line[i]) != '\n' && line[i] != '\r',
    ensures
        line.len() > 0 ==> uris_of(line) == seq![line],
        line.len() == 0 ==> uris_of(line) == Seq::<Seq<char>>::empty(),
{
    reveal(Seq::filter);
    let keep = |piece: Seq<char>| piece.len() > 0;
    let nothing = Seq::<char>::empty();
    lemma_split_after_line(nothing, line);
    assert(nothing + line =~= line);
    assert(split_at_breaks(nothing).drop_last() =~= seq![]);
    assert(split_at_breaks(line) =~= seq![line]);
    assert(split_at_breaks(line).drop_last() =~= seq![]);
    assert(split_at_breaks(line).drop_last().filter(keep) =~= seq![]);
    assert(uris_of(line) =~= if line.len() > 0 {
        seq![line]
    } else {
        seq![]
    });
}

proof fn lemma_split_at_a_break(before: Seq<char>, c: char, after: Seq<char>)
    requires
        is_line_break(c),
    ensures
        split_at_breaks(before.push(c) + after) == split_at_breaks(before) + split_at_breaks(
            after,
        ),
    decreases after.len(),
{
    let text = before.push(c) + after;
    lemma_split_is_not_empty(after);
    if after.len() == 0 {
        assert(text =~= before.push(c));
        assert(text.drop_last() =~= before);
        assert(split_at_breaks(after) =~= seq![seq![]]);
        assert(split_at_breaks(text) =~= split_at_breaks(before) + split_at_breaks(after));
    } else {
        lemma_split_at_a_break(before, c, after.drop_last());
        lemma_split_is_not_empty(after.drop_last());
        assert(text.drop_last() =~= before.push(c) + after.drop_last());
        assert(text.last() == after.last());
        assert(split_at_breaks(text) =~= split_at_breaks(before) + split_at_breaks(after));
    }
}

/// A line break parts what is before it from what is behind it: the URIs of the text are those
/// before the line break, followed by those behind it.
pub proof fn line_breaks_part_the_uris(before: Seq<char>, c: char, after: Seq<char>)
    requires
        c == '\n' || c == '\r',
    ensures
        uris_of(before.push(c) + after) == uris_of(before) + uris_of(after),
{
    let keep = |piece: Seq<char>| piece.len() > 0;
    lemma_split_at_a_break(before, c, after);
    Seq::filter_distributes_over_add(split_at_breaks(before), split_at_breaks(after), keep);
}

/// Every longest run of characters without a line break is one of the URIs: it stands in the list
/// behind the URIs before it and in front of the URIs behind it, whether or not a line break
/// follows it.
pub proof fn every_run_is_a_uri(text: Seq<char>, i: int, j: int)
    requires
        0 <= i < j <= text.len(),
        forall|k: int| i <= k < j ==> (#[trigger] text[k]) != '\n' && text[k] != '\r',
        i > 0 ==> text[i - 1] == '\n' || text[i - 1] == '\r',
        j < text.len() ==> text[j] == '\n' || text[j] == '\r',
    ensures
        uris_of(text) == uris_of(text.take(i)) + seq![text.subrange(i, j)] + uris_of(
            text.skip(j),
        ),
{
    let run = text.subrange(i, j);
    let nothing = Seq::<char>::empty();
    let none = Seq::<Seq<char>>::empty();
    one_line_is_one_uri(run);
    one_line_is_one_uri(nothing);
    let front = text.take(j);
    if i > 0 {
        let c = text[i - 1];
        line_breaks_part_the_uris(text.take(i - 1), c, run);
        assert(text.take(i - 1).push(c) + run =~= front);
        line_breaks_part_the_uris(text.take(i - 1), c, nothing);
        assert(text.take(i - 1).push(c) + nothing =~= text.take(i));
        assert(uris_of(text.take(i - 1)) + none =~= uris_of(text.take(i - 1)));
    } else {
        assert(front =~= run);
        assert(text.take(i) =~= nothing);
        assert(none + seq![run] =~= seq![run]);
    }
    assert(uris_of(front) == uris_of(text.take(i)) + seq![run]);
    if j < text.len() {
        let c = text[j];
        line_breaks_part_the_uris(front, c, text.skip(j + 1));
        assert(front.push(c) + text.skip(j + 1) =~= text);
        line_breaks_part_the_uris(nothing, c, text.skip(j + 1));
        assert(nothing.push(c) + text.skip(j + 1) =~= text.skip(j));
        assert(none + uris_of(text.skip(j + 1)) =~= uris_of(text.skip(j + 1)));
    } else {
        assert(front =~= text);
        assert(text.skip(j) =~= nothing);
        assert(uris_of(front) + none =~= uris_of(front));
    }
}

/// The strings of a list keep their places and their characters.
pub proof fn texts_keep_their_places(strings: Seq<String>, i: int)
    ensures
        texts(strings).len() == strings.len(),
        0 <= i < strings.len() ==> texts(strings)[i] == strings[i]@,
{
}

/// A list of URIs is written URI by URI: two lists one after the other are written as one, and a
/// single URI is written as its UTF-8 bytes with a carriage return and a line feed behind them.
pub proof fn uris_are_written_one_by_one(left: Seq<Seq<char>>, right: Seq<Seq<char>>, uri: Seq<char>)
    ensures
        uri_list_bytes(left + right) == uri_list_bytes(left) + uri_list_bytes(right),
        uri_list_bytes(seq![uri]) == encode_utf8(uri) + seq![13u8, 10u8],
        uri_list_bytes(seq![]) == Seq::<u8>::empty(),
    decreases right.len(),
{
    assert(seq![uri].drop_last() =~= seq![]);
    assert(uri_list_bytes(seq![uri].drop_last()) =~= seq![]);
    assert(uri_list_bytes(seq![uri]) =~= encode_utf8(uri) + seq![13u8, 10u8]);
    if right.len() == 0 {
        assert(left + right =~= left);
        assert(uri_list_bytes(left) + uri_list_bytes(right) =~= uri_list_bytes(left));
    } else {
        uris_are_written_one_by_one(left, right.drop_last(), uri);
        assert((left + right).drop_last() =~= left + right.drop_last());
        assert(uri_list_bytes(left + right) =~= uri_list_bytes(left) + uri_list_bytes(right));
    }
}

/// A URI can stand in a list where it has a character and none of them is a line break.
pub proof fn listable_uris_fit_on_a_line(uri: Seq<char>)
    ensures
        is_listable(uri) <==> uri.len() > 0 && !uri.contains('\n') && !uri.contains('\r'),
{
    if uri.len() > 0 && !uri.contains('\n') && !uri.contains('\r') {
        assert forall|i: int| 0 <= i < uri.len() implies !is_line_break(#[trigger] uri[i]) by {
            assert(uri.contains(uri[i]));
        }
    }
    if is_listable(uri) {
        if uri.contains('\n') {
            let i = choose|i: int| 0 <= i < uri.len() && uri[i] == '\n';
            assert(!is_line_break(uri[i]));
        }
        if uri.contains('\r') {
            let i = choose|i: int| 0 <= i < uri.len() && uri[i] == '\r';
            assert(!is_line_break(uri[i]));
        }
    }
}

/// UTF-16 writes a text character by character. A character below 0x10000 is one unit with the
/// same number; from every other one 0x10000 is taken, and the upper and the lower ten bits of
/// what remains go into a pair of surrogates.
pub proof fn utf16_writes_characters_one_by_one(left: Seq<char>, right: Seq<char>, c: char)
    ensures
        encode_utf16(left + right) == encode_utf16(left) + encode_utf16(right),
        (c as int) < 0x10000 ==> encode_utf16(seq![c]).len() == 1 && encode_utf16(seq![c])[0]
            == c as int,
        (c as int) >= 0x10000 ==> {
            let units = encode_utf16(seq![c]);
            &&& units.len() == 2
            &&& 0xd800 <= units[0] <= 0xdbff
            &&& 0xdc00 <= units[1] <= 0xdfff
            &&& c as int == 0x10000 + 0x400 * (units[0] - 0xd800) + (units[1] - 0xdc00)
        },
    decreases left.len(),
{
    vstd::utf8::char_is_scalar(c);
    vstd::utf8::char_u32_cast(c, c as u32);
    assert(seq![c].drop_first() =~= seq![]);
    assert(encode_utf16(seq![c].drop_first()) =~= seq![]);
    if left.len() == 0 {
        assert(left + right =~= right);
        assert(encode_utf16(left) + encode_utf16(right) =~= encode_utf16(right));
    } else {
        assert((left + right).drop_first() =~= left.drop_first() + right);
        utf16_writes_characters_one_by_one(left.drop_first(), right, c);
        assert(encode_utf16(left + right) =~= encode_utf16(left) + encode_utf16(right));
    }
}

/// Units are read as UTF-16 exactly where some text is written by these units, and then as that
/// text.
pub proof fn only_utf16_is_read_as_utf16(units: Seq<u16>)
    ensures
        match decode_utf16(units) {
            Some(text) => encode_utf16(text) == units,
            None => forall|text: Seq<char>| #[trigger] encode_utf16(text) != units,
        },
{
    match decode_utf16(units) {
        None => {
            assert forall|text: Seq<char>| #[trigger] encode_utf16(text) != units by {
                lemma_decode_encode_utf16(text);
            }
        },
        Some(text) => {
            lemma_encode_decode_utf16(units, text);
        },
    }
}

proof fn lemma_encode_decode_utf16(units: Seq<u16>, text: Seq<char>)
    requires
        decode_utf16(units) == Some(text),
    ensures
        encode_utf16(text) == units,
    decreases units.len(),
{
    if units.len() == 0 {
        assert(encode_utf16(text) =~= units);
    } else if !is_high_surrogate(units[0]) && !is_low_surrogate(units[0]) {
        let rest = decode_utf16(units.drop_first())->0;
        lemma_encode_decode_utf16(units.drop_first(), rest);
        assert(text.drop_first() =~= rest);
        vstd::utf8::char_is_scalar(text[0]);
        assert(text[0] as int == units[0]);
        assert(encode_utf16(text) =~= units);
    } else {
        let rest = decode_utf16(units.skip(2))->0;
        lemma_encode_decode_utf16(units.skip(2), rest);
        assert(text.drop_first() =~= rest);
        let code = 0x10000 + 0x400 * (units[0] - 0xd800) + (units[1] - 0xdc00);
        assert(0x10000 <= code <= 0x10ffff);
        assert(text[0] == code as char);
        assert(text[0] as int == code);
        assert(encode_utf16(text) =~= units);
    }
}

} // verus!
