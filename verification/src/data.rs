//! Data on its way into and out of a transfer.

use std::string::{FromUtf16Error, FromUtf8Error};
use vstd::prelude::*;
use vstd::string::StrSliceExecFns;
use vstd::utf8::{decode_utf8, encode_utf8, valid_utf8};
use crate::bytes::{units_of, ByteOrder};
use crate::error::TextError;
use crate::hint::{HintView, TypeHint};
use crate::selection::{SelectionType, SelectionTypeView};
use crate::text::{decode_utf16, decode_utf16_bytes, encode_uri_list, encode_utf16, is_listable};
use crate::text::{split_uris, texts, uri_list_bytes, uris_of, utf16_error, utf8_error};

verus! {

/// Data that has been received, with its type.
#[derive(Debug)]
pub struct SelectionReader {
    type_: SelectionType,
    data: Vec<u8>,
}

/// What a [`SelectionReader`] holds.
pub struct ReaderView {
    pub type_: SelectionTypeView,
    pub data: Seq<u8>,
}

/// What reading data as text gives.
pub enum TextView {
    Text(Seq<char>),
    WrongType,
    InvalidUtf8(FromUtf8Error),
    InvalidUtf16(FromUtf16Error),
}

/// What the result of reading text says.
pub open spec fn text_view(text: Result<String, TextError>) -> TextView {
    match text {
        Ok(text) => TextView::Text(text@),
        Err(TextError::WrongType) => TextView::WrongType,
        Err(TextError::InvalidUtf8(error)) => TextView::InvalidUtf8(error),
        Err(TextError::InvalidUtf16(error)) => TextView::InvalidUtf16(error),
    }
}

/// What reading data as a list of URIs gives.
pub enum UrisView {
    Uris(Seq<Seq<char>>),
    WrongType,
    InvalidUtf8(FromUtf8Error),
    InvalidUtf16(FromUtf16Error),
}

/// What the result of reading a list of URIs says.
pub open spec fn uris_view(uris: Result<Vec<String>, TextError>) -> UrisView {
    match uris {
        Ok(uris) => UrisView::Uris(texts(uris@)),
        Err(TextError::WrongType) => UrisView::WrongType,
        Err(TextError::InvalidUtf8(error)) => UrisView::InvalidUtf8(error),
        Err(TextError::InvalidUtf16(error)) => UrisView::InvalidUtf16(error),
    }
}

impl ReaderView {
    /// What the data says as text, on a machine with the given byte order. Plain text and HTML
    /// are read as UTF-8, and as UTF-16 where they are not UTF-8. A list of URIs is UTF-8. No
    /// other data is text.
    pub open spec fn text(self, order: ByteOrder) -> TextView {
        match self.type_.hint {
            Some(HintView::Plaintext) | Some(HintView::Html) => {
                if valid_utf8(self.data) {
                    TextView::Text(decode_utf8(self.data))
                } else {
                    match decode_utf16(units_of(self.data, order)) {
                        Some(text) => TextView::Text(text),
                        None => TextView::InvalidUtf16(utf16_error(units_of(self.data, order))),
                    }
                }
            },
            Some(HintView::UriList) => {
                if valid_utf8(self.data) {
                    TextView::Text(decode_utf8(self.data))
                } else {
                    TextView::InvalidUtf8(utf8_error(self.data))
                }
            },
            _ => TextView::WrongType,
        }
    }

    /// The URIs that the data lists. Only data of that type is read as such.
    pub open spec fn uris(self) -> UrisView {
        if self.type_.hint != Some(HintView::UriList) {
            UrisView::WrongType
        } else if valid_utf8(self.data) {
            UrisView::Uris(uris_of(decode_utf8(self.data)))
        } else {
            UrisView::InvalidUtf8(utf8_error(self.data))
        }
    }
}

impl View for SelectionReader {
    type V = ReaderView;

    closed spec fn view(&self) -> ReaderView {
        ReaderView { type_: self.type_@, data: self.data@ }
    }
}

impl SelectionReader {
    /// Data of the given type.
    pub fn new(type_: SelectionType, data: Vec<u8>) -> (reader: SelectionReader)
        ensures
            reader@ == (ReaderView { type_: type_@, data: data@ }),
    {
        SelectionReader { type_, data }
    }

    /// The bytes of the data, which are always there to be read.
    pub fn try_read(&self) -> (bytes: Option<Vec<u8>>)
        ensures
            bytes is Some,
            bytes->0@ == self@.data,
    {
        let bytes = self.data.clone();
        assert(bytes@ =~= self.data@);
        Some(bytes)
    }

    /// The type of the data.
    pub fn type_(&self) -> (type_: &SelectionType)
        ensures
            type_@ == self@.type_,
    {
        &self.type_
    }

    /// Reads the data as text, in the byte order of this machine. Where the data is UTF-8, the
    /// order makes no difference.
    pub fn try_as_string(&self) -> (text: Result<String, TextError>)
        ensures
            text_view(text) == self@.text(ByteOrder::of_machine()),
    {
        self.as_string_in(ByteOrder::native())
    }

    /// Reads the data as text that comes from a machine with the given byte order.
    pub fn as_string_in(&self, order: ByteOrder) -> (text: Result<String, TextError>)
        ensures
            text_view(text) == self@.text(order),
    {
        match self.type_.hint() {
            Some(TypeHint::Plaintext) | Some(TypeHint::Html) => {
                match std::str::from_utf8(self.data.as_slice()) {
                    Ok(text) => Ok(text.to_owned()),
                    Err(_) => match decode_utf16_bytes(&self.data, order) {
                        Ok(text) => Ok(text),
                        Err(error) => Err(TextError::InvalidUtf16(error)),
                    },
                }
            },
            Some(TypeHint::UriList) => {
                let bytes = self.data.clone();
                assert(bytes@ =~= self.data@);
                match String::from_utf8(bytes) {
                    Ok(text) => Ok(text),
                    Err(error) => Err(TextError::InvalidUtf8(error)),
                }
            },
            _ => Err(TextError::WrongType),
        }
    }

    /// Reads the data as a list of URIs.
    pub fn try_as_uris(&self) -> (uris: Result<Vec<String>, TextError>)
        ensures
            uris_view(uris) == self@.uris(),
    {
        if !self.type_.has_hint(TypeHint::UriList) {
            return Err(TextError::WrongType);
        }
        match self.try_as_string() {
            Ok(text) => Ok(split_uris(text.as_str())),
            Err(error) => Err(error),
        }
    }
}

/// Data that the owner of a clipboard supplies for a type.
#[derive(Debug)]
pub enum SendData {
    /// A list of URIs.
    Uris(Vec<String>),
    /// Text.
    String(String),
    /// Bytes in the format that the type calls for.
    Bytes(Vec<u8>),
    /// A kind of data that this library does not know how to send.
    Unknown,
}

/// What a [`SendData`] says.
pub enum SendView {
    Uris(Seq<Seq<char>>),
    String(Seq<char>),
    Bytes(Seq<u8>),
    Unknown,
}

impl View for SendData {
    type V = SendView;

    open spec fn view(&self) -> SendView {
        match self {
            SendData::Uris(uris) => SendView::Uris(texts(uris@)),
            SendData::String(text) => SendView::String(text@),
            SendData::Bytes(bytes) => SendView::Bytes(bytes@),
            SendData::Unknown => SendView::Unknown,
        }
    }
}

impl SendView {
    /// The bytes that go over the wire, if the data can be sent.
    pub open spec fn wire_bytes(self) -> Option<Seq<u8>> {
        match self {
            SendView::Uris(uris) => Some(uri_list_bytes(uris)),
            SendView::String(text) => Some(encode_utf8(text)),
            SendView::Bytes(bytes) => Some(bytes),
            SendView::Unknown => None,
        }
    }
}

impl SendData {
    /// The bytes that go over the wire, if the data can be sent.
    pub fn into_wire_bytes(self) -> (bytes: Option<Vec<u8>>)
        ensures
            match self@.wire_bytes() {
                Some(wire) => bytes is Some && bytes->0@ == wire,
                None => bytes is None,
            },
    {
        match self {
            SendData::Uris(uris) => Some(encode_uri_list(&uris)),
            SendData::String(text) => Some(text.as_str().as_bytes_vec()),
            SendData::Bytes(bytes) => Some(bytes),
            SendData::Unknown => None,
        }
    }
}

/// Text that was sent is read back as it was, under every type that is text, on a machine of
/// either byte order.
pub proof fn sent_text_is_read_back(text: Seq<char>, type_: SelectionTypeView, order: ByteOrder)
    requires
        type_.hint == Some(HintView::Plaintext) || type_.hint == Some(HintView::Html)
            || type_.hint == Some(HintView::UriList),
    ensures
        (ReaderView { type_, data: SendView::String(text).wire_bytes()->0 }).text(order)
            == TextView::Text(text),
{
    vstd::utf8::encode_utf8_valid_utf8(text);
    vstd::utf8::encode_utf8_decode_utf8(text);
}

/// URIs that were sent are read back as they were. It holds of URIs that are not empty and have
/// no line break in them; the format has no way to write others.
pub proof fn sent_uris_are_read_back(uris: Seq<Seq<char>>, type_: SelectionTypeView)
    requires
        type_.hint == Some(HintView::UriList),
        forall|i: int| 0 <= i < uris.len() ==> is_listable(#[trigger] uris[i]),
    ensures
        (ReaderView { type_, data: SendView::Uris(uris).wire_bytes()->0 }).uris()
            == UrisView::Uris(uris),
{
    crate::text::uri_list_is_read_back(uris);
}

/// The byte order of the machine makes no difference to data that is UTF-8, and none to data
/// that is not text.
pub proof fn byte_order_matters_to_utf16_only(reader: ReaderView)
    requires
        valid_utf8(reader.data) || (reader.type_.hint != Some(HintView::Plaintext)
            && reader.type_.hint != Some(HintView::Html)),
    ensures
        reader.text(ByteOrder::Little) == reader.text(ByteOrder::Big),
{
}

/// Data is read as a list of URIs exactly where it is a text of that type, and the list is what
/// the text splits into. Where it is no text, the error is the same.
pub proof fn uris_split_the_text(reader: ReaderView, order: ByteOrder)
    requires
        reader.type_.hint == Some(HintView::UriList),
    ensures
        match reader.text(order) {
            TextView::Text(text) => reader.uris() == UrisView::Uris(uris_of(text)),
            TextView::InvalidUtf8(error) => reader.uris() == UrisView::InvalidUtf8(error),
            _ => false,
        },
{
}

/// The type of the data decides how it is read. Data that is UTF-8 says the characters that it
/// encodes, under every type that is text. Where it is not UTF-8, plain text and HTML say the text
/// whose UTF-16 units they are; there is no such text, or the type is a list of URIs, exactly where
/// reading fails. Data of any other type is not read at all, be it what it may.
pub proof fn types_decide_how_data_is_read(reader: ReaderView, order: ByteOrder, text: Seq<char>)
    ensures
        ({
            let hint = reader.type_.hint;
            let lenient = hint == Some(HintView::Plaintext) || hint == Some(HintView::Html);
            let listing = hint == Some(HintView::UriList);
            let units = units_of(reader.data, order);
            &&& (lenient || listing) && reader.data == encode_utf8(text) ==> reader.text(order)
                == TextView::Text(text)
            &&& (lenient || listing) && valid_utf8(reader.data) ==> reader.text(order)
                == TextView::Text(decode_utf8(reader.data))
            &&& lenient && !valid_utf8(reader.data) && units == encode_utf16(text) ==> reader.text(
                order,
            ) == TextView::Text(text)
            &&& lenient && !valid_utf8(reader.data) && decode_utf16(units) is None ==> reader.text(
                order,
            ) == TextView::InvalidUtf16(utf16_error(units))
            &&& listing && !valid_utf8(reader.data) ==> reader.text(order)
                == TextView::InvalidUtf8(utf8_error(reader.data))
            &&& !lenient && !listing ==> reader.text(order) == TextView::WrongType
            &&& !listing ==> reader.uris() == UrisView::WrongType
            &&& listing && valid_utf8(reader.data) ==> reader.uris() == UrisView::Uris(
                uris_of(decode_utf8(reader.data)),
            )
            &&& listing && !valid_utf8(reader.data) ==> reader.uris() == UrisView::InvalidUtf8(
                utf8_error(reader.data),
            )
        }),
{
    vstd::utf8::encode_utf8_valid_utf8(text);
    vstd::utf8::encode_utf8_decode_utf8(text);
    crate::text::lemma_decode_encode_utf16(text);
}

/// What the result of a read says is what it holds: the text or the URIs, or the error with its
/// cause.
pub proof fn reads_say_what_they_hold(
    text: String,
    uris: Vec<String>,
    utf8: FromUtf8Error,
    utf16: FromUtf16Error,
)
    ensures
        text_view(Ok(text)) == TextView::Text(text@),
        text_view(Err(TextError::WrongType)) == TextView::WrongType,
        text_view(Err(TextError::InvalidUtf8(utf8))) == TextView::InvalidUtf8(utf8),
        text_view(Err(TextError::InvalidUtf16(utf16))) == TextView::InvalidUtf16(utf16),
        uris_view(Ok(uris)) == UrisView::Uris(texts(uris@)),
        uris_view(Err(TextError::WrongType)) == UrisView::WrongType,
        uris_view(Err(TextError::InvalidUtf8(utf8))) == UrisView::InvalidUtf8(utf8),
        uris_view(Err(TextError::InvalidUtf16(utf16))) == UrisView::InvalidUtf16(utf16),
{
}

/// What is sent is what was supplied: bytes as they are, text as its UTF-8 bytes, URIs as the bytes
/// of their list. Only data of an unknown kind is not sent.
pub proof fn supplied_data_is_sent(data: SendData)
    ensures
        match data {
            SendData::Bytes(bytes) => data@.wire_bytes() == Some(bytes@),
            SendData::String(text) => {
                &&& data@.wire_bytes() is Some
                &&& valid_utf8(data@.wire_bytes()->0)
                &&& decode_utf8(data@.wire_bytes()->0) == text@
                &&& data@.wire_bytes() == Some(encode_utf8(text@))
            },
            SendData::Uris(uris) => data@.wire_bytes() == Some(uri_list_bytes(texts(uris@))),
            SendData::Unknown => data@.wire_bytes() is None,
        },
{
    if let SendData::String(text) = data {
        vstd::utf8::encode_utf8_valid_utf8(text@);
        vstd::utf8::encode_utf8_decode_utf8(text@);
    }
}

/// The same of what supplied data says: no byte and no character is lost or added on the way.
pub proof fn said_data_is_sent(bytes: Seq<u8>, text: Seq<char>, uris: Seq<Seq<char>>)
    ensures
        SendView::Bytes(bytes).wire_bytes() == Some(bytes),
        SendView::String(text).wire_bytes() == Some(encode_utf8(text)),
        SendView::Uris(uris).wire_bytes() == Some(uri_list_bytes(uris)),
        SendView::Unknown.wire_bytes() is None,
{
}

} // verus!
