//! The atoms that the transfer protocols name.

use vstd::prelude::*;
use crate::protocol::Atom;

verus! {

/// The numbers that the X server gave to the names that the transfer protocols use.
#[derive(Debug, Clone, Copy, PartialEq, Eq)]
pub struct Atoms {
    /// `None`, the action of a client that does not take the data
    pub none: Atom,
    /// `CLIPBOARD`
    pub clipboard: Atom,
    /// `TARGETS`
    pub targets: Atom,
    /// `TIMESTAMP`
    pub timestamp: Atom,
    /// `INCR`
    pub incr: Atom,
    /// `XdndActionCopy`
    pub xdnd_action_copy: Atom,
    /// `XdndFinished`
    pub xdnd_finished: Atom,
    /// `XdndStatus`
    pub xdnd_status: Atom,
    /// `XdndSelection`
    pub xdnd_selection: Atom,
    /// `XdndTypeList`
    pub xdnd_type_list: Atom,
    /// `text/uri-list`
    pub text_uri_list: Atom,
    /// `STRING`
    pub string: Atom,
    /// `UTF8_STRING`
    pub utf8_string: Atom,
    /// `text/plain`
    pub text_plain: Atom,
    /// `text/plain;charset=utf-8`
    pub text_plain_charset_utf8: Atom,
    /// `text/html`
    pub text_html: Atom,
    /// `text/html;charset=utf-8`
    pub text_html_charset_utf8: Atom,
    /// `application/rtf`
    pub application_rtf: Atom,
    /// `audio/aac`
    pub audio_aac: Atom,
    /// `audio/aiff`
    pub audio_aiff: Atom,
    /// `audio/flac`
    pub audio_flac: Atom,
    /// `audio/vnd.wav`
    pub audio_vnd_wav: Atom,
    /// `audio/vnd.wave`
    pub audio_vnd_wave: Atom,
    /// `audio/wav`
    pub audio_wav: Atom,
    /// `audio/wave`
    pub audio_wave: Atom,
    /// `audio/x-wav`
    pub audio_x_wav: Atom,
    /// `audio/ogg`
    pub audio_ogg: Atom,
    /// `audio/mpeg`
    pub audio_mpeg: Atom,
    /// `image/bmp`
    pub image_bmp: Atom,
    /// `image/gif`
    pub image_gif: Atom,
    /// `image/jpeg`
    pub image_jpeg: Atom,
    /// `image/pjpeg`
    pub image_pjpeg: Atom,
    /// `image/png`
    pub image_png: Atom,
    /// `image/raw`
    pub image_raw: Atom,
    /// `image/svg+xml`
    pub image_svg: Atom,
    /// `image/tiff`
    pub image_tiff: Atom,
    /// `image/webp`
    pub image_webp: Atom,
    /// `image/x-icon`
    pub image_x_icon: Atom,
}

} // verus!
