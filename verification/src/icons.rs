//! Typed icon-font glyphs and the codepoints the library names.

use vstd::prelude::*;

verus! {

/// A typed icon identifier wrapping a Bootstrap Icons codepoint.
#[derive(Debug, Clone, Copy, PartialEq, Eq, Structural)]
pub struct Icon(pub char);

impl Icon {
    /// Raw codepoint of the glyph.
    pub fn char(self) -> (c: char)
        ensures
            c == self.0,
    {
        self.0
    }
}

/// A typed icon identifier wrapping a Bitwarden icon-font codepoint.
#[derive(Debug, Clone, Copy, PartialEq, Eq, Structural)]
pub struct BwiIcon(pub char);

impl BwiIcon {
    /// Raw codepoint of the glyph.
    pub fn char(self) -> (c: char)
        ensures
            c == self.0,
    {
        self.0
    }
}

// Bootstrap Icons codepoints used by the library (bootstrap-icons 1.13.1).
// Wrap in `Icon(..)` at the use site.
pub const INFO_CIRCLE_FILL: char = '\u{f430}';
pub const CHECK_CIRCLE_FILL: char = '\u{f26a}';
pub const EXCLAMATION_TRIANGLE_FILL: char = '\u{f33a}';
pub const X_CIRCLE_FILL: char = '\u{f622}';

// Bitwarden icon-font codepoints. Wrap in `BwiIcon(..)` at the use site.
pub const BWI_VAULT: char = '\u{f106}';
pub const BWI_USER: char = '\u{f107}';
pub const BWI_SEND: char = '\u{f119}';
pub const BWI_GENERATE: char = '\u{f138}';
pub const BWI_IMPORT: char = '\u{f108}';
pub const BWI_DOWNLOAD: char = '\u{f146}';
pub const BWI_STAR: char = '\u{f110}';
pub const BWI_LOGIN: char = '\u{f12a}';
pub const BWI_CREDIT_CARD: char = '\u{f14d}';
pub const BWI_IDENTITY: char = '\u{f132}';
pub const BWI_NOTE: char = '\u{f123}';
pub const BWI_KEY: char = '\u{f130}';
pub const BWI_ARCHIVE: char = '\u{f167}';
pub const BWI_TRASH: char = '\u{f14b}';
pub const BWI_ANGLE_LEFT: char = '\u{f16b}';
pub const BWI_ANGLE_RIGHT: char = '\u{f16a}';
pub const BWI_ANGLE_DOWN: char = '\u{f16c}';
pub const BWI_ANGLE_UP: char = '\u{f168}';
pub const BWI_COPY: char = '\u{f14e}';
pub const BWI_CLOSE: char = '\u{f151}';
pub const BWI_EXTERNAL_LINK: char = '\u{f13e}';
pub const BWI_EYE: char = '\u{f104}';
pub const BWI_EYE_SLASH: char = '\u{f105}';
pub const BWI_EDIT: char = '\u{f142}';
pub const BWI_LOCK: char = '\u{f12b}';
pub const BWI_HANDSHAKE: char = '\u{f135}';

} // verus!
