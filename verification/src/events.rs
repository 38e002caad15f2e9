//! Terminal input: the bytes that an SSH client sends for one key press, and
//! the key that they stand for.
use vstd::prelude::*;
use vstd::utf8::{decode_utf8, valid_utf8};

verus! {

/// A key press, as read from the raw bytes of a terminal.
#[allow(clippy::upper_case_acronyms)]
#[derive(Debug, Clone, PartialEq, Eq)]
pub enum Keypress {
    Null,
    Control(char),
    StartOfHeader,
    StartOfText,
    EndOfText,
    EndOfTransmission,
    Enquiry,
    Acknowledge,
    Bell,
    Backspace,
    HorizontalTab,
    Enter,
    VerticalTab,
    Formfeed,
    ShiftOut,
    ShiftIn,
    DLE,
    XON,
    DC2,
    XOFF,
    DC4,
    NAK,
    SYN,
    ETB,
    Cancel,
    EM,
    Substitute,
    Escape,
    FS,
    GS,
    RS,
    US,
    Delete,
    Printable(char),
    CursorUp,
    CursorDown,
    CursorRight,
    CursorLeft,
    CursorHome,
    Unknown(Vec<u8>),
}

/// The key of a single control byte, for every first byte that is neither
/// `ESC` (0x1b) nor printable.
pub open spec fn control_key(b: u8) -> Option<Keypress> {
    if b == 0x00 { Some(Keypress::Null) }
    else if b == 0x01 { Some(Keypress::StartOfHeader) }
    else if b == 0x02 { Some(Keypress::Control('b')) }
    else if b == 0x03 { Some(Keypress::EndOfText) }
    else if b == 0x04 { Some(Keypress::EndOfTransmission) }
    else if b == 0x05 { Some(Keypress::Enquiry) }
    else if b == 0x06 { Some(Keypress::Control('f')) }
    else if b == 0x07 { Some(Keypress::Bell) }
    else if b == 0x08 { Some(Keypress::Backspace) }
    else if b == 0x09 { Some(Keypress::HorizontalTab) }
    else if b == 0x0A || b == 0x0D { Some(Keypress::Enter) }
    else if b == 0x0B { Some(Keypress::VerticalTab) }
    else if b == 0x0C { Some(Keypress::Formfeed) }
    else if b == 0x0E { Some(Keypress::ShiftOut) }
    else if b == 0x0F { Some(Keypress::ShiftIn) }
    else if b == 0x10 { Some(Keypress::DLE) }
    else if b == 0x11 { Some(Keypress::XON) }
    else if b == 0x12 { Some(Keypress::DC2) }
    else if b == 0x13 { Some(Keypress::XOFF) }
    else if b == 0x14 { Some(Keypress::DC4) }
    else if b == 0x15 { Some(Keypress::NAK) }
    else if b == 0x16 { Some(Keypress::SYN) }
    else if b == 0x17 { Some(Keypress::ETB) }
    else if b == 0x18 { Some(Keypress::Cancel) }
    else if b == 0x19 { Some(Keypress::EM) }
    else if b == 0x1A { Some(Keypress::Substitute) }
    else if b == 0x1C { Some(Keypress::FS) }
    else if b == 0x1D { Some(Keypress::GS) }
    else if b == 0x1E { Some(Keypress::RS) }
    else if b == 0x1F { Some(Keypress::US) }
    else if b == 0x7F { Some(Keypress::Delete) }
    else { None }
}

/// The key of an escape sequence `data` (its first byte is `ESC`); `None`
/// stands for `Unknown(data)`.
pub open spec fn escape_key(data: Seq<u8>) -> Option<Keypress> {
    if data.len() == 1 {
        Some(Keypress::Escape)
    } else if data[1] != 0x5b {
        None
    } else if data.len() != 3 {
        None
    } else if data[2] == 0x41 {
        Some(Keypress::CursorUp)
    } else if data[2] == 0x42 {
        Some(Keypress::CursorDown)
    } else if data[2] == 0x43 {
        Some(Keypress::CursorRight)
    } else if data[2] == 0x44 {
        Some(Keypress::CursorLeft)
    } else if data[2] == 0x48 {
        Some(Keypress::CursorHome)
    } else {
        None
    }
}

/// The first byte of `data` is printable: neither `ESC` nor a control byte.
pub open spec fn is_printable_start(data: Seq<u8>) -> bool {
    data[0] != 0x1b && control_key(data[0]) is None
}

/// The key that `data` stands for; `None` stands for `Unknown(data)`.
pub open spec fn key_of(data: Seq<u8>) -> Option<Keypress> {
    if data[0] == 0x1b {
        escape_key(data)
    } else if control_key(data[0]) is Some {
        control_key(data[0])
    } else {
        Some(Keypress::Printable(decode_utf8(data)[0]))
    }
}

/// The input that a key press can be read from: at least one byte, and valid
/// UTF-8 where the first byte is printable.
pub open spec fn readable_input(data: Seq<u8>) -> bool {
    data.len() > 0 && (is_printable_start(data) ==> valid_utf8(data))
}

/// `std::str::from_utf8`, turned into an owned string: `Some` exactly when
/// the bytes are valid UTF-8, and then the characters that they encode.
#[verifier::external_body]
pub(crate) fn utf8_text(data: &[u8]) -> (r: Option<String>)
    ensures
        match r {
            Some(s) => valid_utf8(data@) && s@ == decode_utf8(data@),
            None => !valid_utf8(data@),
        },
{
    std::str::from_utf8(data).ok().map(|s| s.to_string())
}

fn control(b: u8) -> (k: Option<Keypress>)
    ensures
        k == control_key(b),
{
    match b {
        0x00 => Some(Keypress::Null),
        0x01 => Some(Keypress::StartOfHeader),
        0x02 => Some(Keypress::Control('b')),
        0x03 => Some(Keypress::EndOfText),
        0x04 => Some(Keypress::EndOfTransmission),
        0x05 => Some(Keypress::Enquiry),
        0x06 => Some(Keypress::Control('f')),
        0x07 => Some(Keypress::Bell),
        0x08 => Some(Keypress::Backspace),
        0x09 => Some(Keypress::HorizontalTab),
        0x0A | 0x0D => Some(Keypress::Enter),
        0x0B => Some(Keypress::VerticalTab),
        0x0C => Some(Keypress::Formfeed),
        0x0E => Some(Keypress::ShiftOut),
        0x0F => Some(Keypress::ShiftIn),
        0x10 => Some(Keypress::DLE),
        0x11 => Some(Keypress::XON),
        0x12 => Some(Keypress::DC2),
        0x13 => Some(Keypress::XOFF),
        0x14 => Some(Keypress::DC4),
        0x15 => Some(Keypress::NAK),
        0x16 => Some(Keypress::SYN),
        0x17 => Some(Keypress::ETB),
        0x18 => Some(Keypress::Cancel),
        0x19 => Some(Keypress::EM),
        0x1A => Some(Keypress::Substitute),
        0x1C => Some(Keypress::FS),
        0x1D => Some(Keypress::GS),
        0x1E => Some(Keypress::RS),
        0x1F => Some(Keypress::US),
        0x7F => Some(Keypress::Delete),
        _ => None,
    }
}

/// Reads an escape sequence: a lone `ESC`, or `ESC [` and one of `A B C D H`
/// for the cursor keys; anything else is `Unknown`.
pub fn parse_escape(data: &[u8]) -> (k: Keypress)
    requires
        data@.len() > 0,
        data@[0] == 0x1b,
    ensures
        match escape_key(data@) {
            Some(e) => k == e,
            None => k matches Keypress::Unknown(b) && b@ == data@,
        },
{
    if data.len() == 1 {
        return Keypress::Escape;
    }
    if data[1] != 0x5b {
        return Keypress::Unknown(vstd::slice::slice_to_vec(data));
    }
    if data.len() != 3 {
        return Keypress::Unknown(vstd::slice::slice_to_vec(data));
    }
    match data[2] {
        0x41 => Keypress::CursorUp,
        0x42 => Keypress::CursorDown,
        0x43 => Keypress::CursorRight,
        0x44 => Keypress::CursorLeft,
        0x48 => Keypress::CursorHome,
        _ => Keypress::Unknown(vstd::slice::slice_to_vec(data)),
    }
}

impl Keypress {
    /// The key that the bytes of one read stand for.
    pub fn from_bytes(data: &[u8]) -> (k: Keypress)
        requires
            readable_input(data@),
        ensures
            match key_of(data@) {
                Some(e) => k == e,
                None => k matches Keypress::Unknown(b) && b@ == data@,
            },
    {
        if data[0] == 0x1b {
            return parse_escape(data);
        }
        match control(data[0]) {
            Some(k) => k,
            None => {
                let text = utf8_text(data);
                let s = text.unwrap();
                let ghost bytes = data@;
                assert(decode_utf8(bytes) == seq![
                    vstd::utf8::decode_first_scalar(bytes) as char,
                ] + decode_utf8(vstd::utf8::pop_first_scalar(bytes)));
                let chars = crate::text::to_chars(s.as_str());
                Keypress::Printable(chars[0])
            },
        }
    }

    /// The key of the bytes of one read, or `None` where they cannot be read
    /// as one: no bytes at all, or invalid UTF-8 after a printable first byte.
    pub fn try_from_bytes(data: &[u8]) -> (k: Option<Keypress>)
        ensures
            k is Some <==> readable_input(data@),
            readable_input(data@) ==> match key_of(data@) {
                Some(e) => k == Some(e),
                None => k matches Some(Keypress::Unknown(b)) && b@ == data@,
            },
    {
        if data.len() == 0 {
            return None;
        }
        if data[0] != 0x1b && control(data[0]).is_none() {
            if utf8_text(data).is_none() {
                return None;
            }
        }
        Some(Keypress::from_bytes(data))
    }
}

/// One read from the terminal: the key that it stands for and its bytes.
#[derive(Debug, Clone)]
pub struct Input {
    pub key: Keypress,
    raw: Vec<u8>,
}

impl Input {
    /// The bytes of the read.
    pub closed spec fn bytes(self) -> Seq<u8> {
        self.raw@
    }

    /// The key of the read.
    pub closed spec fn pressed(self) -> Keypress {
        self.key
    }

    /// Wraps the bytes of one read with the key that they stand for.
    pub fn from_bytes(data: &[u8]) -> (i: Input)
        requires
            readable_input(data@),
        ensures
            i.bytes() == data@,
            match key_of(data@) {
                Some(e) => i.pressed() == e,
                None => i.pressed() matches Keypress::Unknown(b) && b@ == data@,
            },
    {
        Input { key: Keypress::from_bytes(data), raw: vstd::slice::slice_to_vec(data) }
    }

    /// The key of the read.
    pub fn key(&self) -> (k: &Keypress)
        ensures
            *k == self.pressed(),
    {
        &self.key
    }

    /// The bytes of the read.
    pub fn raw(&self) -> (r: &[u8])
        ensures
            r@ == self.bytes(),
    {
        self.raw.as_slice()
    }
}

/// The ANSI cursor sequences read as their keys: `ESC [` then `A`, `B`,
/// `C`, `D` or `H` is the cursor up, down, right, left or home key.
pub proof fn law_cursor_sequences()
    ensures
        key_of(seq![0x1bu8, 0x5bu8, 0x41u8]) == Some(Keypress::CursorUp),
        key_of(seq![0x1bu8, 0x5bu8, 0x42u8]) == Some(Keypress::CursorDown),
        key_of(seq![0x1bu8, 0x5bu8, 0x43u8]) == Some(Keypress::CursorRight),
        key_of(seq![0x1bu8, 0x5bu8, 0x44u8]) == Some(Keypress::CursorLeft),
        key_of(seq![0x1bu8, 0x5bu8, 0x48u8]) == Some(Keypress::CursorHome),
{
}

/// `ESC` alone is the escape key, and `ESC [` followed by any other final
/// byte is no known key.
pub proof fn law_escape_alone_and_unknown_sequences(b: u8)
    ensures
        key_of(seq![0x1bu8]) == Some(Keypress::Escape),
        !(b == 0x41 || b == 0x42 || b == 0x43 || b == 0x44 || b == 0x48) ==> key_of(seq![0x1bu8, 0x5bu8, b]) is None,
{
}

} // verus!
