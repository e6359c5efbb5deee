//! Protocol codec: a pure, stateless mapping from printer operations to the
//! exact byte sequences understood by the device firmware.
//!
//! Every operation reduces to "prefix bytes selected by a fixed table,
//! optionally followed by a caller payload". The tables live here so that no
//! magic byte literal is scattered across call sites, and so that the wire
//! encoding can be checked against the device's command reference without a
//! live printer.

use vstd::prelude::*;

verus! {

/// Single-byte device control codes, defined once as a fixed table from
/// variant to literal byte value.
#[derive(Clone, Copy, Debug)]
pub enum ControlCharacters {
    CAN,
    DC4,
    DLE,
    ENQ,
    EOT,
    ESC,
    FS,
    GS,
    NUL,
}

impl ControlCharacters {
    /// The byte value of this control character.
    pub open spec fn spec_code(self) -> u8 {
        match self {
            ControlCharacters::CAN => 0x18,
            ControlCharacters::DC4 => 0x14,
            ControlCharacters::DLE => 0x10,
            ControlCharacters::ENQ => 0x05,
            ControlCharacters::EOT => 0x04,
            ControlCharacters::ESC => 0x1b,
            ControlCharacters::FS => 0x1c,
            ControlCharacters::GS => 0x1d,
            ControlCharacters::NUL => 0x00,
        }
    }

    /// Look this control character up in the byte table.
    pub fn code(&self) -> (r: u8)
        ensures
            r == self.spec_code(),
    {
        match self {
            ControlCharacters::CAN => 0x18,
            ControlCharacters::DC4 => 0x14,
            ControlCharacters::DLE => 0x10,
            ControlCharacters::ENQ => 0x05,
            ControlCharacters::EOT => 0x04,
            ControlCharacters::ESC => 0x1b,
            ControlCharacters::FS => 0x1c,
            ControlCharacters::GS => 0x1d,
            ControlCharacters::NUL => 0x00,
        }
    }
}

/// Cursor/format control codes.
///
/// The wire rendering chosen here, applied uniformly to every variant, is the
/// two-character hexadecimal code of the control character: line feed is sent
/// as the two ASCII bytes `"0A"`, form feed as `"0C"`, and so on.
#[derive(Clone, Copy, Debug)]
pub enum ControlSequence {
    LineFeed,
    FormFeed,
    CarriageReturn,
    HorizontalTab,
    VerticalTab,
}

impl ControlSequence {
    /// The two ASCII bytes that encode this control code on the wire.
    pub open spec fn spec_code(self) -> Seq<u8> {
        match self {
            ControlSequence::LineFeed => seq![0x30u8, 0x41u8],
            ControlSequence::FormFeed => seq![0x30u8, 0x43u8],
            ControlSequence::CarriageReturn => seq![0x30u8, 0x44u8],
            ControlSequence::HorizontalTab => seq![0x30u8, 0x39u8],
            ControlSequence::VerticalTab => seq![0x30u8, 0x42u8],
        }
    }

    /// Render this control code as its two-character hexadecimal form.
    pub fn code(&self) -> (r: Vec<u8>)
        ensures
            r@ == self.spec_code(),
    {
        let mut r: Vec<u8> = Vec::new();
        r.push(0x30);
        match self {
            ControlSequence::LineFeed => r.push(0x41),
            ControlSequence::FormFeed => r.push(0x43),
            ControlSequence::CarriageReturn => r.push(0x44),
            ControlSequence::HorizontalTab => r.push(0x39),
            ControlSequence::VerticalTab => r.push(0x42),
        }
        proof {
            assert(r@ =~= self.spec_code());
        }
        r
    }
}

/// Queryable printer status classes, each rendering to a distinct query byte
/// sequence.
#[derive(Clone, Copy, Debug, PartialEq, Eq, Structural)]
pub enum Status {
    Online,
    Paper,
}

/// The query bytes for a status class: the status prefix (end-of-transmission
/// byte, then data-link-escape byte) followed by the status-specific suffix
/// byte.
pub open spec fn spec_status_query(status: Status) -> Seq<u8> {
    match status {
        Status::Online => seq![
            ControlCharacters::EOT.spec_code(),
            ControlCharacters::DLE.spec_code(),
            0x01u8,
        ],
        Status::Paper => seq![
            ControlCharacters::EOT.spec_code(),
            ControlCharacters::DLE.spec_code(),
            0x04u8,
        ],
    }
}

impl Status {
    /// Render the query byte sequence for this status class.
    pub fn command(&self) -> (r: Vec<u8>)
        ensures
            r@ == spec_status_query(*self),
    {
        let mut r: Vec<u8> = Vec::new();
        r.push(ControlCharacters::EOT.code());
        r.push(ControlCharacters::DLE.code());
        match self {
            Status::Online => r.push(0x01),
            Status::Paper => r.push(0x04),
        }
        proof {
            assert(r@ =~= spec_status_query(*self));
        }
        r
    }
}

/// One printer operation, carrying at most one payload: free text for
/// `PrintText`, a status class for `QueryStatus`. Constructed per call and
/// rendered by [`Command::raw`]; never persisted.
#[derive(Debug)]
pub enum Command {
    CutPaper,
    Initialize,
    PrintText(String),
    QueryStatus(Status),
    Select,
}

/// The mathematical value of a [`Command`]: the `PrintText` payload as the
/// character sequence the caller supplied.
pub enum CommandModel {
    CutPaper,
    Initialize,
    PrintText(Seq<char>),
    QueryStatus(Status),
    Select,
}

impl View for Command {
    type V = CommandModel;

    open spec fn view(&self) -> CommandModel {
        match self {
            Command::CutPaper => CommandModel::CutPaper,
            Command::Initialize => CommandModel::Initialize,
            Command::PrintText(text) => CommandModel::PrintText(text@),
            Command::QueryStatus(status) => CommandModel::QueryStatus(*status),
            Command::Select => CommandModel::Select,
        }
    }
}

/// The exact byte sequence a command puts on the wire:
/// - `CutPaper`: the file-separator byte, then the literal `"V1"`;
/// - `Initialize`: the escape byte, then the literal `"@"`;
/// - `PrintText`: the line-feed control code, then the payload's UTF-8 bytes
///   verbatim (no escaping, no length limit);
/// - `QueryStatus`: the query bytes of the status class;
/// - `Select`: the escape byte, then the byte `0x01`.
pub open spec fn spec_render(c: CommandModel) -> Seq<u8> {
    match c {
        CommandModel::CutPaper => seq![ControlCharacters::FS.spec_code(), 0x56u8, 0x31u8],
        CommandModel::Initialize => seq![ControlCharacters::ESC.spec_code(), 0x40u8],
        CommandModel::PrintText(text) => ControlSequence::LineFeed.spec_code()
            + vstd::utf8::encode_utf8(text),
        CommandModel::QueryStatus(status) => spec_status_query(status),
        CommandModel::Select => seq![ControlCharacters::ESC.spec_code(), 0x01u8],
    }
}

impl Command {
    /// Render this command to its wire bytes. Rendering never fails: every
    /// operation, including arbitrary caller-supplied text, is representable.
    pub fn raw(&self) -> (r: Vec<u8>)
        ensures
            r@ == spec_render(self@),
    {
        match self {
            Command::CutPaper => {
                let mut r: Vec<u8> = Vec::new();
                r.push(ControlCharacters::FS.code());
                r.push(0x56);
                r.push(0x31);
                proof {
                    assert(r@ =~= spec_render(self@));
                }
                r
            }
            Command::Initialize => {
                let mut r: Vec<u8> = Vec::new();
                r.push(ControlCharacters::ESC.code());
                r.push(0x40);
                proof {
                    assert(r@ =~= spec_render(self@));
                }
                r
            }
            Command::PrintText(text) => {
                let mut r = ControlSequence::LineFeed.code();
                let bytes = text.as_str().as_bytes();
                let mut i: usize = 0;
                while i < bytes.len()
                    invariant
                        i <= bytes.len(),
                        bytes@ == vstd::utf8::encode_utf8(text@),
                        r@ == ControlSequence::LineFeed.spec_code()
                            + bytes@.subrange(0, i as int),
                    decreases bytes.len() - i,
                {
                    r.push(bytes[i]);
                    proof {
                        assert(r@ =~= ControlSequence::LineFeed.spec_code()
                            + bytes@.subrange(0, i + 1));
                    }
                    i = i + 1;
                }
                proof {
                    assert(bytes@.subrange(0, bytes@.len() as int) =~= bytes@);
                }
                r
            }
            Command::QueryStatus(status) => status.command(),
            Command::Select => {
                let mut r: Vec<u8> = Vec::new();
                r.push(ControlCharacters::ESC.code());
                r.push(0x01);
                proof {
                    assert(r@ =~= spec_render(self@));
                }
                r
            }
        }
    }
}

/// Rendering is pure and deterministic: the wire bytes are a function of the
/// command value alone, so two renderings of equal commands are byte-identical.
pub proof fn lemma_render_deterministic(a: CommandModel, b: CommandModel)
    requires
        a == b,
    ensures
        spec_render(a) == spec_render(b),
{
}

/// Bitmask values for interpreting a printer's status-response byte.
#[derive(Clone, Copy, Debug)]
pub enum StatusMask {
    Online,
    Paper,
    LowPaper,
    NoPaper,
}

impl StatusMask {
    /// The bitmask value of this status condition.
    pub open spec fn spec_mask(self) -> usize {
        match self {
            StatusMask::Online => 8,
            StatusMask::Paper => 18,
            StatusMask::LowPaper => 30,
            StatusMask::NoPaper => 114,
        }
    }

    /// Look this status condition up in the bitmask table.
    pub fn mask(&self) -> (r: usize)
        ensures
            r == self.spec_mask(),
    {
        match self {
            StatusMask::Online => 8,
            StatusMask::Paper => 18,
            StatusMask::LowPaper => 30,
            StatusMask::NoPaper => 114,
        }
    }
}

} // verus!
