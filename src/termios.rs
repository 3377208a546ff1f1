use vstd::prelude::*;
use crate::flags::{ControlModes, InputModes, LocalModes, OutputModes};

verus! {

/// The number of special control codes in the kernel's record.
pub const NCCS: usize = 19;

/// A position in the special-codes array; always below `NCCS`.
#[derive(Clone, Copy, Debug, PartialEq, Eq, Hash, Structural)]
pub struct SpecialCodeIndex {
    index: usize,
}

impl SpecialCodeIndex {
    /// `VINTR`: interrupt.
    pub const VINTR: usize = 0;

    /// `VQUIT`: quit.
    pub const VQUIT: usize = 1;

    /// `VERASE`: erase one character.
    pub const VERASE: usize = 2;

    /// `VKILL`: erase the line.
    pub const VKILL: usize = 3;

    /// `VEOF`: end of file.
    pub const VEOF: usize = 4;

    /// `VTIME`: read timeout, in tenths of a second, in non-canonical mode.
    pub const VTIME: usize = 5;

    /// `VMIN`: minimum byte count of a read in non-canonical mode.
    pub const VMIN: usize = 6;

    /// `VSWTC`: switch character.
    pub const VSWTC: usize = 7;

    /// `VSTART`: restart output.
    pub const VSTART: usize = 8;

    /// `VSTOP`: stop output.
    pub const VSTOP: usize = 9;

    /// `VSUSP`: suspend.
    pub const VSUSP: usize = 10;

    /// `VEOL`: end of line.
    pub const VEOL: usize = 11;

    /// `VREPRINT`: reprint the line.
    pub const VREPRINT: usize = 12;

    /// `VDISCARD`: discard pending output.
    pub const VDISCARD: usize = 13;

    /// `VWERASE`: erase one word.
    pub const VWERASE: usize = 14;

    /// `VLNEXT`: take the next character literally.
    pub const VLNEXT: usize = 15;

    /// `VEOL2`: second end of line.
    pub const VEOL2: usize = 16;

    #[verifier::type_invariant]
    spec fn in_bounds(self) -> bool {
        self.index < NCCS
    }

    /// The position.
    pub closed spec fn view(self) -> usize {
        self.index
    }

    /// Checks a raw position against the array's length: `None` for one
    /// at or past `NCCS`.
    pub fn new(index: usize) -> (r: Option<SpecialCodeIndex>)
        ensures
            r is Some <==> index < NCCS,
            r matches Some(i) ==> i@ == index,
    {
        if index < NCCS {
            Some(SpecialCodeIndex { index })
        } else {
            None
        }
    }

    /// The position.
    pub fn get(self) -> (r: usize)
        ensures
            r == self@,
            r < NCCS,
    {
        proof {
            use_type_invariant(self);
        }
        self.index
    }
}

/// The special control codes (`c_cc`), one byte per `SpecialCodeIndex`.
#[derive(Clone, Copy, Debug)]
pub struct SpecialCodes {
    codes: [u8; NCCS],
}

impl SpecialCodes {
    /// The codes in index order; always `NCCS` long.
    pub closed spec fn view(self) -> Seq<u8> {
        self.codes@
    }

    /// Every code set to zero.
    pub fn new() -> (r: SpecialCodes)
        ensures
            r@ == Seq::new(NCCS as nat, |i: int| 0u8),
    {
        let r = SpecialCodes { codes: [0u8; NCCS] };
        assert(r@ =~= Seq::new(NCCS as nat, |i: int| 0u8));
        r
    }

    /// Wraps a raw array of codes.
    pub fn from_array(codes: [u8; NCCS]) -> (r: SpecialCodes)
        ensures
            r@ == codes@,
    {
        SpecialCodes { codes }
    }

    /// The raw array of codes.
    pub fn to_array(&self) -> (r: [u8; NCCS])
        ensures
            r@ == self@,
    {
        self.codes
    }

    /// The code at `index`.
    pub fn index(&self, index: SpecialCodeIndex) -> (r: u8)
        ensures
            r == self@[index@ as int],
    {
        let i = index.get();
        self.codes[i]
    }

    /// Sets the code at `index` to `value`.
    pub fn set(&mut self, index: SpecialCodeIndex, value: u8)
        ensures
            final(self)@ == old(self)@.update(index@ as int, value),
    {
        let i = index.get();
        self.codes[i] = value;
    }

    /// The length of the array is `NCCS`.
    pub proof fn lemma_len(self)
        ensures
            self@.len() == NCCS,
    {
    }
}

/// The terminal's control state (`struct termios2`): four mode-flag sets,
/// the line discipline, the special codes and the two speed fields.
///
/// The named flag values, `NCCS` and the special-code positions of this
/// library are those of the generic Linux layout (x86, Arm, RISC-V, s390x,
/// LoongArch); MIPS and PowerPC number them otherwise.
#[derive(Clone, Copy, Debug)]
pub struct Termios {
    /// How input is interpreted (`c_iflag`).
    pub input_modes: InputModes,
    /// How output is translated (`c_oflag`).
    pub output_modes: OutputModes,
    /// Low-level configuration (`c_cflag`).
    pub control_modes: ControlModes,
    /// High-level configuration (`c_lflag`).
    pub local_modes: LocalModes,
    /// The line discipline (`c_line`).
    pub line_discipline: u8,
    /// The special control codes (`c_cc`).
    pub special_codes: SpecialCodes,
    /// The input speed in bits per second (`c_ispeed`).
    pub input_speed: u32,
    /// The output speed in bits per second (`c_ospeed`).
    pub output_speed: u32,
}

/// The content of a `Termios`, with each field as a plain value.
pub struct TermiosView {
    /// The input flags.
    pub input: u32,
    /// The output flags.
    pub output: u32,
    /// The control flags.
    pub control: u32,
    /// The local flags.
    pub local: u32,
    /// The line discipline.
    pub line: u8,
    /// The special codes, `NCCS` of them.
    pub codes: Seq<u8>,
    /// The input speed.
    pub input_speed: u32,
    /// The output speed.
    pub output_speed: u32,
}

impl Termios {
    /// The record's fields as plain values.
    pub open spec fn view(&self) -> TermiosView {
        TermiosView {
            input: self.input_modes@,
            output: self.output_modes@,
            control: self.control_modes@,
            local: self.local_modes@,
            line: self.line_discipline,
            codes: self.special_codes@,
            input_speed: self.input_speed,
            output_speed: self.output_speed,
        }
    }
}

/// When `tcsetattr` applies the new state (`TCSA*`).
#[derive(Clone, Copy, Debug, PartialEq, Eq, Hash, Structural)]
pub enum OptionalActions {
    /// `TCSANOW`: at once.
    Now,
    /// `TCSADRAIN`: once pending output has been sent.
    Drain,
    /// `TCSAFLUSH`: once pending output has been sent, discarding pending input.
    Flush,
}

impl OptionalActions {
    /// The raw value the kernel uses.
    pub open spec fn spec_raw(self) -> u32 {
        match self {
            OptionalActions::Now => 0,
            OptionalActions::Drain => 1,
            OptionalActions::Flush => 2,
        }
    }

    /// The selector's ordinal, as the kernel numbers it.
    pub fn raw(self) -> (r: u32)
        ensures
            r == self.spec_raw(),
    {
        match self {
            OptionalActions::Now => 0,
            OptionalActions::Drain => 1,
            OptionalActions::Flush => 2,
        }
    }
}

/// Which queue `tcflush` discards (`TC*FLUSH`).
#[derive(Clone, Copy, Debug, PartialEq, Eq, Hash, Structural)]
pub enum QueueSelector {
    /// `TCIFLUSH`: data received but not read.
    IFlush,
    /// `TCOFLUSH`: data written but not sent.
    OFlush,
    /// `TCIOFLUSH`: both.
    IOFlush,
}

impl QueueSelector {
    /// The raw value the kernel uses.
    pub open spec fn spec_raw(self) -> u32 {
        match self {
            QueueSelector::IFlush => 0,
            QueueSelector::OFlush => 1,
            QueueSelector::IOFlush => 2,
        }
    }

    /// The argument the kernel takes for this selector.
    pub fn raw(self) -> (r: u32)
        ensures
            r == self.spec_raw(),
    {
        match self {
            QueueSelector::IFlush => 0,
            QueueSelector::OFlush => 1,
            QueueSelector::IOFlush => 2,
        }
    }
}

/// What `tcflow` does (`TCOOFF`, `TCOON`, `TCIOFF`, `TCION`).
#[derive(Clone, Copy, Debug, PartialEq, Eq, Hash, Structural)]
pub enum Action {
    /// `TCOOFF`: suspend output.
    OOff,
    /// `TCOON`: restart suspended output.
    OOn,
    /// `TCIOFF`: send a STOP byte.
    IOff,
    /// `TCION`: send a START byte.
    IOn,
}

impl Action {
    /// The raw value the kernel uses.
    pub open spec fn spec_raw(self) -> u32 {
        match self {
            Action::OOff => 0,
            Action::OOn => 1,
            Action::IOff => 2,
            Action::IOn => 3,
        }
    }

    /// The argument the kernel takes for this action.
    pub fn raw(self) -> (r: u32)
        ensures
            r == self.spec_raw(),
    {
        match self {
            Action::OOff => 0,
            Action::OOn => 1,
            Action::IOff => 2,
            Action::IOn => 3,
        }
    }
}

/// The terminal's window size (`struct winsize`).
#[derive(Clone, Copy, Debug, PartialEq, Eq, Hash, Structural)]
pub struct Winsize {
    /// Rows, in characters.
    pub ws_row: u16,
    /// Columns, in characters.
    pub ws_col: u16,
    /// Width, in pixels.
    pub ws_xpixel: u16,
    /// Height, in pixels.
    pub ws_ypixel: u16,
}

} // verus!
