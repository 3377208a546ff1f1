use vstd::prelude::*;
use crate::errno::Errno;
use crate::flags::{ControlModes, InputModes, LocalModes, OutputModes};
use crate::speed::{speed_rate, speed_value, Speed};
use crate::termios::{SpecialCodeIndex, SpecialCodes, Termios, TermiosView, NCCS};

verus! {

/// The input flags that raw mode clears.
pub const RAW_INPUT_CLEARED: u32 = InputModes::IGNBRK | InputModes::BRKINT | InputModes::PARMRK
    | InputModes::ISTRIP | InputModes::INLCR | InputModes::IGNCR | InputModes::ICRNL
    | InputModes::IXON;

/// The output flags that raw mode clears.
pub const RAW_OUTPUT_CLEARED: u32 = OutputModes::OPOST;

/// The local flags that raw mode clears.
pub const RAW_LOCAL_CLEARED: u32 = LocalModes::ECHO | LocalModes::ECHONL | LocalModes::ICANON
    | LocalModes::ISIG | LocalModes::IEXTEN;

/// The control flags that raw mode clears before it sets `CS8`.
pub const RAW_CONTROL_CLEARED: u32 = ControlModes::CSIZE | ControlModes::PARENB;

/// The state that raw mode makes of `t`: no input processing, no output
/// processing, no echo, canonical mode or signals, 8-bit characters without
/// parity, and reads that return after one byte with no timeout.
pub open spec fn raw_mode(t: TermiosView) -> TermiosView {
    TermiosView {
        input: t.input & !RAW_INPUT_CLEARED,
        output: t.output & !RAW_OUTPUT_CLEARED,
        control: (t.control & !RAW_CONTROL_CLEARED) | ControlModes::CS8,
        local: t.local & !RAW_LOCAL_CLEARED,
        line: t.line,
        codes: t.codes.update(SpecialCodeIndex::VMIN as int, 1u8).update(
            SpecialCodeIndex::VTIME as int,
            0u8,
        ),
        input_speed: t.input_speed,
        output_speed: t.output_speed,
    }
}

/// `t` with its control flags replaced by `control`.
pub open spec fn with_control(t: TermiosView, control: u32) -> TermiosView {
    TermiosView { control, ..t }
}

/// The control flags `control` with the baud field replaced by `code`.
pub open spec fn with_baud(control: u32, code: u32) -> u32 {
    (control & !ControlModes::CBAUD) | code
}

/// Whether `code` fits in the baud field of the control flags.
pub open spec fn fits_baud_field(code: u32) -> bool {
    code & !ControlModes::CBAUD == 0
}

/// The output speed: the baud field of the control flags.
pub fn cfgetospeed(termios: &Termios) -> (r: Speed)
    ensures
        r@ == termios.control_modes@ & ControlModes::CBAUD,
{
    let cbaud = ControlModes::from_bits_unchecked(ControlModes::CBAUD);
    Speed::from_raw(termios.control_modes.intersection(cbaud).bits())
}

/// The input speed: the baud field of the control flags, as for output.
pub fn cfgetispeed(termios: &Termios) -> (r: Speed)
    ensures
        r@ == termios.control_modes@ & ControlModes::CBAUD,
{
    let cbaud = ControlModes::from_bits_unchecked(ControlModes::CBAUD);
    Speed::from_raw(termios.control_modes.intersection(cbaud).bits())
}

/// Puts `termios` in raw mode: bytes pass through uninterpreted, one at a
/// time. Only the record changes; the terminal is untouched.
pub fn cfmakeraw(termios: &mut Termios)
    ensures
        final(termios)@ == raw_mode(old(termios)@),
{
    proof {
        termios.special_codes.lemma_len();
    }
    let input_cleared = InputModes::from_bits_unchecked(RAW_INPUT_CLEARED);
    termios.input_modes = termios.input_modes.difference(input_cleared);
    let output_cleared = OutputModes::from_bits_unchecked(RAW_OUTPUT_CLEARED);
    termios.output_modes = termios.output_modes.difference(output_cleared);
    let local_cleared = LocalModes::from_bits_unchecked(RAW_LOCAL_CLEARED);
    termios.local_modes = termios.local_modes.difference(local_cleared);
    let control_cleared = ControlModes::from_bits_unchecked(RAW_CONTROL_CLEARED);
    let cs8 = ControlModes::from_bits_unchecked(ControlModes::CS8);
    termios.control_modes = termios.control_modes.difference(control_cleared).union(cs8);

    let vmin = SpecialCodeIndex::new(SpecialCodeIndex::VMIN).unwrap();
    termios.special_codes.set(vmin, 1);
    let vtime = SpecialCodeIndex::new(SpecialCodeIndex::VTIME).unwrap();
    termios.special_codes.set(vtime, 0);
}

/// Writes `speed` into the baud field of the control flags, which the
/// caller has checked it fits.
fn set_baud_field(termios: &mut Termios, speed: Speed)
    requires
        fits_baud_field(speed@),
    ensures
        final(termios)@ == with_control(old(termios)@, with_baud(old(termios)@.control, speed@)),
        final(termios).control_modes@ & ControlModes::CBAUD == speed@,
{
    let cbaud = ControlModes::from_bits_unchecked(ControlModes::CBAUD);
    let code = ControlModes::from_bits_unchecked(speed.raw());
    termios.control_modes = termios.control_modes.difference(cbaud).union(code);
    let ghost c = old(termios).control_modes@;
    let ghost s = speed@;
    assert(((c & !0o10017u32) | s) & 0o10017u32 == s) by (bit_vector)
        requires
            s & !0o10017u32 == 0,
    ;
}

/// Sets the output speed. A code with bits outside the baud field is
/// refused with `EINVAL`, and the record is left as it was.
pub fn cfsetospeed(termios: &mut Termios, speed: Speed) -> (r: Result<(), Errno>)
    ensures
        r is Ok <==> fits_baud_field(speed@),
        r matches Err(e) ==> e@ == Errno::INVAL && *final(termios) == *old(termios),
        r is Ok ==> final(termios)@ == with_control(
            old(termios)@,
            with_baud(old(termios)@.control, speed@),
        ),
        r is Ok ==> final(termios).control_modes@ & ControlModes::CBAUD == speed@,
{
    if speed.raw() & !ControlModes::CBAUD != 0 {
        return Err(Errno::from_raw(Errno::INVAL));
    }
    set_baud_field(termios, speed);
    Ok(())
}

/// Sets the input speed. The zero code `B0` means "same as the output
/// speed" and changes nothing; any other code is handled as by
/// `cfsetospeed`.
pub fn cfsetispeed(termios: &mut Termios, speed: Speed) -> (r: Result<(), Errno>)
    ensures
        r is Ok <==> (speed@ == Speed::B0 || fits_baud_field(speed@)),
        speed@ == Speed::B0 ==> *final(termios) == *old(termios),
        r matches Err(e) ==> e@ == Errno::INVAL && *final(termios) == *old(termios),
        r is Ok && speed@ != Speed::B0 ==> final(termios)@ == with_control(
            old(termios)@,
            with_baud(old(termios)@.control, speed@),
        ),
        r is Ok ==> final(termios).control_modes@ & ControlModes::CBAUD == (if speed@ == Speed::B0 {
            old(termios).control_modes@ & ControlModes::CBAUD
        } else {
            speed@
        }),
{
    if speed.raw() == 0 {
        return Ok(());
    }
    if speed.raw() & !ControlModes::CBAUD != 0 {
        return Err(Errno::from_raw(Errno::INVAL));
    }
    set_baud_field(termios, speed);
    Ok(())
}

/// Sets both speeds, which share the baud field; refused as by
/// `cfsetospeed`.
pub fn cfsetspeed(termios: &mut Termios, speed: Speed) -> (r: Result<(), Errno>)
    ensures
        r is Ok <==> fits_baud_field(speed@),
        r matches Err(e) ==> e@ == Errno::INVAL && *final(termios) == *old(termios),
        r is Ok ==> final(termios)@ == with_control(
            old(termios)@,
            with_baud(old(termios)@.control, speed@),
        ),
        r is Ok ==> final(termios).control_modes@ & ControlModes::CBAUD == speed@,
{
    if speed.raw() & !ControlModes::CBAUD != 0 {
        return Err(Errno::from_raw(Errno::INVAL));
    }
    set_baud_field(termios, speed);
    Ok(())
}

/// The rate, in bits per second, that the baud field of `control` names,
/// or zero where the field holds a code outside the fixed table.
pub open spec fn baud_field_rate(control: u32) -> u32 {
    match speed_rate(control & ControlModes::CBAUD) {
        Some(rate) => rate,
        None => 0,
    }
}

/// Builds the record from the fields of the legacy kernel record, which
/// has no speed fields: both speeds are the rate of the baud field of the
/// control flags.
pub fn termios_from_legacy(
    input: u32,
    output: u32,
    control: u32,
    local: u32,
    line: u8,
    codes: [u8; NCCS],
) -> (r: Termios)
    ensures
        r@ == (TermiosView {
            input,
            output,
            control,
            local,
            line,
            codes: codes@,
            input_speed: baud_field_rate(control),
            output_speed: baud_field_rate(control),
        }),
{
    let control_modes = ControlModes::from_bits_unchecked(control);
    let mut termios = Termios {
        input_modes: InputModes::from_bits_unchecked(input),
        output_modes: OutputModes::from_bits_unchecked(output),
        control_modes,
        local_modes: LocalModes::from_bits_unchecked(local),
        line_discipline: line,
        special_codes: SpecialCodes::from_array(codes),
        input_speed: 0,
        output_speed: 0,
    };
    let rate = match speed_value(cfgetospeed(&termios)) {
        Some(rate) => rate,
        None => 0,
    };
    termios.input_speed = rate;
    termios.output_speed = rate;
    termios
}

/// Raw mode is idempotent: applying it to a state already in raw mode
/// changes nothing.
pub proof fn lemma_raw_mode_idempotent(termios: Termios)
    ensures
        raw_mode(raw_mode(termios@)) == raw_mode(termios@),
{
    let t = termios@;
    let once = raw_mode(t);
    let twice = raw_mode(once);
    termios.special_codes.lemma_len();
    let (i, o, c, l) = (t.input, t.output, t.control, t.local);
    assert(RAW_INPUT_CLEARED == 0x5ebu32) by (bit_vector);
    assert(RAW_LOCAL_CLEARED == 0x804bu32) by (bit_vector);
    assert(RAW_CONTROL_CLEARED == 0x130u32) by (bit_vector);
    assert((i & !0x5ebu32) & !0x5ebu32 == i & !0x5ebu32) by (bit_vector);
    assert((o & !1u32) & !1u32 == o & !1u32) by (bit_vector);
    assert((l & !0x804bu32) & !0x804bu32 == l & !0x804bu32) by (bit_vector);
    assert((((c & !0x130u32) | 0x30u32) & !0x130u32) | 0x30u32 == (c & !0x130u32) | 0x30u32)
        by (bit_vector);
    assert(twice.codes =~= once.codes);
}

} // verus!
