use termios::errno::Errno;
use termios::flags::{ControlModes, InputModes, LocalModes, OutputModes};
use termios::modes::{
    cfgetispeed, cfgetospeed, cfmakeraw, cfsetispeed, cfsetospeed, cfsetspeed,
    termios_from_legacy,
};
use termios::speed::{speed_value, Speed};
use termios::termios::{SpecialCodeIndex, SpecialCodes, Termios, NCCS};

fn sample() -> Termios {
    let mut codes = [0u8; NCCS];
    for (i, c) in codes.iter_mut().enumerate() {
        *c = (i as u8) + 1;
    }
    Termios {
        input_modes: InputModes::from_bits_truncate(
            InputModes::BRKINT | InputModes::ICRNL | InputModes::IXON | InputModes::IUTF8,
        ),
        output_modes: OutputModes::from_bits_truncate(OutputModes::OPOST | OutputModes::ONLCR),
        control_modes: ControlModes::from_bits_unchecked(
            ControlModes::CS7 | ControlModes::PARENB | ControlModes::CREAD | Speed::B38400,
        ),
        local_modes: LocalModes::from_bits_truncate(
            LocalModes::ISIG
                | LocalModes::ICANON
                | LocalModes::ECHO
                | LocalModes::ECHOE
                | LocalModes::IEXTEN,
        ),
        line_discipline: 0,
        special_codes: SpecialCodes::from_array(codes),
        input_speed: 38400,
        output_speed: 38400,
    }
}

fn fields(t: &Termios) -> (u32, u32, u32, u32, u8, [u8; NCCS], u32, u32) {
    (
        t.input_modes.bits(),
        t.output_modes.bits(),
        t.control_modes.bits(),
        t.local_modes.bits(),
        t.line_discipline,
        t.special_codes.to_array(),
        t.input_speed,
        t.output_speed,
    )
}

#[test]
fn speed_value_of_every_named_code() {
    let table: [(u32, u32); 31] = [
        (Speed::B0, 0),
        (Speed::B50, 50),
        (Speed::B75, 75),
        (Speed::B110, 110),
        (Speed::B134, 134),
        (Speed::B150, 150),
        (Speed::B200, 200),
        (Speed::B300, 300),
        (Speed::B600, 600),
        (Speed::B1200, 1200),
        (Speed::B1800, 1800),
        (Speed::B2400, 2400),
        (Speed::B4800, 4800),
        (Speed::B9600, 9600),
        (Speed::B19200, 19200),
        (Speed::B38400, 38400),
        (Speed::B57600, 57600),
        (Speed::B115200, 115_200),
        (Speed::B230400, 230_400),
        (Speed::B460800, 460_800),
        (Speed::B500000, 500_000),
        (Speed::B576000, 576_000),
        (Speed::B921600, 921_600),
        (Speed::B1000000, 1_000_000),
        (Speed::B1152000, 1_152_000),
        (Speed::B1500000, 1_500_000),
        (Speed::B2000000, 2_000_000),
        (Speed::B2500000, 2_500_000),
        (Speed::B3000000, 3_000_000),
        (Speed::B3500000, 3_500_000),
        (Speed::B4000000, 4_000_000),
    ];
    for (code, rate) in table {
        assert_eq!(speed_value(Speed::from_raw(code)), Some(rate));
    }
    assert_eq!(speed_value(Speed::from_raw(Speed::B57600)), Some(57600));
    assert_eq!(speed_value(Speed::from_raw(Speed::EXTA)), Some(19200));
    assert_eq!(speed_value(Speed::from_raw(Speed::EXTB)), Some(38400));
}

#[test]
fn speed_value_of_unknown_codes() {
    assert_eq!(speed_value(Speed::from_raw(Speed::BOTHER)), None);
    assert_eq!(speed_value(Speed::from_raw(16)), None);
    assert_eq!(speed_value(Speed::from_raw(0o10020)), None);
    assert_eq!(speed_value(Speed::from_raw(u32::MAX)), None);
}

#[test]
fn raw_mode_clears_processing() {
    let mut t = sample();
    cfmakeraw(&mut t);
    assert_eq!(t.input_modes.bits(), InputModes::IUTF8);
    assert_eq!(t.output_modes.bits(), OutputModes::ONLCR);
    assert_eq!(t.local_modes.bits(), LocalModes::ECHOE);
    assert_eq!(
        t.control_modes.bits(),
        ControlModes::CS8 | ControlModes::CREAD | Speed::B38400
    );
    let vmin = SpecialCodeIndex::new(SpecialCodeIndex::VMIN).unwrap();
    let vtime = SpecialCodeIndex::new(SpecialCodeIndex::VTIME).unwrap();
    let vintr = SpecialCodeIndex::new(SpecialCodeIndex::VINTR).unwrap();
    assert_eq!(t.special_codes.index(vmin), 1);
    assert_eq!(t.special_codes.index(vtime), 0);
    assert_eq!(t.special_codes.index(vintr), 1);
    assert_eq!(t.input_speed, 38400);
    assert_eq!(t.output_speed, 38400);
}

#[test]
fn raw_mode_twice_equals_once() {
    let mut once = sample();
    cfmakeraw(&mut once);
    let mut twice = sample();
    cfmakeraw(&mut twice);
    cfmakeraw(&mut twice);
    assert_eq!(fields(&once), fields(&twice));
}

#[test]
fn speed_getters_read_the_baud_field() {
    let t = sample();
    assert_eq!(cfgetospeed(&t).raw(), Speed::B38400);
    assert_eq!(cfgetispeed(&t).raw(), Speed::B38400);
}

#[test]
fn set_output_speed_then_get() {
    let mut t = sample();
    assert_eq!(cfsetospeed(&mut t, Speed::from_raw(Speed::B115200)), Ok(()));
    assert_eq!(cfgetospeed(&t).raw(), Speed::B115200);
    assert_eq!(
        t.control_modes.bits(),
        ControlModes::CS7 | ControlModes::PARENB | ControlModes::CREAD | Speed::B115200
    );
}

#[test]
fn set_both_speeds_then_get() {
    let mut t = sample();
    assert_eq!(cfsetspeed(&mut t, Speed::from_raw(Speed::B9600)), Ok(()));
    assert_eq!(cfgetospeed(&t).raw(), Speed::B9600);
    assert_eq!(cfgetispeed(&t).raw(), Speed::B9600);
}

#[test]
fn set_input_speed_then_get() {
    let mut t = sample();
    assert_eq!(cfsetispeed(&mut t, Speed::from_raw(Speed::B1200)), Ok(()));
    assert_eq!(cfgetispeed(&t).raw(), Speed::B1200);
}

#[test]
fn out_of_field_speed_is_refused_unchanged() {
    let inval = Errno::from_raw(Errno::INVAL);
    for code in [0o20000u32, Speed::BOTHER | 0o20, 1 << 31, u32::MAX] {
        let mut t = sample();
        let before = fields(&t);
        assert_eq!(cfsetospeed(&mut t, Speed::from_raw(code)), Err(inval));
        assert_eq!(fields(&t), before);
        assert_eq!(cfsetispeed(&mut t, Speed::from_raw(code)), Err(inval));
        assert_eq!(fields(&t), before);
        assert_eq!(cfsetspeed(&mut t, Speed::from_raw(code)), Err(inval));
        assert_eq!(fields(&t), before);
    }
}

#[test]
fn zero_input_speed_changes_nothing() {
    let mut t = sample();
    let before = fields(&t);
    assert_eq!(cfsetispeed(&mut t, Speed::from_raw(Speed::B0)), Ok(()));
    assert_eq!(fields(&t), before);
}

#[test]
fn zero_output_speed_is_written() {
    let mut t = sample();
    assert_eq!(cfsetospeed(&mut t, Speed::from_raw(Speed::B0)), Ok(()));
    assert_eq!(cfgetospeed(&t).raw(), Speed::B0);
}

#[test]
fn special_code_index_past_the_end_is_refused() {
    assert!(SpecialCodeIndex::new(NCCS).is_none());
    assert!(SpecialCodeIndex::new(usize::MAX).is_none());
    let last = SpecialCodeIndex::new(NCCS - 1).unwrap();
    assert_eq!(last.get(), NCCS - 1);
    let veol2 = SpecialCodeIndex::new(SpecialCodeIndex::VEOL2).unwrap();
    assert_eq!(veol2.get(), 16);
}

#[test]
fn special_codes_set_and_read() {
    let mut codes = SpecialCodes::new();
    let vintr = SpecialCodeIndex::new(SpecialCodeIndex::VINTR).unwrap();
    let veof = SpecialCodeIndex::new(SpecialCodeIndex::VEOF).unwrap();
    codes.set(vintr, 3);
    codes.set(veof, 4);
    assert_eq!(codes.index(vintr), 3);
    assert_eq!(codes.index(veof), 4);
    let mut expected = [0u8; NCCS];
    expected[0] = 3;
    expected[4] = 4;
    assert_eq!(codes.to_array(), expected);
}

#[test]
fn legacy_record_takes_speeds_from_baud_field() {
    let t = termios_from_legacy(1, 2, ControlModes::CS8 | Speed::B9600, 4, 0, [7u8; NCCS]);
    assert_eq!(t.input_speed, 9600);
    assert_eq!(t.output_speed, 9600);
    assert_eq!(t.input_modes.bits(), 1);
    assert_eq!(t.output_modes.bits(), 2);
    assert_eq!(t.local_modes.bits(), 4);
    assert_eq!(t.special_codes.to_array(), [7u8; NCCS]);
    let other = termios_from_legacy(0, 0, Speed::BOTHER, 0, 0, [0u8; NCCS]);
    assert_eq!(other.input_speed, 0);
    assert_eq!(other.output_speed, 0);
}

#[test]
fn flag_set_operations() {
    let a = LocalModes::from_bits_truncate(LocalModes::ECHO | LocalModes::ICANON);
    let b = LocalModes::from_bits_truncate(LocalModes::ICANON | LocalModes::ISIG);
    assert_eq!(a.union(b).bits(), LocalModes::ECHO | LocalModes::ICANON | LocalModes::ISIG);
    assert_eq!(a.intersection(b).bits(), LocalModes::ICANON);
    assert_eq!(a.difference(b).bits(), LocalModes::ECHO);
    assert!(a.contains(LocalModes::from_bits_truncate(LocalModes::ECHO)));
    assert!(!a.contains(b));
    assert!(a.intersects(b));
    assert!(!a.intersects(LocalModes::from_bits_truncate(LocalModes::TOSTOP)));
    assert_eq!(LocalModes::empty().bits(), 0);
    assert_eq!(LocalModes::all().bits(), LocalModes::ALL_BITS);
}

#[test]
fn flag_sets_from_raw_bits() {
    assert_eq!(InputModes::from_bits(InputModes::IXON).map(|f| f.bits()), Some(InputModes::IXON));
    assert_eq!(InputModes::from_bits(1 << 20), None);
    assert_eq!(InputModes::from_bits_truncate((1 << 20) | InputModes::IXON).bits(), InputModes::IXON);
    assert_eq!(InputModes::from_bits_unchecked(1 << 20).bits(), 1 << 20);
    assert_eq!(OutputModes::from_bits(1 << 20), None);
    assert_eq!(ControlModes::from_bits(1 << 20), None);
    assert_eq!(LocalModes::from_bits(1 << 20), None);
}
