//! The terminal mode controller.
//!
//! The cooked and well-done strategies rewrite the controlling terminal's
//! line-discipline configuration from scratch: every bit of the four flag
//! groups is cleared, then exactly the documented set is raised, and the
//! result is written back in one call. The flag groups are modelled as plain
//! bit sets in [`TermMode`], so the bits each mutator raises — and that the
//! well-done mode strictly contains the cooked mode — are proved, not assumed.

use vstd::prelude::*;

use crate::Error;

verus! {

/// Input flag: on BREAK, flush the queues and send SIGINT.
pub const BRKINT: u32 = 0x0002;

/// Input flag: translate carriage return to newline on input.
pub const ICRNL: u32 = 0x0100;

/// Input flag: ignore framing and parity errors.
pub const IGNPAR: u32 = 0x0004;

/// Input flag: strip off the eighth bit.
pub const ISTRIP: u32 = 0x0020;

/// Input flag: enable XON/XOFF flow control on output.
pub const IXON: u32 = 0x0400;

/// Input flag: input is UTF-8.
pub const IUTF8: u32 = 0x4000;

/// Input flag: ring the terminal bell when the input queue is full.
pub const IMAXBEL: u32 = 0x2000;

/// Output flag: enable output processing.
pub const OPOST: u32 = 0x0001;

/// Output flag: translate newline to carriage return plus newline on output.
pub const ONLCR: u32 = 0x0004;

/// Control flag: enable the receiver.
pub const CREAD: u32 = 0x0080;

/// Local flag: enable canonical mode.
pub const ICANON: u32 = 0x0002;

/// Local flag: generate signals for the corresponding control characters.
pub const ISIG: u32 = 0x0001;

/// A snapshot of the terminal's four flag groups, each a set of independent
/// bits in the platform's termios encoding.
#[derive(Clone, Copy, Debug, PartialEq, Eq, Structural)]
pub struct TermMode {
    /// The input flag group.
    pub input_flags: u32,
    /// The output flag group.
    pub output_flags: u32,
    /// The control flag group.
    pub control_flags: u32,
    /// The local flag group.
    pub local_flags: u32,
}

/// The mode with every bit of every group cleared.
pub open spec fn blank_mode() -> TermMode {
    TermMode { input_flags: 0u32, output_flags: 0u32, control_flags: 0u32, local_flags: 0u32 }
}

/// The cooked mode: the minimal POSIX-compatible bit set.
pub open spec fn cooked_spec() -> TermMode {
    TermMode {
        input_flags: BRKINT | ICRNL | IGNPAR | ISTRIP | IXON,
        output_flags: OPOST,
        control_flags: 0u32,
        local_flags: ICANON | ISIG,
    }
}

/// The well-done mode: every cooked bit plus UTF-8 input, the input-queue
/// bell, newline translation on output, and the receiver enable.
pub open spec fn well_done_spec() -> TermMode {
    TermMode {
        input_flags: BRKINT | ICRNL | IUTF8 | IGNPAR | IMAXBEL | ISTRIP | IXON,
        output_flags: ONLCR | OPOST,
        control_flags: CREAD,
        local_flags: ICANON | ISIG,
    }
}

/// Whether every bit raised in `part` is also raised in `whole`, group by group.
pub open spec fn mode_includes(whole: TermMode, part: TermMode) -> bool {
    &&& whole.input_flags & part.input_flags == part.input_flags
    &&& whole.output_flags & part.output_flags == part.output_flags
    &&& whole.control_flags & part.control_flags == part.control_flags
    &&& whole.local_flags & part.local_flags == part.local_flags
}

/// Clears every bit of every flag group: the full overwrite that distinguishes
/// these strategies from incremental bit-twiddling.
pub fn reset_termios(t: &mut TermMode)
    ensures
        *final(t) == blank_mode(),
{
    t.input_flags = 0;
    t.output_flags = 0;
    t.control_flags = 0;
    t.local_flags = 0;
}

/// Builds the cooked mode, bit for bit.
pub fn cooked_mode() -> (m: TermMode)
    ensures
        m == cooked_spec(),
{
    TermMode {
        input_flags: BRKINT | ICRNL | IGNPAR | ISTRIP | IXON,
        output_flags: OPOST,
        control_flags: 0,
        local_flags: ICANON | ISIG,
    }
}

/// Builds the well-done mode, bit for bit.
pub fn well_done_mode() -> (m: TermMode)
    ensures
        m == well_done_spec(),
{
    TermMode {
        input_flags: BRKINT | ICRNL | IUTF8 | IGNPAR | IMAXBEL | ISTRIP | IXON,
        output_flags: ONLCR | OPOST,
        control_flags: CREAD,
        local_flags: ICANON | ISIG,
    }
}

/// Law: the well-done mode is a strict superset of the cooked mode — every
/// cooked bit is raised in it, and it raises bits the cooked mode does not.
pub proof fn lemma_well_done_includes_cooked()
    ensures
        mode_includes(well_done_spec(), cooked_spec()),
        well_done_spec() != cooked_spec(),
{
    assert((0x0002u32 | 0x0100u32 | 0x0004u32 | 0x0020u32 | 0x0400u32) == 0x0526u32)
        by (bit_vector);
    assert((0x0002u32 | 0x0100u32 | 0x4000u32 | 0x0004u32 | 0x2000u32 | 0x0020u32 | 0x0400u32)
        == 0x6526u32) by (bit_vector);
    assert((0x0004u32 | 0x0001u32) == 0x0005u32) by (bit_vector);
    assert((0x0002u32 | 0x0001u32) == 0x0003u32) by (bit_vector);
    assert(0x6526u32 & 0x0526u32 == 0x0526u32) by (bit_vector);
    assert(0x0005u32 & 0x0001u32 == 0x0001u32) by (bit_vector);
    assert(0x0080u32 & 0x0000u32 == 0x0000u32) by (bit_vector);
    assert(0x0003u32 & 0x0003u32 == 0x0003u32) by (bit_vector);
}

/// Sets the controlling terminal to cooked mode.
pub fn vt_cooked() -> (r: Result<(), Error>)
    ensures
        r matches Err(e) ==> e is Nix || e is Io,
{
    let m = cooked_mode();
    write_termios(&m)
}

/// Sets the controlling terminal to well-done mode.
pub fn vt_well_done() -> (r: Result<(), Error>)
    ensures
        r matches Err(e) ==> e is Nix || e is Io,
{
    let m = well_done_mode();
    write_termios(&m)
}

/// Writes `mode` to the controlling terminal: standard input when it is an
/// interactive terminal, else the controlling-terminal device opened directly.
/// The terminal's current flag groups are fully cleared before the requested
/// bits are raised; everything else in its configuration is preserved.
///
/// Any failure is the OS's, passed on unchanged: the errno of a terminal-mode
/// call, or the error opening the controlling-terminal device.
pub fn write_termios(mode: &TermMode) -> (r: Result<(), Error>)
    ensures
        r matches Err(e) ==> e is Nix || e is Io,
{
    let tty = match stdin_is_tty() {
        Ok(b) => b,
        Err(e) => { return Err(Error::Nix(e)) },
    };
    if tty {
        apply_to_fd(0, mode)
    } else {
        let fd = match open_tty() {
            Ok(fd) => fd,
            Err(msg) => { return Err(Error::Io(msg)) },
        };
        let r = apply_to_fd(fd, mode);
        let _ = close_fd(fd);
        r
    }
}

/// Reads the terminal's configuration on `fd`, clears all four flag groups,
/// raises exactly the bits of `mode`, and writes the result back at once.
fn apply_to_fd(fd: i32, mode: &TermMode) -> (r: Result<(), Error>)
    ensures
        r matches Err(e) ==> e is Nix,
{
    let pair = match tc_getattr(fd) {
        Ok(p) => p,
        Err(e) => { return Err(Error::Nix(e)) },
    };
    let base = pair.0;
    let mut flags = pair.1;
    reset_termios(&mut flags);
    flags.input_flags = flags.input_flags | mode.input_flags;
    flags.output_flags = flags.output_flags | mode.output_flags;
    flags.control_flags = flags.control_flags | mode.control_flags;
    flags.local_flags = flags.local_flags | mode.local_flags;
    proof {
        let i = mode.input_flags;
        assert(0u32 | i == i) by (bit_vector);
        let o = mode.output_flags;
        assert(0u32 | o == o) by (bit_vector);
        let c = mode.control_flags;
        assert(0u32 | c == c) by (bit_vector);
        let l = mode.local_flags;
        assert(0u32 | l == l) by (bit_vector);
        assert(flags == *mode);
    }
    match tc_setattr_flags(fd, &base, &flags) {
        Ok(()) => Ok(()),
        Err(e) => Err(Error::Nix(e)),
    }
}

#[verifier::external_type_specification]
#[verifier::external_body]
pub struct ExTermios(nix::sys::termios::Termios);

/// Relies on nix::unistd::isatty on file descriptor 0: whether standard input
/// is an interactive terminal; a failure carries the errno value.
#[verifier::external_body]
fn stdin_is_tty() -> (r: Result<bool, i32>) {
    nix::unistd::isatty(0).map_err(|e| e as i32)
}

/// Relies on nix::fcntl::open: opens the controlling-terminal device
/// read-write and returns its file descriptor; a failure carries the error's
/// description.
#[verifier::external_body]
fn open_tty() -> (r: Result<i32, String>) {
    nix::fcntl::open("/dev/tty", nix::fcntl::OFlag::O_RDWR, nix::sys::stat::Mode::empty()).map_err(
        |e| e.to_string(),
    )
}

/// Relies on nix::unistd::close: closes a file descriptor this module opened.
#[verifier::external_body]
fn close_fd(fd: i32) -> (r: Result<(), i32>) {
    nix::unistd::close(fd).map_err(|e| e as i32)
}

/// Relies on nix::sys::termios::tcgetattr: reads the terminal configuration on
/// `fd`, and copies its four flag groups out as plain bits.
#[verifier::external_body]
fn tc_getattr(fd: i32) -> (r: Result<(nix::sys::termios::Termios, TermMode), i32>) {
    match nix::sys::termios::tcgetattr(fd) {
        Ok(t) => {
            let m = TermMode {
                input_flags: t.input_flags.bits(),
                output_flags: t.output_flags.bits(),
                control_flags: t.control_flags.bits(),
                local_flags: t.local_flags.bits(),
            };
            Ok((t, m))
        },
        Err(e) => Err(e as i32),
    }
}

/// Relies on nix::sys::termios::tcsetattr with TCSANOW: writes `base` back
/// immediately with its four flag groups replaced by the bits of `flags`.
/// nix's flag types are bitflags over the platform's termios values;
/// `from_bits_truncate` silently drops any bit they do not define, so a bit
/// reaches the OS only if this module's constant for it matches the
/// platform's. Every bit of the two modes this library builds is such a
/// defined flag.
#[verifier::external_body]
fn tc_setattr_flags(fd: i32, base: &nix::sys::termios::Termios, flags: &TermMode) -> (r: Result<
    (),
    i32,
>) {
    let mut t = base.clone();
    t.input_flags = nix::sys::termios::InputFlags::from_bits_truncate(flags.input_flags);
    t.output_flags = nix::sys::termios::OutputFlags::from_bits_truncate(flags.output_flags);
    t.control_flags = nix::sys::termios::ControlFlags::from_bits_truncate(flags.control_flags);
    t.local_flags = nix::sys::termios::LocalFlags::from_bits_truncate(flags.local_flags);
    nix::sys::termios::tcsetattr(fd, nix::sys::termios::SetArg::TCSANOW, &t).map_err(|e| e as i32)
}

} // verus!
