//! Ways to clear a terminal screen, unified behind one execution contract.
//!
//! A [`ClearScreen`] value names one concrete clearing procedure: emitting a
//! fixed escape sequence, resolving capabilities from the terminal description
//! database, running an external utility, or rewriting the terminal's mode
//! bits. Once a strategy is selected, [`ClearScreen::clear`] applies it to the
//! process's standard output, and [`ClearScreen::clear_to`] applies it to a
//! caller-supplied byte sink.
//!
//! The external-command strategies spawn a process, which this library cannot
//! do itself: for those, [`ClearScreen::command_for`] says what to run and
//! [`command::command_outcome`] judges the completion status.

use vstd::prelude::*;

pub mod caps;
pub mod catalog;
pub mod command;
pub mod unix;
pub mod win;

mod terminfo_db;

use crate::caps::CapabilityQuery;
use crate::command::{CommandSpec, ProcessStatus};

verus! {

/// Everything that can go wrong while clearing the screen.
#[derive(Debug, PartialEq, Eq)]
pub enum Error {
    /// An I/O error, carrying its description.
    Io(String),
    /// A non-success completion of an external command: its name and status.
    Command(&'static str, ProcessStatus),
    /// An OS terminal-mode error, carrying the errno value.
    Nix(i32),
    /// A terminal-description load or expansion error, carrying its description.
    Terminfo(String),
    /// A required capability the terminal description does not provide.
    TerminfoCap(&'static str),
}

/// One way of clearing the screen.
///
/// There is no single way to clear a terminal screen: emulators interpret the
/// same sequences differently, scrollback may or may not be kept, and a
/// terminal can be left in modes that are worth resetting along the way. Each
/// variant names one concrete procedure; [`ClearScreen::default()`] picks a
/// reasonable one for the environment, and [`ClearScreen::clear`] applies it.
#[derive(Clone, Copy, Debug, PartialEq, Eq, Structural)]
#[non_exhaustive]
pub enum ClearScreen {
    /// Emits the `clear` capability of the terminal description, and then its
    /// scrollback-erase capability when — and only when — that one is
    /// available: its absence is not an error.
    Terminfo,
    /// Emits the `clear` capability of the terminal description; fails when it
    /// is absent.
    TerminfoScreen,
    /// Emits the scrollback-erase (`E3`) extension capability of the terminal
    /// description; fails when it is absent.
    TerminfoScrollback,
    /// Emits whichever of the terminal description's reset strings are
    /// available, falling back to its init strings only when no reset string
    /// exists at all; fails when neither group has any.
    TerminfoReset,
    /// Emits the fixed cursor-home, erase-screen and erase-scrollback
    /// sequences, as an xterm understands them.
    XtermClear,
    /// Emits the fixed full-reset sequence chain, as an xterm understands it.
    XtermReset,
    /// Runs the external command `tput clear`.
    TputClear,
    /// Runs the external command `tput reset`.
    TputReset,
    /// Runs the external command `cls`.
    Cls,
    /// Enables VT escape processing in the native console; a no-op where no
    /// such console exists.
    WindowsVt,
    /// Enables VT escape processing in the native console and then always
    /// emits the fixed xterm-style clear sequence; if enabling failed, the
    /// sequence is still emitted and the enable error is reported after it.
    WindowsVtClear,
    /// Scrolls and clears the native console's screen buffer; a no-op where no
    /// such console exists.
    WindowsConsoleClear,
    /// Blanks the native console's screen buffer; a no-op where no such
    /// console exists.
    WindowsConsoleBlank,
    /// Disables raw mode in the native console; a no-op where no such console
    /// exists.
    WindowsCooked,
    /// Emits the raw RIS (Reset to Initial State) escape.
    VtRis,
    /// Emits the sequence that leaves alternate-screen mode.
    VtLeaveAlt,
    /// Rewrites the controlling terminal's mode to the cooked bit set.
    VtCooked,
    /// Rewrites the controlling terminal's mode to the well-done bit set, a
    /// strict superset of the cooked one.
    VtWellDone,
}

impl ClearScreen {
    /// The strategies that run an external utility instead of writing to the
    /// sink or the OS themselves.
    pub open spec fn is_command(self) -> bool {
        self is TputClear || self is TputReset || self is Cls
    }

    /// The strategies whose whole effect is one fixed byte sequence.
    pub open spec fn emits_fixed(self) -> bool {
        self is XtermClear || self is XtermReset || self is VtRis || self is VtLeaveAlt
    }

    /// The strategies that consult the terminal description database.
    pub open spec fn is_capability(self) -> bool {
        self is Terminfo || self is TerminfoScreen || self is TerminfoScrollback
            || self is TerminfoReset
    }

    /// The bytes a fixed-sequence strategy emits; the composite native-console
    /// clear emits the xterm-style clear sequence as well.
    pub open spec fn fixed_seq(self) -> Seq<u8>
        recommends
            self.emits_fixed() || self is WindowsVtClear,
    {
        if self is XtermReset {
            catalog::xterm_reset_seq()
        } else if self is VtRis {
            catalog::vt_ris_seq()
        } else if self is VtLeaveAlt {
            catalog::vt_leave_alt_seq()
        } else {
            catalog::xterm_clear_seq()
        }
    }

    /// Whether this strategy runs an external utility.
    pub fn needs_command(self) -> (r: bool)
        ensures
            r == self.is_command(),
    {
        matches!(self, ClearScreen::TputClear | ClearScreen::TputReset | ClearScreen::Cls)
    }

    /// The external command a command strategy runs: the program, its one
    /// optional argument, and the label an error about it carries. `None` for
    /// every other strategy.
    pub fn command_for(self) -> (r: Option<CommandSpec>)
        ensures
            r is Some <==> self.is_command(),
            self is TputClear ==> r == Some(
                CommandSpec { program: "tput", argument: Some("clear"), label: "tput clear" },
            ),
            self is TputReset ==> r == Some(
                CommandSpec { program: "tput", argument: Some("reset"), label: "tput reset" },
            ),
            self is Cls ==> r == Some(
                CommandSpec { program: "cls", argument: None, label: "cls" },
            ),
    {
        match self {
            ClearScreen::TputClear => Some(
                CommandSpec { program: "tput", argument: Some("clear"), label: "tput clear" },
            ),
            ClearScreen::TputReset => Some(
                CommandSpec { program: "tput", argument: Some("reset"), label: "tput reset" },
            ),
            ClearScreen::Cls => Some(CommandSpec { program: "cls", argument: None, label: "cls" }),
            _ => None,
        }
    }

    /// The capability lookups a capability-driven strategy performs, pinned as
    /// [`ClearScreen::command_for`] pins the external commands. `None` for
    /// every other strategy.
    ///
    /// For the combined strategy, the second name is the best-effort
    /// scrollback erase, consulted only after the first succeeded. For the
    /// full reset, the second four names are consulted only when all of the
    /// first four are absent. `missing` is the name the strategy's
    /// missing-capability error carries.
    pub fn capabilities_for(self) -> (r: Option<CapabilityQuery>)
        ensures
            r is Some <==> self.is_capability(),
            self is Terminfo ==> (r matches Some(q) && q.names@ == seq!["clear_screen", "user3"]
                && q.missing == "clear"),
            self is TerminfoScreen ==> (r matches Some(q) && q.names@ == seq!["clear_screen"]
                && q.missing == "clear"),
            self is TerminfoScrollback ==> (r matches Some(q) && q.names@ == seq!["user3"]
                && q.missing == "E3"),
            self is TerminfoReset ==> (r matches Some(q) && q.names@ == seq![
                "reset_1string",
                "reset_2string",
                "reset_3string",
                "reset_file",
                "init_1string",
                "init_2string",
                "init_3string",
                "init_file",
            ] && q.missing == "reset"),
    {
        match self {
            ClearScreen::Terminfo => {
                let mut names: Vec<&'static str> = Vec::new();
                names.push("clear_screen");
                names.push("user3");
                proof {
                    assert(names@ =~= seq!["clear_screen", "user3"]);
                }
                Some(CapabilityQuery { names, missing: "clear" })
            },
            ClearScreen::TerminfoScreen => {
                let mut names: Vec<&'static str> = Vec::new();
                names.push("clear_screen");
                proof {
                    assert(names@ =~= seq!["clear_screen"]);
                }
                Some(CapabilityQuery { names, missing: "clear" })
            },
            ClearScreen::TerminfoScrollback => {
                let mut names: Vec<&'static str> = Vec::new();
                names.push("user3");
                proof {
                    assert(names@ =~= seq!["user3"]);
                }
                Some(CapabilityQuery { names, missing: "E3" })
            },
            ClearScreen::TerminfoReset => {
                let mut names: Vec<&'static str> = Vec::new();
                names.push("reset_1string");
                names.push("reset_2string");
                names.push("reset_3string");
                names.push("reset_file");
                names.push("init_1string");
                names.push("init_2string");
                names.push("init_3string");
                names.push("init_file");
                proof {
                    assert(names@ =~= seq![
                        "reset_1string",
                        "reset_2string",
                        "reset_3string",
                        "reset_file",
                        "init_1string",
                        "init_2string",
                        "init_3string",
                        "init_file",
                    ]);
                }
                Some(CapabilityQuery { names, missing: "reset" })
            },
            _ => None,
        }
    }

    /// Performs the clearing action, writing any bytes to standard output:
    /// the same effect as [`ClearScreen::clear_to`], with the emitted bytes
    /// going to standard output in one write.
    ///
    /// The external-command strategies are excluded: they spawn a process,
    /// which is outside work — see [`ClearScreen::command_for`].
    pub fn clear(self) -> (r: Result<(), Error>)
        requires
            !self.is_command(),
        ensures
            self.emits_fixed() || self is WindowsVtClear || self is WindowsVt
                || self is WindowsConsoleClear || self is WindowsConsoleBlank
                || self is WindowsCooked ==> (r is Ok || (r matches Err(e) && e is Io)),
            (self is Terminfo || self is TerminfoScreen) && r is Err ==> (r matches Err(e) && (
            e is Io || e is Terminfo || e == Error::TerminfoCap("clear"))),
            self is TerminfoScrollback && r is Err ==> (r matches Err(e) && (e is Io
                || e is Terminfo || e == Error::TerminfoCap("E3"))),
            self is TerminfoReset && r is Err ==> (r matches Err(e) && (e is Io || e is Terminfo
                || e == Error::TerminfoCap("reset"))),
            (self is VtCooked || self is VtWellDone) && r is Err ==> (r matches Err(e) && (
            e is Nix || e is Io)),
    {
        let mut buf: Vec<u8> = Vec::new();
        match self.clear_to(&mut buf) {
            Ok(()) => (),
            Err(e) => { return Err(e) },
        }
        match write_stdout(&buf) {
            Ok(()) => Ok(()),
            Err(msg) => Err(Error::Io(msg)),
        }
    }

    /// Performs the clearing action, appending any emitted bytes to `w`.
    ///
    /// The native-console and terminal-mode strategies act on the OS itself,
    /// whatever sink is passed; the sink only receives escape sequences. The
    /// external-command strategies are excluded, as in [`ClearScreen::clear`].
    pub fn clear_to(self, w: &mut Vec<u8>) -> (r: Result<(), Error>)
        requires
            !self.is_command(),
        ensures
            self.emits_fixed() ==> r is Ok && final(w)@ == old(w)@ + self.fixed_seq(),
            self is WindowsVtClear ==> r is Ok && final(w)@ == old(w)@ + self.fixed_seq(),
            self is WindowsVt || self is WindowsConsoleClear || self is WindowsConsoleBlank
                || self is WindowsCooked ==> r is Ok && final(w)@ == old(w)@,
            self is VtCooked || self is VtWellDone ==> final(w)@ == old(w)@,
            self.is_capability() && r is Err ==> final(w)@ == old(w)@,
            (self is Terminfo || self is TerminfoScreen) && r is Err ==> (r matches Err(e) && (
            e is Terminfo || e == Error::TerminfoCap("clear"))),
            self is TerminfoScrollback && r is Err ==> (r matches Err(e) && (e is Terminfo || e
                == Error::TerminfoCap("E3"))),
            self is TerminfoReset && r is Err ==> (r matches Err(e) && (e is Terminfo || e
                == Error::TerminfoCap("reset"))),
            (self is VtCooked || self is VtWellDone) && r is Err ==> (r matches Err(e) && (
            e is Nix || e is Io)),
    {
        match self {
            ClearScreen::Terminfo => {
                let db = match terminfo_db::load_database() {
                    Ok(d) => d,
                    Err(m) => { return Err(Error::Terminfo(m)) },
                };
                let mut ctx = terminfo_db::new_context();
                let clear_cap = match terminfo_db::expand_raw_cap(&db, "clear_screen", &mut ctx) {
                    Ok(o) => o,
                    Err(m) => { return Err(Error::Terminfo(m)) },
                };
                if clear_cap.is_none() {
                    return Err(Error::TerminfoCap("clear"));
                }
                // The scrollback erase (E3) is a non-standard extension,
                // conventionally exposed under the user3 slot.
                let scroll_cap = match terminfo_db::expand_raw_cap(&db, "user3", &mut ctx) {
                    Ok(o) => o,
                    Err(m) => { return Err(Error::Terminfo(m)) },
                };
                let bytes = match caps::combined_sequence(&clear_cap, &scroll_cap) {
                    Ok(b) => b,
                    Err(e) => { return Err(e) },
                };
                catalog::append_bytes(w, &bytes);
                Ok(())
            },
            ClearScreen::TerminfoScreen => {
                let db = match terminfo_db::load_database() {
                    Ok(d) => d,
                    Err(m) => { return Err(Error::Terminfo(m)) },
                };
                let mut ctx = terminfo_db::new_context();
                let cap = match terminfo_db::expand_raw_cap(&db, "clear_screen", &mut ctx) {
                    Ok(o) => o,
                    Err(m) => { return Err(Error::Terminfo(m)) },
                };
                let bytes = match caps::single_sequence(&cap, "clear") {
                    Ok(b) => b,
                    Err(e) => { return Err(e) },
                };
                catalog::append_bytes(w, &bytes);
                Ok(())
            },
            ClearScreen::TerminfoScrollback => {
                let db = match terminfo_db::load_database() {
                    Ok(d) => d,
                    Err(m) => { return Err(Error::Terminfo(m)) },
                };
                let mut ctx = terminfo_db::new_context();
                // The scrollback erase (E3) is a non-standard extension,
                // conventionally exposed under the user3 slot.
                let cap = match terminfo_db::expand_raw_cap(&db, "user3", &mut ctx) {
                    Ok(o) => o,
                    Err(m) => { return Err(Error::Terminfo(m)) },
                };
                let bytes = match caps::single_sequence(&cap, "E3") {
                    Ok(b) => b,
                    Err(e) => { return Err(e) },
                };
                catalog::append_bytes(w, &bytes);
                Ok(())
            },
            ClearScreen::TerminfoReset => {
                let db = match terminfo_db::load_database() {
                    Ok(d) => d,
                    Err(m) => { return Err(Error::Terminfo(m)) },
                };
                let mut ctx = terminfo_db::new_context();
                let reset1 = match terminfo_db::expand_raw_cap(&db, "reset_1string", &mut ctx) {
                    Ok(o) => o,
                    Err(m) => { return Err(Error::Terminfo(m)) },
                };
                let reset2 = match terminfo_db::expand_raw_cap(&db, "reset_2string", &mut ctx) {
                    Ok(o) => o,
                    Err(m) => { return Err(Error::Terminfo(m)) },
                };
                let reset3 = match terminfo_db::expand_raw_cap(&db, "reset_3string", &mut ctx) {
                    Ok(o) => o,
                    Err(m) => { return Err(Error::Terminfo(m)) },
                };
                let reset_file = match terminfo_db::expand_raw_cap(&db, "reset_file", &mut ctx) {
                    Ok(o) => o,
                    Err(m) => { return Err(Error::Terminfo(m)) },
                };
                let any_reset = reset1.is_some() || reset2.is_some() || reset3.is_some()
                    || reset_file.is_some();
                // The init group is consulted only when the whole reset group
                // is absent.
                let mut init1: Option<Vec<u8>> = None;
                let mut init2: Option<Vec<u8>> = None;
                let mut init3: Option<Vec<u8>> = None;
                let mut init_file: Option<Vec<u8>> = None;
                if !any_reset {
                    init1 = match terminfo_db::expand_raw_cap(&db, "init_1string", &mut ctx) {
                        Ok(o) => o,
                        Err(m) => { return Err(Error::Terminfo(m)) },
                    };
                    init2 = match terminfo_db::expand_raw_cap(&db, "init_2string", &mut ctx) {
                        Ok(o) => o,
                        Err(m) => { return Err(Error::Terminfo(m)) },
                    };
                    init3 = match terminfo_db::expand_raw_cap(&db, "init_3string", &mut ctx) {
                        Ok(o) => o,
                        Err(m) => { return Err(Error::Terminfo(m)) },
                    };
                    init_file = match terminfo_db::expand_raw_cap(&db, "init_file", &mut ctx) {
                        Ok(o) => o,
                        Err(m) => { return Err(Error::Terminfo(m)) },
                    };
                }
                let group = caps::ResetCaps {
                    reset1,
                    reset2,
                    reset3,
                    reset_file,
                    init1,
                    init2,
                    init3,
                    init_file,
                };
                let bytes = match caps::reset_sequence(&group) {
                    Ok(b) => b,
                    Err(e) => { return Err(e) },
                };
                catalog::append_bytes(w, &bytes);
                Ok(())
            },
            ClearScreen::XtermClear => {
                let bytes = catalog::xterm_clear_sequence();
                catalog::append_bytes(w, &bytes);
                Ok(())
            },
            ClearScreen::XtermReset => {
                let bytes = catalog::xterm_reset_sequence();
                catalog::append_bytes(w, &bytes);
                Ok(())
            },
            ClearScreen::TputClear | ClearScreen::TputReset | ClearScreen::Cls => {
                vstd::pervasive::unreached()
            },
            ClearScreen::WindowsVt => win::vt(),
            ClearScreen::WindowsVtClear => {
                // Both actions are attempted: the clear sequence is written
                // even if enabling VT processing failed, and that error wins.
                let vtres = win::vt();
                let bytes = catalog::xterm_clear_sequence();
                catalog::append_bytes(w, &bytes);
                vtres
            },
            ClearScreen::WindowsConsoleClear => win::clear(),
            ClearScreen::WindowsConsoleBlank => win::blank(),
            ClearScreen::WindowsCooked => win::cooked(),
            ClearScreen::VtRis => {
                let bytes = catalog::vt_ris_sequence();
                catalog::append_bytes(w, &bytes);
                Ok(())
            },
            ClearScreen::VtLeaveAlt => {
                let bytes = catalog::vt_leave_alt_sequence();
                catalog::append_bytes(w, &bytes);
                Ok(())
            },
            ClearScreen::VtCooked => unix::vt_cooked(),
            ClearScreen::VtWellDone => unix::vt_well_done(),
        }
    }
}

impl Default for ClearScreen {
    /// Resolves the most appropriate strategy for the environment, following
    /// the decision table of [`default_strategy`]. This platform family has no
    /// native console subsystem, so the choice is between the combined
    /// terminfo strategy and the fixed xterm-style clear.
    fn default() -> (r: Self)
        ensures
            r is Terminfo || r is XtermClear,
    {
        default_strategy(false, terminfo_db::database_usable())
    }
}

/// The default-strategy decision table: a native-console-only platform takes
/// the combined native-console clear; elsewhere, a usable terminal description
/// selects the combined terminfo strategy, and the fixed xterm-style clear is
/// the fallback.
pub fn default_strategy(native_console: bool, database_usable: bool) -> (r: ClearScreen)
    ensures
        native_console ==> r is WindowsVtClear,
        !native_console && database_usable ==> r is Terminfo,
        !native_console && !database_usable ==> r is XtermClear,
{
    if native_console {
        ClearScreen::WindowsVtClear
    } else if database_usable {
        ClearScreen::Terminfo
    } else {
        ClearScreen::XtermClear
    }
}

/// Shorthand for `ClearScreen::default().clear()`: the default strategy's
/// bytes go to standard output, and any error comes back unchanged. The
/// default strategy is never an external command, so every failure is an I/O
/// error, a description-load failure, or the combined strategy's missing
/// screen-clear capability.
pub fn clear() -> (r: Result<(), Error>)
    ensures
        r matches Err(e) ==> e is Io || e is Terminfo || e == Error::TerminfoCap("clear"),
{
    let strategy = ClearScreen::default();
    strategy.clear()
}

/// Law: a fixed-sequence strategy's output is a function of the strategy
/// alone. Whatever two sinks held before — fresh empty sinks in particular —
/// the bytes the strategy appends to each are identical, however often it has
/// run before: no state is carried between calls and nothing of the
/// environment is consulted.
pub proof fn lemma_fixed_sequence_deterministic(s: ClearScreen, before1: Seq<u8>, before2: Seq<u8>)
    requires
        s.emits_fixed(),
    ensures
        (before1 + s.fixed_seq()).skip(before1.len() as int) == (before2 + s.fixed_seq()).skip(
            before2.len() as int,
        ),
{
    assert((before1 + s.fixed_seq()).skip(before1.len() as int) =~= s.fixed_seq());
    assert((before2 + s.fixed_seq()).skip(before2.len() as int) =~= s.fixed_seq());
}

/// Relies on std::io::stdout and std::io::Write::write_all: writes the whole
/// buffer to the process's standard output; a failure carries the error's
/// description.
#[verifier::external_body]
fn write_stdout(buf: &Vec<u8>) -> (r: Result<(), String>) {
    let mut out = std::io::stdout();
    std::io::Write::write_all(&mut out, buf.as_slice()).map_err(|e| e.to_string())
}

} // verus!
