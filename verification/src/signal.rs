//! Signals of Linux on x86-64, by number.

use vstd::prelude::*;

verus! {

/// A signal that can stop or end the supervised process.
#[allow(clippy::upper_case_acronyms)]
#[derive(Clone, Copy, Debug, PartialEq, Eq, Structural)]
pub enum Signal {
    /// Hangup
    SIGHUP,
    /// Interrupt
    SIGINT,
    /// Quit
    SIGQUIT,
    /// Illegal instruction
    SIGILL,
    /// Trace trap
    SIGTRAP,
    /// Abort
    SIGABRT,
    /// Bus error
    SIGBUS,
    /// Floating point exception
    SIGFPE,
    /// Kill
    SIGKILL,
    /// User defined signal 1
    SIGUSR1,
    /// Segmentation violation
    SIGSEGV,
    /// User defined signal 2
    SIGUSR2,
    /// Write on a pipe with no reader
    SIGPIPE,
    /// Alarm clock
    SIGALRM,
    /// Termination request
    SIGTERM,
    /// Stack fault
    SIGSTKFLT,
    /// Child status changed
    SIGCHLD,
    /// Continue
    SIGCONT,
    /// Stop, cannot be caught
    SIGSTOP,
    /// Stop from the terminal
    SIGTSTP,
    /// Background read from the terminal
    SIGTTIN,
    /// Background write to the terminal
    SIGTTOU,
    /// Urgent condition on a socket
    SIGURG,
    /// CPU time limit exceeded
    SIGXCPU,
    /// File size limit exceeded
    SIGXFSZ,
    /// Virtual alarm clock
    SIGVTALRM,
    /// Profiling alarm clock
    SIGPROF,
    /// Window size change
    SIGWINCH,
    /// Input or output possible
    SIGIO,
    /// Power failure
    SIGPWR,
    /// Bad system call
    SIGSYS,
}

/// The name of the signal with a given number, as `nix` spells it; empty for
/// a number without a signal.
pub open spec fn signal_text(number: int) -> Seq<char> {
    if number == 1 {
        "SIGHUP"@
    } else if number == 2 {
        "SIGINT"@
    } else if number == 3 {
        "SIGQUIT"@
    } else if number == 4 {
        "SIGILL"@
    } else if number == 5 {
        "SIGTRAP"@
    } else if number == 6 {
        "SIGABRT"@
    } else if number == 7 {
        "SIGBUS"@
    } else if number == 8 {
        "SIGFPE"@
    } else if number == 9 {
        "SIGKILL"@
    } else if number == 10 {
        "SIGUSR1"@
    } else if number == 11 {
        "SIGSEGV"@
    } else if number == 12 {
        "SIGUSR2"@
    } else if number == 13 {
        "SIGPIPE"@
    } else if number == 14 {
        "SIGALRM"@
    } else if number == 15 {
        "SIGTERM"@
    } else if number == 16 {
        "SIGSTKFLT"@
    } else if number == 17 {
        "SIGCHLD"@
    } else if number == 18 {
        "SIGCONT"@
    } else if number == 19 {
        "SIGSTOP"@
    } else if number == 20 {
        "SIGTSTP"@
    } else if number == 21 {
        "SIGTTIN"@
    } else if number == 22 {
        "SIGTTOU"@
    } else if number == 23 {
        "SIGURG"@
    } else if number == 24 {
        "SIGXCPU"@
    } else if number == 25 {
        "SIGXFSZ"@
    } else if number == 26 {
        "SIGVTALRM"@
    } else if number == 27 {
        "SIGPROF"@
    } else if number == 28 {
        "SIGWINCH"@
    } else if number == 29 {
        "SIGIO"@
    } else if number == 30 {
        "SIGPWR"@
    } else if number == 31 {
        "SIGSYS"@
    } else {
        Seq::<char>::empty()
    }
}

/// The name of the signal with the given number.
///
/// Trusted: `Signal::try_from` and `Signal::as_str` of `nix`. For the numbers
/// 1 to 31 the first finds a signal on Linux, and the second gives the name
/// that `signal_text` spells out.
#[verifier::external_body]
fn signal_name(number: i32) -> (name: String)
    requires
        1 <= number <= 31,
    ensures
        name@ == signal_text(number as int),
{
    match nix::sys::signal::Signal::try_from(number) {
        Ok(signal) => signal.as_str().to_string(),
        Err(_) => String::new(),
    }
}

impl Signal {
    /// The number of the signal.
    pub open spec fn number(self) -> int {
        match self {
            Signal::SIGHUP => 1,
            Signal::SIGINT => 2,
            Signal::SIGQUIT => 3,
            Signal::SIGILL => 4,
            Signal::SIGTRAP => 5,
            Signal::SIGABRT => 6,
            Signal::SIGBUS => 7,
            Signal::SIGFPE => 8,
            Signal::SIGKILL => 9,
            Signal::SIGUSR1 => 10,
            Signal::SIGSEGV => 11,
            Signal::SIGUSR2 => 12,
            Signal::SIGPIPE => 13,
            Signal::SIGALRM => 14,
            Signal::SIGTERM => 15,
            Signal::SIGSTKFLT => 16,
            Signal::SIGCHLD => 17,
            Signal::SIGCONT => 18,
            Signal::SIGSTOP => 19,
            Signal::SIGTSTP => 20,
            Signal::SIGTTIN => 21,
            Signal::SIGTTOU => 22,
            Signal::SIGURG => 23,
            Signal::SIGXCPU => 24,
            Signal::SIGXFSZ => 25,
            Signal::SIGVTALRM => 26,
            Signal::SIGPROF => 27,
            Signal::SIGWINCH => 28,
            Signal::SIGIO => 29,
            Signal::SIGPWR => 30,
            Signal::SIGSYS => 31,
        }
    }

    /// The number of the signal, as the kernel reports it.
    pub fn as_raw(self) -> (raw: i32)
        ensures
            raw == self.number(),
            1 <= raw <= 31,
    {
        match self {
            Signal::SIGHUP => 1,
            Signal::SIGINT => 2,
            Signal::SIGQUIT => 3,
            Signal::SIGILL => 4,
            Signal::SIGTRAP => 5,
            Signal::SIGABRT => 6,
            Signal::SIGBUS => 7,
            Signal::SIGFPE => 8,
            Signal::SIGKILL => 9,
            Signal::SIGUSR1 => 10,
            Signal::SIGSEGV => 11,
            Signal::SIGUSR2 => 12,
            Signal::SIGPIPE => 13,
            Signal::SIGALRM => 14,
            Signal::SIGTERM => 15,
            Signal::SIGSTKFLT => 16,
            Signal::SIGCHLD => 17,
            Signal::SIGCONT => 18,
            Signal::SIGSTOP => 19,
            Signal::SIGTSTP => 20,
            Signal::SIGTTIN => 21,
            Signal::SIGTTOU => 22,
            Signal::SIGURG => 23,
            Signal::SIGXCPU => 24,
            Signal::SIGXFSZ => 25,
            Signal::SIGVTALRM => 26,
            Signal::SIGPROF => 27,
            Signal::SIGWINCH => 28,
            Signal::SIGIO => 29,
            Signal::SIGPWR => 30,
            Signal::SIGSYS => 31,
        }
    }

    /// The signal with the given number, if there is one.
    pub fn from_raw(raw: i32) -> (signal: Option<Signal>)
        ensures
            signal is Some <==> 1 <= raw <= 31,
            signal is Some ==> signal->0.number() == raw,
    {
        if raw == 1 {
            Some(Signal::SIGHUP)
        } else if raw == 2 {
            Some(Signal::SIGINT)
        } else if raw == 3 {
            Some(Signal::SIGQUIT)
        } else if raw == 4 {
            Some(Signal::SIGILL)
        } else if raw == 5 {
            Some(Signal::SIGTRAP)
        } else if raw == 6 {
            Some(Signal::SIGABRT)
        } else if raw == 7 {
            Some(Signal::SIGBUS)
        } else if raw == 8 {
            Some(Signal::SIGFPE)
        } else if raw == 9 {
            Some(Signal::SIGKILL)
        } else if raw == 10 {
            Some(Signal::SIGUSR1)
        } else if raw == 11 {
            Some(Signal::SIGSEGV)
        } else if raw == 12 {
            Some(Signal::SIGUSR2)
        } else if raw == 13 {
            Some(Signal::SIGPIPE)
        } else if raw == 14 {
            Some(Signal::SIGALRM)
        } else if raw == 15 {
            Some(Signal::SIGTERM)
        } else if raw == 16 {
            Some(Signal::SIGSTKFLT)
        } else if raw == 17 {
            Some(Signal::SIGCHLD)
        } else if raw == 18 {
            Some(Signal::SIGCONT)
        } else if raw == 19 {
            Some(Signal::SIGSTOP)
        } else if raw == 20 {
            Some(Signal::SIGTSTP)
        } else if raw == 21 {
            Some(Signal::SIGTTIN)
        } else if raw == 22 {
            Some(Signal::SIGTTOU)
        } else if raw == 23 {
            Some(Signal::SIGURG)
        } else if raw == 24 {
            Some(Signal::SIGXCPU)
        } else if raw == 25 {
            Some(Signal::SIGXFSZ)
        } else if raw == 26 {
            Some(Signal::SIGVTALRM)
        } else if raw == 27 {
            Some(Signal::SIGPROF)
        } else if raw == 28 {
            Some(Signal::SIGWINCH)
        } else if raw == 29 {
            Some(Signal::SIGIO)
        } else if raw == 30 {
            Some(Signal::SIGPWR)
        } else if raw == 31 {
            Some(Signal::SIGSYS)
        } else {
            None
        }
    }

    /// The name of the signal, such as `SIGKILL`.
    pub fn name(self) -> (name: String)
        ensures
            name@ == signal_text(self.number()),
    {
        signal_name(self.as_raw())
    }
}

/// Two signals with the same number are the same signal.
pub proof fn lemma_number_injective(a: Signal, b: Signal)
    requires
        a.number() == b.number(),
    ensures
        a == b,
{
}

} // verus!
