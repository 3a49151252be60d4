//! The errors of one sandbox invocation.

use vstd::prelude::*;
use vstd::string::StringExecFns;

verus! {

/// How `nix` prints the error with a given number: its name, a colon and its
/// description.
pub uninterp spec fn errno_text(errno: int) -> Seq<char>;

/// How `nix` describes the error with a given number.
pub uninterp spec fn errno_description(errno: int) -> Seq<char>;

/// The printed form of a kernel error number.
///
/// Trusted: `Errno::from_i32` of `nix` and the `Display` of what it returns.
/// Both are total, and what is printed depends on the number alone.
#[verifier::external_body]
pub(crate) fn errno_display(errno: i32) -> (text: String)
    ensures
        text@ == errno_text(errno as int),
{
    format!("{}", nix::errno::Errno::from_i32(errno))
}

/// The description of a kernel error number.
///
/// Trusted: `Errno::from_i32` and `Errno::desc` of `nix`. Both are total, and
/// the description depends on the number alone. Every description is a
/// phrase of letters, digits, spaces and punctuation: none holds a NUL.
#[verifier::external_body]
pub(crate) fn errno_desc(errno: i32) -> (text: String)
    ensures
        text@ == errno_description(errno as int),
        forall|i: int| 0 <= i < text@.len() ==> #[trigger] text@[i] != '\0',
{
    nix::errno::Errno::from_i32(errno).desc().to_string()
}

/// What can go wrong in a sandbox invocation.
#[derive(Debug, PartialEq, Eq)]
pub enum CatBoxError {
    /// Forking the child process failed.
    Fork(String),
    /// Creating the control group failed.
    Cgroup(String),
    /// The child could not start the program.
    Exec(String),
    /// The kernel refused a call; holds the error number.
    Nix(i32),
    /// The file system refused an operation.
    Fs(String),
    /// The command line is malformed.
    Cli(String),
    /// The logger could not be set up.
    Logger(String),
    /// Any other failure.
    Unknown(String),
}

/// What a [`CatBoxError`] holds, as plain values.
pub enum ErrorModel {
    Fork(Seq<char>),
    Cgroup(Seq<char>),
    Exec(Seq<char>),
    Nix(int),
    Fs(Seq<char>),
    Cli(Seq<char>),
    Logger(Seq<char>),
    Unknown(Seq<char>),
}

impl View for CatBoxError {
    type V = ErrorModel;

    open spec fn view(&self) -> ErrorModel {
        match self {
            CatBoxError::Fork(m) => ErrorModel::Fork(m@),
            CatBoxError::Cgroup(m) => ErrorModel::Cgroup(m@),
            CatBoxError::Exec(m) => ErrorModel::Exec(m@),
            CatBoxError::Nix(e) => ErrorModel::Nix(*e as int),
            CatBoxError::Fs(m) => ErrorModel::Fs(m@),
            CatBoxError::Cli(m) => ErrorModel::Cli(m@),
            CatBoxError::Logger(m) => ErrorModel::Logger(m@),
            CatBoxError::Unknown(m) => ErrorModel::Unknown(m@),
        }
    }
}

impl ErrorModel {
    /// The class of the error.
    pub open spec fn class(self) -> Seq<char> {
        match self {
            ErrorModel::Fork(_) => "CatBox Fork Error"@,
            ErrorModel::Cgroup(_) => "CatBox Cgroup Error"@,
            ErrorModel::Exec(_) => "CatBox Exec Error"@,
            ErrorModel::Nix(_) => "CatBox Nix Error"@,
            ErrorModel::Fs(_) => "CatBox File System Error"@,
            ErrorModel::Cli(_) => "CLI Error"@,
            ErrorModel::Logger(_) => "Logger Error"@,
            ErrorModel::Unknown(_) => "Unknown Error"@,
        }
    }

    /// What the error says beyond its class.
    pub open spec fn detail(self) -> Seq<char> {
        match self {
            ErrorModel::Fork(m) => m,
            ErrorModel::Cgroup(m) => m,
            ErrorModel::Exec(m) => m,
            ErrorModel::Nix(e) => errno_text(e),
            ErrorModel::Fs(m) => m,
            ErrorModel::Cli(m) => m,
            ErrorModel::Logger(m) => m,
            ErrorModel::Unknown(m) => m,
        }
    }

    /// The line that reports the error: its class, a colon and the detail.
    pub open spec fn message(self) -> Seq<char> {
        self.class() + ": "@ + self.detail()
    }

    /// The report of the error for a terminal: the class in bold red, then
    /// the detail.
    pub open spec fn terminal_report(self) -> Seq<char> {
        "\x1b[1m\x1b[91m"@ + self.class() + "\x1b[39m\x1b[22m  "@ + self.detail()
    }

    /// The report of the error for a program: a JSON object with the class
    /// and the detail.
    pub open spec fn json_report(self) -> Seq<char> {
        "{\n  \"ok\": false,\n  \"type\": \""@ + self.class() + "\",\n  \"message\": \""@
            + self.detail() + "\"\n}"@
    }
}

impl CatBoxError {
    /// A failure to fork the child process.
    pub fn fork(msg: &str) -> (e: CatBoxError)
        ensures
            e@ == ErrorModel::Fork(msg@),
    {
        CatBoxError::Fork(msg.to_owned())
    }

    /// A failure to set up the control group.
    pub fn cgroup(msg: &str) -> (e: CatBoxError)
        ensures
            e@ == ErrorModel::Cgroup(msg@),
    {
        CatBoxError::Cgroup(msg.to_owned())
    }

    /// A failure of the child to start the program.
    pub fn exec(msg: &str) -> (e: CatBoxError)
        ensures
            e@ == ErrorModel::Exec(msg@),
    {
        CatBoxError::Exec(msg.to_owned())
    }

    /// A malformed command line.
    pub fn cli(msg: &str) -> (e: CatBoxError)
        ensures
            e@ == ErrorModel::Cli(msg@),
    {
        CatBoxError::Cli(msg.to_owned())
    }

    /// The class of the error.
    pub fn class(&self) -> (text: &'static str)
        ensures
            text@ == self@.class(),
    {
        match self {
            CatBoxError::Fork(_) => "CatBox Fork Error",
            CatBoxError::Cgroup(_) => "CatBox Cgroup Error",
            CatBoxError::Exec(_) => "CatBox Exec Error",
            CatBoxError::Nix(_) => "CatBox Nix Error",
            CatBoxError::Fs(_) => "CatBox File System Error",
            CatBoxError::Cli(_) => "CLI Error",
            CatBoxError::Logger(_) => "Logger Error",
            CatBoxError::Unknown(_) => "Unknown Error",
        }
    }

    /// What the error says beyond its class.
    pub fn detail(&self) -> (text: String)
        ensures
            text@ == self@.detail(),
    {
        match self {
            CatBoxError::Fork(m) => m.clone(),
            CatBoxError::Cgroup(m) => m.clone(),
            CatBoxError::Exec(m) => m.clone(),
            CatBoxError::Nix(e) => errno_display(*e),
            CatBoxError::Fs(m) => m.clone(),
            CatBoxError::Cli(m) => m.clone(),
            CatBoxError::Logger(m) => m.clone(),
            CatBoxError::Unknown(m) => m.clone(),
        }
    }

    /// The line that reports the error.
    pub fn message(&self) -> (text: String)
        ensures
            text@ == self@.message(),
    {
        let detail = self.detail();
        String::from_str(self.class()).concat(": ").concat(detail.as_str())
    }
}

/// How the sandbox ends.
#[derive(Debug)]
pub enum CatBoxExit {
    /// The sandbox did its work
    Success,
    /// The sandbox gave up with this error
    Failure(CatBoxError),
}

impl CatBoxExit {
    /// The exit code of the process: zero on success.
    pub fn code(&self) -> (code: u8)
        ensures
            code == (if self is Success {
                0u8
            } else {
                1u8
            }),
    {
        match self {
            CatBoxExit::Success => 0,
            CatBoxExit::Failure(_) => 1,
        }
    }

    /// What to write to the standard error stream: nothing on success; the
    /// error otherwise, coloured for a terminal and as JSON for a program.
    pub fn report(&self, is_tty: bool) -> (text: Option<String>)
        ensures
            match self {
                CatBoxExit::Success => text is None,
                CatBoxExit::Failure(err) => text is Some && text->0@ == (if is_tty {
                    err@.terminal_report()
                } else {
                    err@.json_report()
                }),
            },
    {
        match self {
            CatBoxExit::Success => None,
            CatBoxExit::Failure(err) => {
                let prefix = err.class();
                let message = err.detail();
                if is_tty {
                    Some(
                        String::from_str("\x1b[1m\x1b[91m").concat(prefix).concat(
                            "\x1b[39m\x1b[22m  ",
                        ).concat(message.as_str()),
                    )
                } else {
                    Some(
                        String::from_str("{\n  \"ok\": false,\n  \"type\": \"").concat(
                            prefix,
                        ).concat("\",\n  \"message\": \"").concat(message.as_str()).concat(
                            "\"\n}",
                        ),
                    )
                }
            },
        }
    }
}

} // verus!
