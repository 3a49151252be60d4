//! The configuration of one sandboxed command, and what running it yields.

use crate::cgroup::CatBoxUsage;
use crate::error::{CatBoxError, ErrorModel};
use crate::jail::{teardown, teardown_paths};
use crate::mount::{default_mounts, MountPoint};
use crate::signal::{signal_text, Signal};
use crate::syscall::{default_filter, SyscallFilter};
use crate::text::{
    append_decimal, append_signed_decimal, decimal, lookup, pair_views, signed_decimal, split,
    split_on, value_of, views,
};
use vstd::prelude::*;
use vstd::string::StringExecFns;

verus! {

pub type TimeLimitType = u64;

pub type MemoryLimitType = u64;

pub type UidType = u32;

pub type GidType = u32;

/// The stack size that stands for "no limit".
pub const UNLIMITED_STACK: u64 = 0xffff_ffff_ffff_ffff;

/// What the host tells about itself. The library reads nothing of it by
/// itself: the caller looks it up and hands it over.
#[derive(Debug)]
pub struct HostEnvironment {
    /// The name of the user that runs the sandbox
    pub user_name: String,
    /// The user and group that run the sandbox
    pub uid: UidType,
    pub gid: GidType,
    /// The user `nobody` and the group `nogroup`
    pub nobody_uid: UidType,
    pub nogroup_gid: GidType,
    /// The working directory of the sandbox
    pub current_dir: String,
    /// The environment variables of the sandbox
    pub variables: Vec<(String, String)>,
}

/// The label of the control group: the variable `CATJ_CGROUP`, or else the
/// name of the user.
pub open spec fn default_cgroup(host: HostEnvironment) -> Seq<char> {
    match value_of(pair_views(host.variables@), "CATJ_CGROUP"@) {
        Some(label) => label,
        None => host.user_name@,
    }
}

/// The environment that a command starts with: the search path of the
/// sandbox, empty if it has none.
pub open spec fn default_env(host: HostEnvironment) -> Seq<(Seq<char>, Seq<char>)> {
    seq![
        (
            "PATH"@,
            match value_of(pair_views(host.variables@), "PATH"@) {
                Some(path) => path,
                None => Seq::<char>::empty(),
            },
        ),
    ]
}

/// What an environment string means: `KEY=VALUE` is that pair, `KEY` alone
/// takes the value from the environment of the sandbox, or the empty value.
/// More than one `=` is an error.
pub open spec fn parsed_env(text: Seq<char>, variables: Seq<(Seq<char>, Seq<char>)>) -> Option<
    (Seq<char>, Seq<char>),
> {
    let parts = split(text, '=', '=');
    if parts.len() == 2 {
        Some((parts[0], parts[1]))
    } else if parts.len() == 1 {
        Some(
            (
                parts[0],
                match value_of(variables, parts[0]) {
                    Some(value) => value,
                    None => Seq::<char>::empty(),
                },
            ),
        )
    } else {
        None
    }
}

/// Parses an environment string, written as `KEY=VALUE` or `KEY`.
pub fn parse_env(text: String, host: &HostEnvironment) -> (parsed: Result<
    (String, String),
    CatBoxError,
>)
    ensures
        match parsed {
            Ok(pair) => parsed_env(text@, pair_views(host.variables@)) == Some((pair.0@, pair.1@)),
            Err(e) => parsed_env(text@, pair_views(host.variables@)) is None && e@
                == ErrorModel::Cli("Wrong environment variable string format"@),
        },
{
    let arr = split_on(text.as_str(), '=', '=');
    if arr.len() == 2 {
        assert(views(arr@)[0] == arr@[0]@);
        assert(views(arr@)[1] == arr@[1]@);
        Ok((arr[0].clone(), arr[1].clone()))
    } else if arr.len() == 1 {
        assert(views(arr@)[0] == arr@[0]@);
        let key = arr[0].clone();
        let value = match lookup(&host.variables, key.as_str()) {
            Some(value) => value.clone(),
            None => String::new(),
        };
        Ok((key, value))
    } else {
        Err(CatBoxError::cli("Wrong environment variable string format"))
    }
}

/// CatBox running params that can config its behavior
#[derive(Debug)]
pub struct CatBoxOption {
    /// Used to identify command
    pub label: String,
    /// Time limit, in milliseconds of CPU time
    pub time_limit: TimeLimitType,
    /// Memory limit, in KiB
    pub memory_limit: MemoryLimitType,
    pub program: String,
    pub arguments: Vec<String>,
    pub uid: UidType,
    pub gid: GidType,
    /// The prefix of the control group's name
    pub cgroup: String,
    /// The number of processes that the command may hold
    pub process: u64,
    /// The syscall filter; without one the child is not traced
    pub ptrace: Option<SyscallFilter>,
    /// Stack limit in bytes; [`UNLIMITED_STACK`] lifts it
    pub stack_size: u64,
    /// The root of the jail; without one there is no jail
    pub chroot: Option<String>,
    /// The working directory, as seen from inside the jail
    pub cwd: String,
    pub mounts: Vec<MountPoint>,
    pub env: Vec<(String, String)>,
    pub stdin: Option<String>,
    pub stdout: Option<String>,
    pub stderr: Option<String>,
    /// Whether a missing cgroup controller is fatal
    pub force: bool,
    /// Whether the jail is kept for inspection
    pub debug: bool,
}

/// A limit on a resource of the child.
#[derive(Clone, Copy, Debug, PartialEq, Eq, Structural)]
pub enum Limit {
    /// No limit at all
    Infinity,
    /// At most this much
    Value(u64),
}

/// The stack limit that a configured stack size asks for.
pub open spec fn stack_limit(stack_size: u64) -> Limit {
    if stack_size == UNLIMITED_STACK {
        Limit::Infinity
    } else {
        Limit::Value(stack_size)
    }
}

impl CatBoxOption {
    /// The option that a command starts with.
    pub fn default(program: String, arguments: Vec<String>, host: &HostEnvironment) -> (option:
        Self)
        ensures
            option.label@ == "catbox"@,
            option.time_limit == 1000,
            option.memory_limit == 262144,
            option.program == program,
            option.arguments == arguments,
            option.uid == host.nobody_uid,
            option.gid == host.nogroup_gid,
            option.cgroup@ == default_cgroup(*host),
            option.process == 1,
            option.ptrace is Some && option.ptrace->0@ == default_filter(),
            option.stack_size == UNLIMITED_STACK,
            option.chroot is None,
            option.cwd@ == host.current_dir@,
            views(option.mounts@) == default_mounts(),
            pair_views(option.env@) == default_env(*host),
            option.stdin is None,
            option.stdout is None,
            option.stderr is None,
            !option.force,
            !option.debug,
    {
        let cgroup = match lookup(&host.variables, "CATJ_CGROUP") {
            Some(label) => label.clone(),
            None => host.user_name.clone(),
        };
        let path = match lookup(&host.variables, "PATH") {
            Some(path) => path.clone(),
            None => String::new(),
        };
        let mut env: Vec<(String, String)> = Vec::new();
        env.push(("PATH".to_owned(), path));
        assert(pair_views(env@) =~= default_env(*host));
        CatBoxOption {
            label: "catbox".to_owned(),
            time_limit: 1000,
            memory_limit: 262144,
            program,
            arguments,
            uid: host.nobody_uid,
            gid: host.nogroup_gid,
            cgroup,
            process: 1,
            ptrace: Some(SyscallFilter::default()),
            stack_size: UNLIMITED_STACK,
            chroot: None,
            cwd: host.current_dir.clone(),
            mounts: MountPoint::defaults(),
            env,
            stdin: None,
            stdout: None,
            stderr: None,
            force: false,
            debug: false,
        }
    }

    /// The paths to unmount, in this order, now that the command is done
    /// with: the targets of the mounts, then the root of the jail. There is
    /// nothing to unmount without a jail, or when the jail is kept for
    /// inspection.
    pub fn close(self) -> (paths: Vec<String>)
        ensures
            views(paths@) == (if self.chroot is Some && !self.debug {
                teardown_paths(self.chroot->0@, views(self.mounts@))
            } else {
                Seq::<Seq<char>>::empty()
            }),
    {
        self.closing()
    }

    fn closing(&self) -> (paths: Vec<String>)
        ensures
            views(paths@) == (if self.chroot is Some && !self.debug {
                teardown_paths(self.chroot->0@, views(self.mounts@))
            } else {
                Seq::<Seq<char>>::empty()
            }),
    {
        match &self.chroot {
            Some(new_root) => {
                if self.debug {
                    let paths: Vec<String> = Vec::new();
                    assert(views(paths@) =~= Seq::<Seq<char>>::empty());
                    paths
                } else {
                    teardown(new_root.as_str(), &self.mounts)
                }
            },
            None => {
                let paths: Vec<String> = Vec::new();
                assert(views(paths@) =~= Seq::<Seq<char>>::empty());
                paths
            },
        }
    }

    pub fn label(&self) -> (label: &String)
        ensures
            label == self.label,
    {
        &self.label
    }

    pub fn time_limit(&self) -> (limit: TimeLimitType)
        ensures
            limit == self.time_limit,
    {
        self.time_limit
    }

    pub fn memory_limit(&self) -> (limit: MemoryLimitType)
        ensures
            limit == self.memory_limit,
    {
        self.memory_limit
    }

    pub fn program(&self) -> (program: &String)
        ensures
            program == self.program,
    {
        &self.program
    }

    pub fn arguments(&self) -> (arguments: &Vec<String>)
        ensures
            arguments == self.arguments,
    {
        &self.arguments
    }

    pub fn uid(&self) -> (uid: UidType)
        ensures
            uid == self.uid,
    {
        self.uid
    }

    pub fn gid(&self) -> (gid: GidType)
        ensures
            gid == self.gid,
    {
        self.gid
    }

    pub fn cgroup(&self) -> (cgroup: &str)
        ensures
            cgroup@ == self.cgroup@,
    {
        self.cgroup.as_str()
    }

    pub fn process(&self) -> (process: u64)
        ensures
            process == self.process,
    {
        self.process
    }

    pub fn ptrace(&self) -> (ptrace: &Option<SyscallFilter>)
        ensures
            ptrace == self.ptrace,
    {
        &self.ptrace
    }

    /// The stack limit to set: none at all for [`UNLIMITED_STACK`].
    pub fn stack_size(&self) -> (limit: Limit)
        ensures
            limit == stack_limit(self.stack_size),
    {
        if self.stack_size == UNLIMITED_STACK {
            Limit::Infinity
        } else {
            Limit::Value(self.stack_size)
        }
    }

    pub fn chroot(&self) -> (chroot: &Option<String>)
        ensures
            chroot == self.chroot,
    {
        &self.chroot
    }

    pub fn cwd(&self) -> (cwd: &String)
        ensures
            cwd == self.cwd,
    {
        &self.cwd
    }

    pub fn mounts(&self) -> (mounts: &Vec<MountPoint>)
        ensures
            mounts == self.mounts,
    {
        &self.mounts
    }

    pub fn env(&self) -> (env: &Vec<(String, String)>)
        ensures
            env == self.env,
    {
        &self.env
    }

    pub fn stdin(&self) -> (stdin: &Option<String>)
        ensures
            stdin == self.stdin,
    {
        &self.stdin
    }

    pub fn stdout(&self) -> (stdout: &Option<String>)
        ensures
            stdout == self.stdout,
    {
        &self.stdout
    }

    pub fn stderr(&self) -> (stderr: &Option<String>)
        ensures
            stderr == self.stderr,
    {
        &self.stderr
    }

    pub fn force(&self) -> (force: bool)
        ensures
            force == self.force,
    {
        self.force
    }

    pub fn debug(&self) -> (debug: bool)
        ensures
            debug == self.debug,
    {
        self.debug
    }
}

/// CatBox running result
#[derive(Clone, Copy, Debug, PartialEq, Eq, Structural)]
pub struct CatBoxResult {
    pub status: Option<i32>,
    pub signal: Option<Signal>,
    pub time: TimeLimitType,
    pub time_user: TimeLimitType,
    pub time_sys: TimeLimitType,
    pub memory: MemoryLimitType,
}

impl CatBoxResult {
    /// The result of a run that ended with the given status or signal and
    /// used the given resources.
    pub fn new(status: Option<i32>, signal: Option<Signal>, usage: CatBoxUsage) -> (result: Self)
        ensures
            result == (CatBoxResult {
                status,
                signal,
                time: usage.time,
                time_user: usage.time_user,
                time_sys: usage.time_sys,
                memory: usage.memory,
            }),
    {
        CatBoxResult {
            status,
            signal,
            time: usage.time(),
            time_user: usage.time_user(),
            time_sys: usage.time_sys(),
            memory: usage.memory(),
        }
    }

    pub fn status(&self) -> (status: &Option<i32>)
        ensures
            status == self.status,
    {
        &self.status
    }

    pub fn signal(&self) -> (signal: &Option<Signal>)
        ensures
            signal == self.signal,
    {
        &self.signal
    }

    pub fn time(&self) -> (time: TimeLimitType)
        ensures
            time == self.time,
    {
        self.time
    }

    pub fn time_user(&self) -> (time: TimeLimitType)
        ensures
            time == self.time_user,
    {
        self.time_user
    }

    pub fn time_sys(&self) -> (time: TimeLimitType)
        ensures
            time == self.time_sys,
    {
        self.time_sys
    }

    pub fn memory(&self) -> (memory: MemoryLimitType)
        ensures
            memory == self.memory,
    {
        self.memory
    }
}

/// How the exit status stands in a JSON report.
pub open spec fn status_json(status: Option<i32>) -> Seq<char> {
    match status {
        Some(v) => signed_decimal(v as int),
        None => "null"@,
    }
}

/// How the signal stands in a JSON report.
pub open spec fn signal_json(signal: Option<Signal>) -> Seq<char> {
    match signal {
        Some(v) => "\""@ + signal_text(v.number()) + "\""@,
        None => "null"@,
    }
}

/// The JSON report of a result, line by line.
pub open spec fn json_report(result: CatBoxResult) -> Seq<char> {
    "{\n  \"ok\": true,\n  \"status\": "@ + status_json(result.status)
        + ",\n  \"signal\": "@ + signal_json(result.signal) + ",\n  \"time\": "@ + decimal(
        result.time as nat,
    ) + ",\n  \"time_user\": "@ + decimal(result.time_user as nat) + ",\n  \"time_sys\": "@
        + decimal(result.time_sys as nat) + ",\n  \"memory\": "@ + decimal(result.memory as nat)
        + "\n}\n"@
}

/// How the exit status stands in a report for a terminal: green for zero,
/// red otherwise, a red cross without a status.
pub open spec fn status_human(status: Option<i32>) -> Seq<char> {
    match status {
        Some(v) => (if v == 0 {
            "\x1b[92m"@
        } else {
            "\x1b[91m"@
        }) + signed_decimal(v as int) + "\x1b[39m"@,
        None => "\x1b[91m\u{d7}\x1b[39m"@,
    }
}

/// How the signal stands in a report for a terminal: red, or a green check
/// mark without a signal.
pub open spec fn signal_human(signal: Option<Signal>) -> Seq<char> {
    match signal {
        Some(v) => "\x1b[91m"@ + signal_text(v.number()) + "\x1b[39m"@,
        None => "\x1b[92m\u{2713}\x1b[39m"@,
    }
}

/// The report of a result for a terminal, line by line.
pub open spec fn human_report(result: CatBoxResult) -> Seq<char> {
    "\n\x1b[1mStatus\x1b[22m     "@ + status_human(result.status)
        + "\n\x1b[1mSignal\x1b[22m     "@ + signal_human(result.signal)
        + "\n\x1b[1mTime\x1b[22m       "@ + decimal(result.time as nat)
        + " ms\n\x1b[1mTime user\x1b[22m  "@ + decimal(result.time_user as nat)
        + " ms\n\x1b[1mTime sys\x1b[22m   "@ + decimal(result.time_sys as nat)
        + " ms\n\x1b[1mMemory\x1b[22m     "@ + decimal(result.memory as nat) + " KB\n\n"@
}

impl CatBoxResult {
    /// The result as a JSON object.
    pub fn report_json(&self) -> (text: String)
        ensures
            text@ == json_report(*self),
    {
        let mut text = String::from_str("{\n  \"ok\": true,\n  \"status\": ");
        match self.status {
            Some(v) => append_signed_decimal(&mut text, v as i64),
            None => text.append("null"),
        }
        text.append(",\n  \"signal\": ");
        match self.signal {
            Some(v) => {
                let name = v.name();
                let quoted = String::from_str("\"").concat(name.as_str()).concat("\"");
                text.append(quoted.as_str());
            },
            None => text.append("null"),
        }
        text.append(",\n  \"time\": ");
        append_decimal(&mut text, self.time);
        text.append(",\n  \"time_user\": ");
        append_decimal(&mut text, self.time_user);
        text.append(",\n  \"time_sys\": ");
        append_decimal(&mut text, self.time_sys);
        text.append(",\n  \"memory\": ");
        append_decimal(&mut text, self.memory);
        text.append("\n}\n");
        text
    }

    /// The result as a table for a terminal.
    pub fn report_human(&self) -> (text: String)
        ensures
            text@ == human_report(*self),
    {
        let mut text = String::from_str("\n\x1b[1mStatus\x1b[22m     ");
        match self.status {
            Some(v) => {
                let mut shown = String::from_str(
                    if v == 0 {
                        "\x1b[92m"
                    } else {
                        "\x1b[91m"
                    },
                );
                append_signed_decimal(&mut shown, v as i64);
                shown.append("\x1b[39m");
                text.append(shown.as_str());
            },
            None => text.append("\x1b[91m\u{d7}\x1b[39m"),
        }
        text.append("\n\x1b[1mSignal\x1b[22m     ");
        match self.signal {
            Some(v) => {
                let name = v.name();
                let shown = String::from_str("\x1b[91m").concat(name.as_str()).concat(
                    "\x1b[39m",
                );
                text.append(shown.as_str());
            },
            None => text.append("\x1b[92m\u{2713}\x1b[39m"),
        }
        text.append("\n\x1b[1mTime\x1b[22m       ");
        append_decimal(&mut text, self.time);
        text.append(" ms\n\x1b[1mTime user\x1b[22m  ");
        append_decimal(&mut text, self.time_user);
        text.append(" ms\n\x1b[1mTime sys\x1b[22m   ");
        append_decimal(&mut text, self.time_sys);
        text.append(" ms\n\x1b[1mMemory\x1b[22m     ");
        append_decimal(&mut text, self.memory);
        text.append(" KB\n\n");
        text
    }
}

/// The sum of the times of some results.
pub open spec fn total_time(results: Seq<CatBoxResult>) -> int
    decreases results.len(),
{
    if results.len() == 0 {
        0
    } else {
        total_time(results.drop_last()) + results.last().time
    }
}

/// The sum of the memory peaks of some results.
pub open spec fn total_memory(results: Seq<CatBoxResult>) -> int
    decreases results.len(),
{
    if results.len() == 0 {
        0
    } else {
        total_memory(results.drop_last()) + results.last().memory
    }
}

/// The longest time among some results, zero if there is none.
pub open spec fn longest_time(results: Seq<CatBoxResult>) -> int
    decreases results.len(),
{
    if results.len() == 0 {
        0
    } else if results.last().time >= longest_time(results.drop_last()) {
        results.last().time as int
    } else {
        longest_time(results.drop_last())
    }
}

/// The highest memory peak among some results, zero if there is none.
pub open spec fn highest_memory(results: Seq<CatBoxResult>) -> int
    decreases results.len(),
{
    if results.len() == 0 {
        0
    } else if results.last().memory >= highest_memory(results.drop_last()) {
        results.last().memory as int
    } else {
        highest_memory(results.drop_last())
    }
}

/// The context of a run: the results of its commands, with their sums and
/// maxima.
#[derive(Debug)]
pub struct CatBoxRunContext {
    pub max_time: TimeLimitType,
    pub max_memory: MemoryLimitType,
    pub sum_time: TimeLimitType,
    pub sum_memory: MemoryLimitType,
    pub results: Vec<CatBoxResult>,
}

/// The context of a compilation.
#[derive(Debug)]
pub struct CatBoxCompileContext {}

/// The context of a judgement.
#[derive(Debug)]
pub struct CatBoxJudgeContext {}

impl CatBoxRunContext {
    /// The sums and maxima are those of the results.
    pub open spec fn wf(&self) -> bool {
        &&& self.sum_time == total_time(self.results@)
        &&& self.sum_memory == total_memory(self.results@)
        &&& self.max_time == longest_time(self.results@)
        &&& self.max_memory == highest_memory(self.results@)
    }

    /// A context without results.
    pub fn new() -> (context: Self)
        ensures
            context.wf(),
            context.results@.len() == 0,
    {
        CatBoxRunContext {
            max_time: 0,
            max_memory: 0,
            sum_time: 0,
            sum_memory: 0,
            results: Vec::new(),
        }
    }

    /// Whether the sums and maxima are those of the results.
    pub fn is_wf(&self) -> (ok: bool)
        ensures
            ok == self.wf(),
    {
        let mut sum_time: u128 = 0;
        let mut sum_memory: u128 = 0;
        let mut max_time: u64 = 0;
        let mut max_memory: u64 = 0;
        let mut i: usize = 0;
        while i < self.results.len()
            invariant
                i <= self.results.len(),
                sum_time == total_time(self.results@.take(i as int)),
                sum_memory == total_memory(self.results@.take(i as int)),
                max_time == longest_time(self.results@.take(i as int)),
                max_memory == highest_memory(self.results@.take(i as int)),
                sum_time <= i * 0xffff_ffff_ffff_ffff,
                sum_memory <= i * 0xffff_ffff_ffff_ffff,
            decreases self.results.len() - i,
        {
            let result = &self.results[i];
            proof {
                let upto = self.results@.take(i as int + 1);
                assert(upto.drop_last() == self.results@.take(i as int));
                assert(upto.last() == *result);
            }
            sum_time = sum_time + result.time as u128;
            sum_memory = sum_memory + result.memory as u128;
            if result.time >= max_time {
                max_time = result.time;
            }
            if result.memory >= max_memory {
                max_memory = result.memory;
            }
            i += 1;
        }
        assert(self.results@.take(i as int) == self.results@);
        sum_time == self.sum_time as u128 && sum_memory == self.sum_memory as u128 && max_time
            == self.max_time && max_memory == self.max_memory
    }

    /// Whether the sums have room for one more result.
    pub fn has_room(&self, result: &CatBoxResult) -> (room: bool)
        ensures
            room == (self.sum_time + result.time <= u64::MAX && self.sum_memory + result.memory
                <= u64::MAX),
    {
        result.time <= u64::MAX - self.sum_time && result.memory <= u64::MAX - self.sum_memory
    }

    /// Takes the result of one more command in.
    pub fn add_result(&mut self, _label: &String, result: CatBoxResult)
        requires
            old(self).wf(),
            old(self).sum_time + result.time <= u64::MAX,
            old(self).sum_memory + result.memory <= u64::MAX,
        ensures
            final(self).wf(),
            final(self).results@ == old(self).results@.push(result),
    {
        let ghost before = self.results@;
        self.max_time = if result.time >= self.max_time {
            result.time
        } else {
            self.max_time
        };
        self.max_memory = if result.memory >= self.max_memory {
            result.memory
        } else {
            self.max_memory
        };
        self.sum_time += result.time;
        self.sum_memory += result.memory;
        self.results.push(result);
        assert(self.results@.drop_last() == before);
    }

    /// The report of a run of one command for a terminal.
    pub fn report_human(&self) -> (text: String)
        requires
            self.results@.len() == 1,
        ensures
            text@ == human_report(self.results@[0]),
    {
        self.results[0].report_human()
    }

    /// The report of a run of one command as JSON.
    pub fn report_json(&self) -> (text: String)
        requires
            self.results@.len() == 1,
        ensures
            text@ == json_report(self.results@[0]),
    {
        self.results[0].report_json()
    }

    /// The report that suits the standard output: a table for a terminal,
    /// JSON otherwise.
    pub fn report(&self, is_tty: bool) -> (text: String)
        requires
            self.results@.len() == 1,
        ensures
            text@ == (if is_tty {
                human_report(self.results@[0])
            } else {
                json_report(self.results@[0])
            }),
    {
        if is_tty {
            self.report_human()
        } else {
            self.report_json()
        }
    }
}

/// What a sandbox keeps of the commands it ran.
#[derive(Debug)]
pub enum CatBoxContext {
    Run(CatBoxRunContext),
    Compile(CatBoxCompileContext),
    Judge(CatBoxJudgeContext),
}

impl CatBoxContext {
    /// The context can take a result in: it is that of a run, and its sums
    /// and maxima are those of its results.
    pub open spec fn wf(&self) -> bool {
        self matches CatBoxContext::Run(run) && run.wf()
    }

    /// The results that the context holds.
    pub open spec fn results(&self) -> Seq<CatBoxResult> {
        match self {
            CatBoxContext::Run(run) => run.results@,
            _ => Seq::<CatBoxResult>::empty(),
        }
    }

    /// Whether the context can take a result in: it is that of a run, its
    /// sums and maxima are those of its results, and the sums have room.
    pub fn accepts(&self, result: &CatBoxResult) -> (ok: bool)
        ensures
            ok == (self.wf() && total_time(self.results()) + result.time <= u64::MAX
                && total_memory(self.results()) + result.memory <= u64::MAX),
    {
        match self {
            CatBoxContext::Run(run) => run.is_wf() && run.has_room(result),
            _ => false,
        }
    }

    /// Takes the result of one more command in.
    pub fn add_result(&mut self, label: &String, result: CatBoxResult)
        requires
            old(self).wf(),
            total_time(old(self).results()) + result.time <= u64::MAX,
            total_memory(old(self).results()) + result.memory <= u64::MAX,
        ensures
            final(self).wf(),
            final(self).results() == old(self).results().push(result),
    {
        match self {
            CatBoxContext::Run(run) => run.add_result(label, result),
            _ => {},
        }
    }

    /// The report that suits the standard output.
    pub fn report(&self, is_tty: bool) -> (text: String)
        requires
            self.results().len() == 1,
        ensures
            text@ == (if is_tty {
                human_report(self.results()[0])
            } else {
                json_report(self.results()[0])
            }),
    {
        match self {
            CatBoxContext::Run(run) => run.report(is_tty),
            _ => String::new(),
        }
    }

    /// The report as JSON.
    pub fn report_json(&self) -> (text: String)
        requires
            self.results().len() == 1,
        ensures
            text@ == json_report(self.results()[0]),
    {
        match self {
            CatBoxContext::Run(run) => run.report_json(),
            _ => String::new(),
        }
    }
}

/// CatBox top structure for context and multiple commands
#[derive(Debug)]
pub struct CatBox {
    pub context: CatBoxContext,
    pub options: Vec<CatBoxOption>,
}

/// The paths to unmount for a list of commands, command by command.
pub open spec fn closing_paths(options: Seq<CatBoxOption>) -> Seq<Seq<char>>
    decreases options.len(),
{
    if options.len() == 0 {
        Seq::<Seq<char>>::empty()
    } else {
        closing_paths(options.drop_last()) + (if options.last().chroot is Some
            && !options.last().debug {
            teardown_paths(options.last().chroot->0@, views(options.last().mounts@))
        } else {
            Seq::<Seq<char>>::empty()
        })
    }
}

impl CatBox {
    /// List all the commands
    pub fn commands(&self) -> (commands: &Vec<CatBoxOption>)
        ensures
            commands == self.options,
    {
        &self.options
    }

    /// Return the only command when there is just one command
    pub fn single(&self) -> (only: Option<&CatBoxOption>)
        ensures
            match only {
                Some(option) => self.options@.len() == 1 && *option == self.options@[0],
                None => self.options@.len() != 1,
            },
    {
        if self.options.len() == 1 {
            Some(&self.options[0])
        } else {
            None
        }
    }

    /// Whether the result of one more command can be taken in.
    pub fn accepts(&self, result: &CatBoxResult) -> (ok: bool)
        ensures
            ok == (self.context.wf() && total_time(self.context.results()) + result.time
                <= u64::MAX && total_memory(self.context.results()) + result.memory <= u64::MAX),
    {
        self.context.accepts(result)
    }

    /// Whether the sandbox holds the result of exactly one command, which is
    /// what a report takes.
    pub fn reports(&self) -> (ok: bool)
        ensures
            ok == (self.context.results().len() == 1),
    {
        match &self.context {
            CatBoxContext::Run(run) => run.results.len() == 1,
            _ => false,
        }
    }

    /// Takes in the result of one command that was run.
    pub fn add_result(&mut self, label: &String, result: CatBoxResult)
        requires
            old(self).context.wf(),
            total_time(old(self).context.results()) + result.time <= u64::MAX,
            total_memory(old(self).context.results()) + result.memory <= u64::MAX,
        ensures
            final(self).context.wf(),
            final(self).context.results() == old(self).context.results().push(result),
            final(self).options == old(self).options,
    {
        self.context.add_result(label, result);
    }

    /// Report usage
    pub fn report(&self, is_tty: bool) -> (text: String)
        requires
            self.context.results().len() == 1,
        ensures
            text@ == (if is_tty {
                human_report(self.context.results()[0])
            } else {
                json_report(self.context.results()[0])
            }),
    {
        self.context.report(is_tty)
    }

    /// Report json format usage
    pub fn report_json(&self) -> (text: String)
        requires
            self.context.results().len() == 1,
        ensures
            text@ == json_report(self.context.results()[0]),
    {
        self.context.report_json()
    }

    /// Close all the CatBoxes: the paths to unmount, command by command.
    pub fn close(self) -> (paths: Vec<String>)
        ensures
            views(paths@) == closing_paths(self.options@),
    {
        let mut paths: Vec<String> = Vec::new();
        let mut i: usize = 0;
        assert(views(paths@) =~= Seq::<Seq<char>>::empty());
        while i < self.options.len()
            invariant
                i <= self.options.len(),
                views(paths@) == closing_paths(self.options@.take(i as int)),
            decreases self.options.len() - i,
        {
            let option = &self.options[i];
            proof {
                assert(self.options@.take(i as int + 1).drop_last() == self.options@.take(i as int));
                assert(self.options@.take(i as int + 1).last() == *option);
            }
            let mut more = option.closing();
            let ghost before = views(paths@);
            let ghost added = views(more@);
            paths.append(&mut more);
            assert(views(paths@) =~= before + added);
            i += 1;
        }
        assert(self.options@.take(i as int) == self.options@);
        paths
    }
}

} // verus!
