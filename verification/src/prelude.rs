//! The child's prelude: what the child does, in order, between the fork and
//! the start of the program. The order is part of the contract.

use crate::context::{stack_limit, CatBoxOption, Limit};
use crate::error::{errno_desc, errno_description};
use crate::pipe::{framed, lemma_message_survives, message_text};
use crate::signal::Signal;
use crate::text::{opt_view, pair_views, views};
use vstd::prelude::*;
use vstd::string::StringExecFns;

verus! {

/// One of the three standard streams of a process.
#[derive(Clone, Copy, Debug, PartialEq, Eq, Structural)]
pub enum StandardStream {
    Stdin,
    Stdout,
    Stderr,
}

/// How a redirected stream is opened.
#[derive(Clone, Copy, Debug, PartialEq, Eq, Structural)]
pub enum OpenMode {
    Read,
    Write,
}

/// A standard stream that is reopened onto a file.
#[derive(Debug, PartialEq, Eq)]
pub struct Redirection {
    pub stream: StandardStream,
    pub path: String,
    pub mode: OpenMode,
}

/// What a [`Redirection`] holds, as plain values.
pub struct RedirectionModel {
    pub stream: StandardStream,
    pub path: Seq<char>,
    pub mode: OpenMode,
}

impl View for Redirection {
    type V = RedirectionModel;

    open spec fn view(&self) -> RedirectionModel {
        RedirectionModel { stream: self.stream, path: self.path@, mode: self.mode }
    }
}

/// A resource that `setrlimit` bounds.
#[derive(Clone, Copy, Debug, PartialEq, Eq, Structural)]
pub enum Resource {
    /// CPU time, in seconds
    Cpu,
    /// The size of the address space, in bytes
    AddressSpace,
    /// The size of the stack, in bytes
    Stack,
    /// The size of a file that the process writes, in bytes
    FileSize,
}

/// One call of `setrlimit`.
#[derive(Clone, Copy, Debug, PartialEq, Eq, Structural)]
pub struct ResourceLimit {
    pub resource: Resource,
    pub soft: Limit,
    pub hard: Limit,
}

/// The most that the child may write to one file: 256 MiB.
pub const MAX_OUTPUT_BYTES: u64 = 268435456;

/// How the prelude goes on when a step fails.
#[derive(Clone, Copy, Debug, PartialEq, Eq, Structural)]
pub enum FailurePolicy {
    /// The failure is not looked at
    Ignore,
    /// The failure is logged and the prelude goes on
    Log,
    /// The child gives up
    Fatal,
    /// The failure is written to the pipe and the child exits with status 1
    Report,
}

/// One step of the prelude.
#[derive(Debug, PartialEq, Eq)]
pub enum PreludeStep {
    /// Ask for this signal when the parent dies
    ParentDeathSignal(Signal),
    /// Keep the write end of the pipe to the parent, close the other
    AcquirePipe,
    /// Reopen a standard stream onto a file
    Redirect(Redirection),
    /// Build the jail below this root and enter it
    EnterJail { root: String },
    /// Ask for `SIGALRM` after this many seconds
    Alarm(u64),
    /// Bound a resource
    SetLimit(ResourceLimit),
    SetGid(u32),
    SetUid(u32),
    /// Ask to be traced by the parent
    TraceMe,
    /// Replace the process by the program
    Exec { program: String, arguments: Vec<String>, env: Vec<String> },
}

/// What a [`PreludeStep`] holds, as plain values.
pub enum PreludeModel {
    ParentDeathSignal(Signal),
    AcquirePipe,
    Redirect(RedirectionModel),
    EnterJail { root: Seq<char> },
    Alarm(u64),
    SetLimit(ResourceLimit),
    SetGid(u32),
    SetUid(u32),
    TraceMe,
    Exec { program: Seq<char>, arguments: Seq<Seq<char>>, env: Seq<Seq<char>> },
}

impl View for PreludeStep {
    type V = PreludeModel;

    open spec fn view(&self) -> PreludeModel {
        match self {
            PreludeStep::ParentDeathSignal(signal) => PreludeModel::ParentDeathSignal(*signal),
            PreludeStep::AcquirePipe => PreludeModel::AcquirePipe,
            PreludeStep::Redirect(redirection) => PreludeModel::Redirect(redirection@),
            PreludeStep::EnterJail { root } => PreludeModel::EnterJail { root: root@ },
            PreludeStep::Alarm(seconds) => PreludeModel::Alarm(*seconds),
            PreludeStep::SetLimit(limit) => PreludeModel::SetLimit(*limit),
            PreludeStep::SetGid(gid) => PreludeModel::SetGid(*gid),
            PreludeStep::SetUid(uid) => PreludeModel::SetUid(*uid),
            PreludeStep::TraceMe => PreludeModel::TraceMe,
            PreludeStep::Exec { program, arguments, env } => PreludeModel::Exec {
                program: program@,
                arguments: views(arguments@),
                env: views(env@),
            },
        }
    }
}

/// A time limit in whole seconds, rounded up.
pub open spec fn ceil_seconds(time_limit_ms: u64) -> int {
    (time_limit_ms + 999) / 1000
}

/// The seconds after which the child is stopped for good: the time limit
/// rounded up, and one second of grace.
pub open spec fn deadline_seconds(time_limit_ms: u64) -> int {
    ceil_seconds(time_limit_ms) + 1
}

/// The redirections that the configured paths ask for, in the order stdin,
/// stdout, stderr. A stream without a path is left alone.
pub open spec fn redirections(
    stdin: Option<Seq<char>>,
    stdout: Option<Seq<char>>,
    stderr: Option<Seq<char>>,
) -> Seq<RedirectionModel> {
    (match stdin {
        Some(path) => seq![
            RedirectionModel { stream: StandardStream::Stdin, path, mode: OpenMode::Read },
        ],
        None => seq![],
    }) + (match stdout {
        Some(path) => seq![
            RedirectionModel { stream: StandardStream::Stdout, path, mode: OpenMode::Write },
        ],
        None => seq![],
    }) + (match stderr {
        Some(path) => seq![
            RedirectionModel { stream: StandardStream::Stderr, path, mode: OpenMode::Write },
        ],
        None => seq![],
    })
}

/// The limits that the child sets on itself: CPU time up to the deadline,
/// an unbounded address space, the configured stack, and the output cap.
/// Soft and hard limit are the same.
pub open spec fn resource_limits(time_limit_ms: u64, stack_size: u64) -> Seq<ResourceLimit> {
    seq![
        ResourceLimit {
            resource: Resource::Cpu,
            soft: Limit::Value(deadline_seconds(time_limit_ms) as u64),
            hard: Limit::Value(deadline_seconds(time_limit_ms) as u64),
        },
        ResourceLimit {
            resource: Resource::AddressSpace,
            soft: Limit::Infinity,
            hard: Limit::Infinity,
        },
        ResourceLimit {
            resource: Resource::Stack,
            soft: stack_limit(stack_size),
            hard: stack_limit(stack_size),
        },
        ResourceLimit {
            resource: Resource::FileSize,
            soft: Limit::Value(MAX_OUTPUT_BYTES),
            hard: Limit::Value(MAX_OUTPUT_BYTES),
        },
    ]
}

/// The environment of the program: one `key=value` line for each pair.
pub open spec fn env_lines(env: Seq<(Seq<char>, Seq<char>)>) -> Seq<Seq<char>> {
    Seq::new(env.len(), |i: int| env[i].0 + seq!['='] + env[i].1)
}

/// The argument vector of the program: its own path, then its arguments.
pub open spec fn command_line(program: Seq<char>, arguments: Seq<Seq<char>>) -> Seq<Seq<char>> {
    seq![program] + arguments
}

/// The prelude for an option, step by step.
pub open spec fn prelude_steps(option: CatBoxOption) -> Seq<PreludeModel> {
    let limits = resource_limits(option.time_limit, option.stack_size);
    seq![PreludeModel::ParentDeathSignal(Signal::SIGTERM), PreludeModel::AcquirePipe]
        + redirections(
        opt_view(option.stdin),
        opt_view(option.stdout),
        opt_view(option.stderr),
    ).map_values(|r: RedirectionModel| PreludeModel::Redirect(r)) + (match option.chroot {
        Some(root) => seq![PreludeModel::EnterJail { root: root@ }],
        None => seq![],
    }) + seq![
        PreludeModel::Alarm(deadline_seconds(option.time_limit) as u64),
        PreludeModel::SetLimit(limits[0]),
        PreludeModel::SetLimit(limits[1]),
        PreludeModel::SetLimit(limits[2]),
        PreludeModel::SetLimit(limits[3]),
        PreludeModel::SetGid(option.gid),
        PreludeModel::SetUid(option.uid),
    ] + (if option.ptrace is Some {
        seq![PreludeModel::TraceMe]
    } else {
        seq![]
    }) + seq![
        PreludeModel::Exec {
            program: option.program@,
            arguments: command_line(option.program@, views(option.arguments@)),
            env: env_lines(pair_views(option.env@)),
        },
    ]
}

/// What the child writes to the pipe when the program cannot be started.
pub open spec fn exec_failure_text(errno: int) -> Seq<char> {
    "Execvpe fails: "@ + errno_description(errno)
}

impl PreludeModel {
    /// How the prelude goes on when this step fails.
    pub open spec fn on_failure(self) -> FailurePolicy {
        match self {
            PreludeModel::ParentDeathSignal(_) => FailurePolicy::Fatal,
            PreludeModel::AcquirePipe => FailurePolicy::Fatal,
            PreludeModel::Redirect(_) => FailurePolicy::Ignore,
            PreludeModel::EnterJail { .. } => FailurePolicy::Log,
            PreludeModel::Alarm(_) => FailurePolicy::Ignore,
            PreludeModel::SetLimit(_) => FailurePolicy::Fatal,
            PreludeModel::SetGid(_) => FailurePolicy::Log,
            PreludeModel::SetUid(_) => FailurePolicy::Log,
            PreludeModel::TraceMe => FailurePolicy::Fatal,
            PreludeModel::Exec { .. } => FailurePolicy::Report,
        }
    }
}

impl PreludeStep {
    /// How the prelude goes on when this step fails.
    pub fn on_failure(&self) -> (policy: FailurePolicy)
        ensures
            policy == self@.on_failure(),
    {
        match self {
            PreludeStep::ParentDeathSignal(_) => FailurePolicy::Fatal,
            PreludeStep::AcquirePipe => FailurePolicy::Fatal,
            PreludeStep::Redirect(_) => FailurePolicy::Ignore,
            PreludeStep::EnterJail { .. } => FailurePolicy::Log,
            PreludeStep::Alarm(_) => FailurePolicy::Ignore,
            PreludeStep::SetLimit(_) => FailurePolicy::Fatal,
            PreludeStep::SetGid(_) => FailurePolicy::Log,
            PreludeStep::SetUid(_) => FailurePolicy::Log,
            PreludeStep::TraceMe => FailurePolicy::Fatal,
            PreludeStep::Exec { .. } => FailurePolicy::Report,
        }
    }
}

/// The redirections of the standard streams that the option asks for.
pub fn redirect_io(option: &CatBoxOption) -> (plan: Vec<Redirection>)
    ensures
        views(plan@) == redirections(
            opt_view(option.stdin),
            opt_view(option.stdout),
            opt_view(option.stderr),
        ),
{
    let mut plan: Vec<Redirection> = Vec::new();
    if let Some(in_path) = option.stdin() {
        plan.push(
            Redirection { stream: StandardStream::Stdin, path: in_path.clone(), mode: OpenMode::Read },
        );
    }
    let ghost first = views(plan@);
    if let Some(out_path) = option.stdout() {
        plan.push(
            Redirection {
                stream: StandardStream::Stdout,
                path: out_path.clone(),
                mode: OpenMode::Write,
            },
        );
    }
    let ghost second = views(plan@);
    assert(second =~= first + (match opt_view(option.stdout) {
        Some(path) => seq![
            RedirectionModel { stream: StandardStream::Stdout, path, mode: OpenMode::Write },
        ],
        None => seq![],
    }));
    if let Some(err_path) = option.stderr() {
        plan.push(
            Redirection {
                stream: StandardStream::Stderr,
                path: err_path.clone(),
                mode: OpenMode::Write,
            },
        );
    }
    assert(views(plan@) =~= second + (match opt_view(option.stderr) {
        Some(path) => seq![
            RedirectionModel { stream: StandardStream::Stderr, path, mode: OpenMode::Write },
        ],
        None => seq![],
    }));
    assert(first =~= (match opt_view(option.stdin) {
        Some(path) => seq![
            RedirectionModel { stream: StandardStream::Stdin, path, mode: OpenMode::Read },
        ],
        None => seq![],
    }));
    plan
}

fn limit_seconds(time_limit: u64) -> (seconds: u64)
    ensures
        seconds == ceil_seconds(time_limit),
{
    if time_limit % 1000 == 0 {
        time_limit / 1000
    } else {
        time_limit / 1000 + 1
    }
}

/// Whether the deadline of the option fits the alarm of the kernel, which
/// counts seconds in 32 bits.
pub fn fits_alarm(option: &CatBoxOption) -> (fits: bool)
    ensures
        fits == (deadline_seconds(option.time_limit) <= u32::MAX),
{
    limit_seconds(option.time_limit()) < 0xffff_ffff
}

/// The seconds to set the alarm to: the time limit rounded up to whole
/// seconds, and one second more.
pub fn set_alarm(option: &CatBoxOption) -> (seconds: u64)
    ensures
        seconds == deadline_seconds(option.time_limit),
{
    let time_limit = limit_seconds(option.time_limit());
    time_limit + 1
}

/// The resource limits to set, in the order in which they are set.
pub fn set_resource_limit(option: &CatBoxOption) -> (limits: Vec<ResourceLimit>)
    ensures
        limits@ == resource_limits(option.time_limit, option.stack_size),
{
    let time_limit = limit_seconds(option.time_limit());
    let cpu = Limit::Value(time_limit + 1);
    let stack_size = option.stack_size();
    let fsize = Limit::Value(MAX_OUTPUT_BYTES);
    let mut limits: Vec<ResourceLimit> = Vec::new();
    limits.push(ResourceLimit { resource: Resource::Cpu, soft: cpu, hard: cpu });
    limits.push(
        ResourceLimit {
            resource: Resource::AddressSpace,
            soft: Limit::Infinity,
            hard: Limit::Infinity,
        },
    );
    limits.push(ResourceLimit { resource: Resource::Stack, soft: stack_size, hard: stack_size });
    limits.push(ResourceLimit { resource: Resource::FileSize, soft: fsize, hard: fsize });
    assert(limits@ =~= resource_limits(option.time_limit, option.stack_size));
    limits
}

/// The environment to start the program with.
pub fn get_env(option: &CatBoxOption) -> (envs: Vec<String>)
    ensures
        views(envs@) == env_lines(pair_views(option.env@)),
{
    let env = option.env();
    let mut envs: Vec<String> = Vec::new();
    let mut i: usize = 0;
    while i < env.len()
        invariant
            env == option.env,
            i <= env.len(),
            views(envs@) == env_lines(pair_views(option.env@)).take(i as int),
        decreases env.len() - i,
    {
        proof {
            reveal_strlit("=");
            assert("="@ =~= seq!['=']);
        }
        let pair = env[i].0.clone().concat("=").concat(env[i].1.as_str());
        let ghost before = views(envs@);
        envs.push(pair);
        assert(views(envs@) =~= before.push(pair@));
        assert(views(envs@) =~= env_lines(pair_views(option.env@)).take(i as int + 1));
        i += 1;
    }
    assert(views(envs@) =~= env_lines(pair_views(option.env@)));
    envs
}

/// The argument vector to start the program with.
pub fn get_args(option: &CatBoxOption) -> (args: Vec<String>)
    ensures
        views(args@) == command_line(option.program@, views(option.arguments@)),
{
    let arguments = option.arguments();
    let mut args: Vec<String> = Vec::new();
    args.push(option.program().clone());
    let mut i: usize = 0;
    while i < arguments.len()
        invariant
            arguments == option.arguments,
            i <= arguments.len(),
            args@ == seq![option.program] + arguments@.take(i as int),
        decreases arguments.len() - i,
    {
        args.push(arguments[i].clone());
        i += 1;
    }
    assert(arguments@.take(i as int) == arguments@);
    assert(views(args@) =~= command_line(option.program@, views(option.arguments@)));
    args
}

/// The prelude of the child, step by step. The child carries the steps out in
/// this order and stops at the first whose failure is fatal.
pub fn child_prelude(option: &CatBoxOption) -> (plan: Vec<PreludeStep>)
    ensures
        views(plan@) == prelude_steps(*option),
{
    let mut plan: Vec<PreludeStep> = Vec::new();
    plan.push(PreludeStep::ParentDeathSignal(Signal::SIGTERM));
    plan.push(PreludeStep::AcquirePipe);
    let ghost opening = seq![
        PreludeModel::ParentDeathSignal(Signal::SIGTERM),
        PreludeModel::AcquirePipe,
    ];
    assert(views(plan@) =~= opening);

    let redirects = redirect_io(option);
    let ghost wanted = redirections(
        opt_view(option.stdin),
        opt_view(option.stdout),
        opt_view(option.stderr),
    );
    let mut i: usize = 0;
    while i < redirects.len()
        invariant
            i <= redirects.len(),
            views(redirects@) == wanted,
            views(plan@) == opening + wanted.take(i as int).map_values(
                |r: RedirectionModel| PreludeModel::Redirect(r),
            ),
        decreases redirects.len() - i,
    {
        let redirect = &redirects[i];
        let ghost before = views(plan@);
        plan.push(
            PreludeStep::Redirect(
                Redirection {
                    stream: redirect.stream,
                    path: redirect.path.clone(),
                    mode: redirect.mode,
                },
            ),
        );
        assert(wanted[i as int] == redirect@);
        assert(views(plan@) =~= before.push(PreludeModel::Redirect(redirect@)));
        assert(views(plan@) =~= opening + wanted.take(i as int + 1).map_values(
            |r: RedirectionModel| PreludeModel::Redirect(r),
        ));
        i += 1;
    }
    assert(wanted.take(i as int) == wanted);
    let ghost redirected = views(plan@);

    if let Some(root) = option.chroot() {
        plan.push(PreludeStep::EnterJail { root: root.clone() });
    }
    let ghost jailed = views(plan@);
    assert(jailed =~= redirected + (match option.chroot {
        Some(root) => seq![PreludeModel::EnterJail { root: root@ }],
        None => seq![],
    }));

    let limits = set_resource_limit(option);
    plan.push(PreludeStep::Alarm(set_alarm(option)));
    plan.push(PreludeStep::SetLimit(limits[0]));
    plan.push(PreludeStep::SetLimit(limits[1]));
    plan.push(PreludeStep::SetLimit(limits[2]));
    plan.push(PreludeStep::SetLimit(limits[3]));
    plan.push(PreludeStep::SetGid(option.gid()));
    plan.push(PreludeStep::SetUid(option.uid()));
    let ghost limited = views(plan@);
    assert(limited =~= jailed + seq![
        PreludeModel::Alarm(deadline_seconds(option.time_limit) as u64),
        PreludeModel::SetLimit(limits@[0]),
        PreludeModel::SetLimit(limits@[1]),
        PreludeModel::SetLimit(limits@[2]),
        PreludeModel::SetLimit(limits@[3]),
        PreludeModel::SetGid(option.gid),
        PreludeModel::SetUid(option.uid),
    ]);

    if option.ptrace().is_some() {
        plan.push(PreludeStep::TraceMe);
    }
    let ghost traced = views(plan@);
    assert(traced =~= limited + (if option.ptrace is Some {
        seq![PreludeModel::TraceMe]
    } else {
        seq![]
    }));

    let program = option.program().clone();
    let arguments = get_args(option);
    let env = get_env(option);
    let ghost exec = PreludeModel::Exec {
        program: option.program@,
        arguments: command_line(option.program@, views(option.arguments@)),
        env: env_lines(pair_views(option.env@)),
    };
    plan.push(PreludeStep::Exec { program, arguments, env });
    assert(views(plan@) =~= traced.push(exec));
    assert(views(plan@) =~= prelude_steps(*option));
    plan
}

/// The message that tells the parent that the program could not be started,
/// for the error number that `execvpe` left.
pub fn exec_failure_message(errno: i32) -> (message: String)
    ensures
        message@ == exec_failure_text(errno as int),
        "Execvpe fails: "@.is_prefix_of(message@),
        message@.len() > 0,
        forall|padding: Seq<u8>| #[trigger]
            message_text(framed(message@) + padding) == message@,
{
    let description = errno_desc(errno);
    let message = String::from_str("Execvpe fails: ").concat(description.as_str());
    proof {
        let head = "Execvpe fails: "@;
        reveal_strlit("Execvpe fails: ");
        assert(head.len() == 15);
        assert(message@.subrange(0, head.len() as int) =~= head);
        assert forall|i: int| 0 <= i < message@.len() implies #[trigger] message@[i] != '\0' by {
            if i < 15 {
                assert(message@[i] == head[i]);
            } else {
                assert(message@[i] == description@[i - 15]);
            }
        }
        assert forall|padding: Seq<u8>| #[trigger]
            message_text(framed(message@) + padding) == message@ by {
            lemma_message_survives(message@, padding);
        }
    }
    message
}

/// The time limit rounded up is the least number of whole seconds that
/// covers it; a limit that is not a multiple of a second gains the started
/// second.
pub proof fn lemma_ceil_seconds(time_limit_ms: u64)
    ensures
        ceil_seconds(time_limit_ms) * 1000 >= time_limit_ms,
        (ceil_seconds(time_limit_ms) - 1) * 1000 < time_limit_ms,
        time_limit_ms % 1000 != 0 ==> ceil_seconds(time_limit_ms) == time_limit_ms / 1000 + 1,
        time_limit_ms % 1000 == 0 ==> ceil_seconds(time_limit_ms) == time_limit_ms / 1000,
{
}

/// The alarm and the CPU limit are set to the same deadline.
pub proof fn lemma_alarm_matches_cpu_limit(option: CatBoxOption)
    ensures
        prelude_steps(option).contains(
            PreludeModel::Alarm(deadline_seconds(option.time_limit) as u64),
        ),
        resource_limits(option.time_limit, option.stack_size)[0] == (ResourceLimit {
            resource: Resource::Cpu,
            soft: Limit::Value(deadline_seconds(option.time_limit) as u64),
            hard: Limit::Value(deadline_seconds(option.time_limit) as u64),
        }),
{
    let steps = prelude_steps(option);
    let head = seq![PreludeModel::ParentDeathSignal(Signal::SIGTERM), PreludeModel::AcquirePipe]
        + redirections(
        opt_view(option.stdin),
        opt_view(option.stdout),
        opt_view(option.stderr),
    ).map_values(|r: RedirectionModel| PreludeModel::Redirect(r)) + (match option.chroot {
        Some(root) => seq![PreludeModel::EnterJail { root: root@ }],
        None => seq![],
    });
    assert(steps[head.len() as int] == PreludeModel::Alarm(
        deadline_seconds(option.time_limit) as u64,
    ));
}

/// The order of the prelude: the program is started last; the child asks to
/// be traced, if at all, right before that; and it gives up its group right
/// before its user, after all limits are set.
pub proof fn lemma_prelude_order(option: CatBoxOption)
    ensures
        ({
            let steps = prelude_steps(option);
            let traced: int = if option.ptrace is Some {
                1
            } else {
                0
            };
            let n = steps.len() as int;
            &&& n >= 10
            &&& steps[0] == PreludeModel::ParentDeathSignal(Signal::SIGTERM)
            &&& steps[1] == PreludeModel::AcquirePipe
            &&& steps[n - 1] is Exec
            &&& option.ptrace is Some ==> steps[n - 2] == PreludeModel::TraceMe
            &&& steps[n - 2 - traced] == PreludeModel::SetUid(option.uid)
            &&& steps[n - 3 - traced] == PreludeModel::SetGid(option.gid)
            &&& steps[n - 4 - traced] is SetLimit
            &&& steps[n - 8 - traced] is Alarm
            &&& forall|i: int| 0 <= i < n - 1 ==> !(#[trigger] steps[i] is Exec)
        }),
{
    let steps = prelude_steps(option);
    let head = seq![PreludeModel::ParentDeathSignal(Signal::SIGTERM), PreludeModel::AcquirePipe]
        + redirections(
        opt_view(option.stdin),
        opt_view(option.stdout),
        opt_view(option.stderr),
    ).map_values(|r: RedirectionModel| PreludeModel::Redirect(r)) + (match option.chroot {
        Some(root) => seq![PreludeModel::EnterJail { root: root@ }],
        None => seq![],
    });
    let h = head.len() as int;
    assert(steps[h] is Alarm);
    assert(steps[h + 4] is SetLimit);
    assert(steps[h + 5] == PreludeModel::SetGid(option.gid));
    assert(steps[h + 6] == PreludeModel::SetUid(option.uid));
    assert forall|i: int| 0 <= i < steps.len() - 1 implies !(#[trigger] steps[i] is Exec) by {
        if i < h {
            assert(steps[i] == head[i]);
        }
    }
}

} // verus!
