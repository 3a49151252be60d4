//! The fluent way to configure a sandbox: defaults for all commands, then
//! one option per command.

use crate::context::{
    default_cgroup, default_env, parse_env, parsed_env, CatBox,
    CatBoxCompileContext, CatBoxContext, CatBoxJudgeContext, CatBoxOption, CatBoxRunContext,
    GidType, HostEnvironment, MemoryLimitType, TimeLimitType, UidType, UNLIMITED_STACK,
};
use crate::error::{CatBoxError, ErrorModel};
use crate::mount::{
    answer_view, canonical, canonical_mount, default_mounts, parsed_mount, Canonical, MountModel,
    MountPoint,
};
use crate::syscall::{
    default_filter, parsed_presets, with_preset, RestrictedSyscall, SyscallFilter, SyscallId, SyscallPerm,
};
use crate::text::{append_decimal, decimal, pair_views, views};
use vstd::prelude::*;

verus! {

/// Build CatBox
#[derive(Debug)]
pub struct CatBoxBuilder {
    pub context: CatBoxContext,
    pub options: Vec<CatBoxOption>,
    pub env: Vec<(String, String)>,
    pub force: Option<bool>,
    pub time_limit: Option<TimeLimitType>,
    pub memory_limit: Option<MemoryLimitType>,
    pub uid: Option<UidType>,
    pub gid: Option<GidType>,
    pub cwd: Option<String>,
    /// What the host told about itself
    pub host: HostEnvironment,
}

/// Build CatBox running option
#[derive(Debug)]
pub struct CatBoxOptionBuilder {
    pub parent: CatBoxBuilder,
    pub option: CatBoxOption,
}

/// What a list of environment strings means: the pairs of all of them, or
/// nothing if one of them is malformed.
pub open spec fn parsed_env_list(
    texts: Seq<Seq<char>>,
    variables: Seq<(Seq<char>, Seq<char>)>,
) -> Option<Seq<(Seq<char>, Seq<char>)>>
    decreases texts.len(),
{
    if texts.len() == 0 {
        Some(Seq::<(Seq<char>, Seq<char>)>::empty())
    } else {
        match (parsed_env_list(texts.drop_last(), variables), parsed_env(texts.last(), variables)) {
            (Some(pairs), Some(pair)) => Some(pairs.push(pair)),
            _ => None,
        }
    }
}

/// The views of the answers of the file system for a list of mount strings:
/// for each string one answer for its source and one for its destination.
pub open spec fn answer_views(answers: Seq<(Canonical, Canonical)>) -> Seq<
    (Result<Seq<char>, Seq<char>>, Result<Seq<char>, Seq<char>>),
> {
    Seq::new(answers.len(), |i: int| (answer_view(answers[i].0), answer_view(answers[i].1)))
}

/// What a list of mount strings means: the mounts of all of them, or the
/// error of the first that has one.
pub open spec fn parsed_mount_list(
    write: bool,
    texts: Seq<Seq<char>>,
    answers: Seq<(Result<Seq<char>, Seq<char>>, Result<Seq<char>, Seq<char>>)>,
) -> Result<Seq<MountModel>, ErrorModel>
    decreases texts.len(),
{
    if texts.len() == 0 {
        Ok(Seq::<MountModel>::empty())
    } else {
        match parsed_mount_list(write, texts.drop_last(), answers.drop_last()) {
            Err(e) => Err(e),
            Ok(mounts) => match parsed_mount(write, texts.last(), answers.last().0, answers.last().1) {
                Err(e) => Err(e),
                Ok(mount) => Ok(mounts.push(mount)),
            },
        }
    }
}

/// Whether `option` is what a new command of `builder` starts with: the
/// defaults of the library, overridden by the defaults of the builder.
pub open spec fn starts_command(
    option: CatBoxOption,
    builder: CatBoxBuilder,
    program: String,
    arguments: Vec<String>,
) -> bool {
    &&& option.label@ == "catbox"@ + decimal((builder.options@.len() + 1) as nat)
    &&& option.time_limit == (match builder.time_limit {
        Some(limit) => limit,
        None => 1000,
    })
    &&& option.memory_limit == (match builder.memory_limit {
        Some(limit) => limit,
        None => 262144,
    })
    &&& option.program == program
    &&& option.arguments == arguments
    &&& option.uid == (match builder.uid {
        Some(uid) => uid,
        None => builder.host.nobody_uid,
    })
    &&& option.gid == (match builder.gid {
        Some(gid) => gid,
        None => builder.host.nogroup_gid,
    })
    &&& option.cgroup@ == default_cgroup(builder.host)
    &&& option.process == 1
    &&& option.ptrace is Some
    &&& option.ptrace->0@ == default_filter()
    &&& option.stack_size == UNLIMITED_STACK
    &&& option.chroot is None
    &&& option.cwd@ == (match builder.cwd {
        Some(cwd) => cwd@,
        None => builder.host.current_dir@,
    })
    &&& views(option.mounts@) == default_mounts()
    &&& pair_views(option.env@) == default_env(builder.host) + pair_views(builder.env@)
    &&& option.stdin is None
    &&& option.stdout is None
    &&& option.stderr is None
    &&& option.force == (match builder.force {
        Some(force) => force,
        None => false,
    })
    &&& !option.debug
}

impl CatBoxBuilder {
    /// Create a new CatBox with a context
    pub fn new(context: CatBoxContext, host: HostEnvironment) -> (builder: Self)
        ensures
            builder.context == context,
            builder.host == host,
            builder.options@.len() == 0,
            builder.env@.len() == 0,
            builder.force is None,
            builder.time_limit is None,
            builder.memory_limit is None,
            builder.uid is None,
            builder.gid is None,
            builder.cwd is None,
    {
        CatBoxBuilder {
            context,
            options: Vec::new(),
            env: Vec::new(),
            force: None,
            time_limit: None,
            memory_limit: None,
            uid: None,
            gid: None,
            cwd: None,
            host,
        }
    }

    /// Create a run CatBox
    pub fn run(host: HostEnvironment) -> (builder: Self)
        ensures
            builder.context.wf(),
            builder.context.results().len() == 0,
            builder.host == host,
            builder.options@.len() == 0,
            builder.env@.len() == 0,
            builder.force is None,
            builder.time_limit is None,
            builder.memory_limit is None,
            builder.uid is None,
            builder.gid is None,
            builder.cwd is None,
    {
        Self::new(CatBoxContext::Run(CatBoxRunContext::new()), host)
    }

    /// Create a compile CatBox
    pub fn compile(host: HostEnvironment) -> (builder: Self)
        ensures
            builder.context is Compile,
            builder.host == host,
            builder.options@.len() == 0,
            builder.env@.len() == 0,
            builder.force is None,
            builder.time_limit is None,
            builder.memory_limit is None,
            builder.uid is None,
            builder.gid is None,
            builder.cwd is None,
    {
        Self::new(CatBoxContext::Compile(CatBoxCompileContext {  }), host)
    }

    /// Create a judge CatBox
    pub fn judge(host: HostEnvironment) -> (builder: Self)
        ensures
            builder.context is Judge,
            builder.host == host,
            builder.options@.len() == 0,
            builder.env@.len() == 0,
            builder.force is None,
            builder.time_limit is None,
            builder.memory_limit is None,
            builder.uid is None,
            builder.gid is None,
            builder.cwd is None,
    {
        Self::new(CatBoxContext::Judge(CatBoxJudgeContext {  }), host)
    }

    /// Create a new command to be run
    pub fn command(self, program: String, arguments: Vec<String>) -> (command:
        CatBoxOptionBuilder)
        requires
            self.options@.len() < usize::MAX,
        ensures
            command.parent == self,
            starts_command(command.option, self, program, arguments),
    {
        let mut option = CatBoxOption::default(program, arguments, &self.host);

        // Set default label
        let mut label = "catbox".to_owned();
        append_decimal(&mut label, (self.options.len() + 1) as u64);
        option.label = label;
        // Set default time limit
        if let Some(time_limit) = self.time_limit {
            option.time_limit = time_limit;
        }
        // Set default memory limit
        if let Some(memory_limit) = self.memory_limit {
            option.memory_limit = memory_limit;
        }
        // Set default force mode
        if let Some(force) = self.force {
            option.force = force;
        }
        // Set default uid
        if let Some(uid) = self.uid {
            option.uid = uid;
        }
        // Set default gid
        if let Some(gid) = self.gid {
            option.gid = gid;
        }
        // Set default cwd
        if let Some(cwd) = &self.cwd {
            option.cwd = cwd.clone();
        }
        // Set default env
        let ghost base = pair_views(option.env@);
        let ghost configured = option;
        let mut i: usize = 0;
        assert(pair_views(option.env@) =~= base + pair_views(self.env@).take(0));
        while i < self.env.len()
            invariant
                i <= self.env.len(),
                pair_views(option.env@) == base + pair_views(self.env@).take(i as int),
                option == (CatBoxOption { env: option.env, ..configured }),
            decreases self.env.len() - i,
        {
            let ghost before = pair_views(option.env@);
            let pair = (self.env[i].0.clone(), self.env[i].1.clone());
            option.env.push(pair);
            assert(pair_views(option.env@) =~= before.push((self.env@[i as int].0@, self.env@[i as int].1@)));
            assert(pair_views(option.env@) =~= base + pair_views(self.env@).take(i as int + 1));
            i += 1;
        }
        assert(pair_views(self.env@).take(i as int) == pair_views(self.env@));

        CatBoxOptionBuilder { parent: self, option }
    }

    /// Build CatBox after setting all the options
    pub fn build(self) -> (catbox: CatBox)
        ensures
            catbox.context == self.context,
            catbox.options == self.options,
    {
        CatBox { context: self.context, options: self.options }
    }

    /// Set default time limit
    pub fn set_default_time_limit(self, value: Option<TimeLimitType>) -> (builder: Self)
        ensures
            builder == (CatBoxBuilder { time_limit: value, ..self }),
    {
        let mut this = self;
        this.time_limit = value;
        this
    }

    /// Set default memory limit
    pub fn set_default_memory_limit(self, value: Option<MemoryLimitType>) -> (builder: Self)
        ensures
            builder == (CatBoxBuilder { memory_limit: value, ..self }),
    {
        let mut this = self;
        this.memory_limit = value;
        this
    }

    /// Set default force mode
    pub fn set_default_force(self, flag: bool) -> (builder: Self)
        ensures
            builder == (CatBoxBuilder { force: Some(flag), ..self }),
    {
        let mut this = self;
        this.force = Some(flag);
        this
    }

    /// Set default uid
    pub fn set_default_uid(self, uid: Option<UidType>) -> (builder: Self)
        ensures
            builder == (CatBoxBuilder { uid, ..self }),
    {
        let mut this = self;
        this.uid = uid;
        this
    }

    /// Set default gid
    pub fn set_default_gid(self, gid: Option<GidType>) -> (builder: Self)
        ensures
            builder == (CatBoxBuilder { gid, ..self }),
    {
        let mut this = self;
        this.gid = gid;
        this
    }

    /// Set default cwd
    pub fn set_default_cwd(self, path: Option<String>) -> (builder: Self)
        ensures
            builder == (CatBoxBuilder { cwd: path, ..self }),
    {
        let mut this = self;
        this.cwd = path;
        this
    }

    /// Set current user
    pub fn set_current_user(self, flag: bool) -> (builder: Self)
        ensures
            builder == (if flag {
                CatBoxBuilder { uid: Some(self.host.uid), gid: Some(self.host.gid), ..self }
            } else {
                self
            }),
    {
        let mut this = self;
        if flag {
            this.uid = Some(this.host.uid);
            this.gid = Some(this.host.gid);
        }
        this
    }

    /// Parse default env list
    pub fn parse_env_list(self, list: Vec<String>) -> (parsed: Result<Self, CatBoxError>)
        ensures
            match parsed {
                Ok(builder) => {
                    let pairs = parsed_env_list(views(list@), pair_views(self.host.variables@));
                    &&& pairs is Some
                    &&& pair_views(builder.env@) == pair_views(self.env@) + pairs->0
                    &&& builder == (CatBoxBuilder { env: builder.env, ..self })
                },
                Err(e) => parsed_env_list(views(list@), pair_views(self.host.variables@)) is None
                    && e@ == ErrorModel::Cli("Wrong environment variable string format"@),
            },
    {
        let mut this = self;
        let ghost start = pair_views(this.env@);
        let ghost texts = views(list@);
        let ghost variables = pair_views(this.host.variables@);
        let mut i: usize = 0;
        assert(pair_views(this.env@) =~= start + Seq::<(Seq<char>, Seq<char>)>::empty());
        assert(texts.take(0) =~= Seq::<Seq<char>>::empty());
        while i < list.len()
            invariant
                texts == views(list@),
                variables == pair_views(this.host.variables@),
                i <= list.len(),
                parsed_env_list(texts.take(i as int), variables) is Some,
                pair_views(this.env@) == start + parsed_env_list(texts.take(i as int), variables)->0,
                this == (CatBoxBuilder { env: this.env, ..self }),
            decreases list.len() - i,
        {
            proof {
                assert(texts.take(i as int + 1).drop_last() == texts.take(i as int));
                assert(texts.take(i as int + 1).last() == list@[i as int]@);
            }
            match parse_env(list[i].clone(), &this.host) {
                Ok(pair) => {
                    let ghost before = pair_views(this.env@);
                    let ghost added = (pair.0@, pair.1@);
                    this.env.push(pair);
                    assert(pair_views(this.env@) =~= before.push(added));
                    assert(pair_views(this.env@) =~= start + parsed_env_list(
                        texts.take(i as int + 1),
                        variables,
                    )->0);
                },
                Err(e) => {
                    proof {
                        lemma_env_list_fails(texts, variables, i as int);
                    }
                    return Err(e);
                },
            }
            i += 1;
        }
        assert(texts.take(i as int) == texts);
        Ok(this)
    }
}

/// A list of environment strings with a malformed one means nothing.
proof fn lemma_env_list_fails(
    texts: Seq<Seq<char>>,
    variables: Seq<(Seq<char>, Seq<char>)>,
    i: int,
)
    requires
        0 <= i < texts.len(),
        parsed_env(texts[i], variables) is None,
    ensures
        parsed_env_list(texts, variables) is None,
    decreases texts.len(),
{
    if i < texts.len() - 1 {
        lemma_env_list_fails(texts.drop_last(), variables, i);
    }
}

/// The error of a list of mount strings is that of its first string with
/// an error.
proof fn lemma_mount_list_fails(
    write: bool,
    texts: Seq<Seq<char>>,
    answers: Seq<(Result<Seq<char>, Seq<char>>, Result<Seq<char>, Seq<char>>)>,
    upto: int,
    e: ErrorModel,
)
    requires
        texts.len() == answers.len(),
        0 < upto <= texts.len(),
        parsed_mount_list(write, texts.take(upto), answers.take(upto)) == Err::<
            Seq<MountModel>,
            ErrorModel,
        >(e),
    ensures
        parsed_mount_list(write, texts, answers) == Err::<Seq<MountModel>, ErrorModel>(e),
    decreases texts.len(),
{
    if upto == texts.len() {
        assert(texts.take(upto) == texts);
        assert(answers.take(upto) == answers);
    } else {
        assert(texts.drop_last().take(upto) == texts.take(upto));
        assert(answers.drop_last().take(upto) == answers.take(upto));
        lemma_mount_list_fails(write, texts.drop_last(), answers.drop_last(), upto, e);
    }
}

impl CatBoxOptionBuilder {
    /// Finish building, return CatBoxBuilder
    pub fn done(self) -> (builder: CatBoxBuilder)
        ensures
            builder.options@ == self.parent.options@.push(self.option),
            builder == (CatBoxBuilder { options: builder.options, ..self.parent }),
    {
        let mut builder = self.parent;
        builder.options.push(self.option);
        builder
    }

    /// Finish building, return CatBox
    pub fn build(self) -> (catbox: CatBox)
        ensures
            catbox.context == self.parent.context,
            catbox.options@ == self.parent.options@.push(self.option),
    {
        let builder = self.done();
        builder.build()
    }

    /// Set label
    pub fn label(self, label: String) -> (builder: Self)
        ensures
            builder == (CatBoxOptionBuilder {
                option: CatBoxOption { label, ..self.option },
                ..self
            }),
    {
        let mut this = self;
        this.option.label = label;
        this
    }

    /// Set time limit (unit: ms)
    pub fn time_limit(self, value: TimeLimitType) -> (builder: Self)
        ensures
            builder == (CatBoxOptionBuilder {
                option: CatBoxOption { time_limit: value, ..self.option },
                ..self
            }),
    {
        let mut this = self;
        this.option.time_limit = value;
        this
    }

    /// Set memory limit (unit: KB)
    pub fn memory_limit(self, value: MemoryLimitType) -> (builder: Self)
        ensures
            builder == (CatBoxOptionBuilder {
                option: CatBoxOption { memory_limit: value, ..self.option },
                ..self
            }),
    {
        let mut this = self;
        this.option.memory_limit = value;
        this
    }

    /// Set uid
    pub fn uid(self, uid: UidType) -> (builder: Self)
        ensures
            builder == (CatBoxOptionBuilder {
                option: CatBoxOption { uid, ..self.option },
                ..self
            }),
    {
        let mut this = self;
        this.option.uid = uid;
        this
    }

    /// Set gid
    pub fn gid(self, gid: GidType) -> (builder: Self)
        ensures
            builder == (CatBoxOptionBuilder {
                option: CatBoxOption { gid, ..self.option },
                ..self
            }),
    {
        let mut this = self;
        this.option.gid = gid;
        this
    }

    /// Set uid / gid with current user
    pub fn current_user(self) -> (builder: Self)
        ensures
            builder == (CatBoxOptionBuilder {
                option: CatBoxOption {
                    uid: self.parent.host.uid,
                    gid: self.parent.host.gid,
                    ..self.option
                },
                ..self
            }),
    {
        let mut this = self;
        this.option.uid = this.parent.host.uid;
        this.option.gid = this.parent.host.gid;
        this
    }

    /// Set the max number of processes
    pub fn process(self, value: u64) -> (builder: Self)
        ensures
            builder == (CatBoxOptionBuilder {
                option: CatBoxOption { process: value, ..self.option },
                ..self
            }),
    {
        let mut this = self;
        this.option.process = value;
        this
    }

    /// Set the max number of processes or do nothing
    pub fn set_process(self, value: Option<u64>) -> (builder: Self)
        ensures
            builder == (match value {
                Some(value) => CatBoxOptionBuilder {
                    option: CatBoxOption { process: value, ..self.option },
                    ..self
                },
                None => self,
            }),
    {
        let mut this = self;
        if let Some(value) = value {
            this.option.process = value;
        }
        this
    }

    /// Set stdin redirection or not
    pub fn set_stdin(self, path: Option<String>) -> (builder: Self)
        ensures
            builder == (CatBoxOptionBuilder {
                option: CatBoxOption { stdin: path, ..self.option },
                ..self
            }),
    {
        let mut this = self;
        this.option.stdin = path;
        this
    }

    /// Set stdin redirection
    pub fn stdin(self, path: String) -> (builder: Self)
        ensures
            builder == (CatBoxOptionBuilder {
                option: CatBoxOption { stdin: Some(path), ..self.option },
                ..self
            }),
    {
        let mut this = self;
        this.option.stdin = Some(path);
        this
    }

    /// Set stdout redirection or not
    pub fn set_stdout(self, path: Option<String>) -> (builder: Self)
        ensures
            builder == (CatBoxOptionBuilder {
                option: CatBoxOption { stdout: path, ..self.option },
                ..self
            }),
    {
        let mut this = self;
        this.option.stdout = path;
        this
    }

    /// Set stdout redirection
    pub fn stdout(self, path: String) -> (builder: Self)
        ensures
            builder == (CatBoxOptionBuilder {
                option: CatBoxOption { stdout: Some(path), ..self.option },
                ..self
            }),
    {
        let mut this = self;
        this.option.stdout = Some(path);
        this
    }

    /// Set stderr redirection or not
    pub fn set_stderr(self, path: Option<String>) -> (builder: Self)
        ensures
            builder == (CatBoxOptionBuilder {
                option: CatBoxOption { stderr: path, ..self.option },
                ..self
            }),
    {
        let mut this = self;
        this.option.stderr = path;
        this
    }

    /// Set stderr redirection
    pub fn stderr(self, path: String) -> (builder: Self)
        ensures
            builder == (CatBoxOptionBuilder {
                option: CatBoxOption { stderr: Some(path), ..self.option },
                ..self
            }),
    {
        let mut this = self;
        this.option.stderr = Some(path);
        this
    }

    /// Set chroot or not: with a fresh directory to build the jail in, or without a jail
    pub fn set_chroot(self, root: Option<String>) -> (builder: Self)
        ensures
            builder == (CatBoxOptionBuilder {
                option: CatBoxOption { chroot: root, ..self.option },
                ..self
            }),
    {
        let mut this = self;
        this.option.chroot = root;
        this
    }

    /// Enable chroot, with a fresh directory to build the jail in
    pub fn chroot(self, root: String) -> (builder: Self)
        ensures
            builder == (CatBoxOptionBuilder {
                option: CatBoxOption { chroot: Some(root), ..self.option },
                ..self
            }),
    {
        let mut this = self;
        this.option.chroot = Some(root);
        this
    }

    /// Disable ptrace
    pub fn disable_ptrace(self) -> (builder: Self)
        ensures
            builder == (CatBoxOptionBuilder {
                option: CatBoxOption { ptrace: None, ..self.option },
                ..self
            }),
    {
        let mut this = self;
        this.option.ptrace = None;
        this
    }

    /// Set work directory in chroot
    pub fn cwd(self, path: String) -> (builder: Self)
        ensures
            builder == (CatBoxOptionBuilder {
                option: CatBoxOption { cwd: path, ..self.option },
                ..self
            }),
    {
        let mut this = self;
        this.option.cwd = path;
        this
    }

    /// Set work directory in chroot or not
    pub fn set_cwd(self, path: Option<String>) -> (builder: Self)
        ensures
            builder == (match path {
                Some(path) => CatBoxOptionBuilder {
                    option: CatBoxOption { cwd: path, ..self.option },
                    ..self
                },
                None => self,
            }),
    {
        let mut this = self;
        if let Some(path) = path {
            this.option.cwd = path;
        }
        this
    }

    /// Set ptrace syscall filter: the default filter, or none
    pub fn set_ptrace(self, flag: bool) -> (builder: Self)
        ensures
            builder == (CatBoxOptionBuilder {
                option: CatBoxOption { ptrace: builder.option.ptrace, ..self.option },
                ..self
            }),
            flag ==> builder.option.ptrace is Some && builder.option.ptrace->0@ == default_filter(),
            !flag ==> builder.option.ptrace is None,
    {
        let mut this = self;
        if flag {
            this.option.ptrace = Some(SyscallFilter::default());
        } else {
            this.option.ptrace = None;
        }
        this
    }

    /// Parse ptrace syscall filter
    pub fn parse_ptrace_presets(self, presets: Option<Vec<String>>) -> (parsed: Result<
        Self,
        CatBoxError,
    >)
        ensures
            match presets {
                None => parsed is Ok && parsed->Ok_0 == self,
                Some(presets) => match parsed {
                    Ok(builder) => {
                        &&& builder == (CatBoxOptionBuilder {
                            option: CatBoxOption { ptrace: builder.option.ptrace, ..self.option },
                            ..self
                        })
                        &&& builder.option.ptrace is Some
                        &&& parsed_presets(views(presets@)) == Some(builder.option.ptrace->0@)
                    },
                    Err(e) => parsed_presets(views(presets@)) is None && e@ == ErrorModel::Cli(
                        "Parse ptrace syscall filter string fails"@,
                    ),
                },
            },
    {
        let mut this = self;
        if let Some(presets) = presets {
            match SyscallFilter::parse_presets(presets) {
                Ok(filter) => {
                    this.option.ptrace = filter;
                },
                Err(e) => {
                    return Err(e);
                },
            }
        }
        Ok(this)
    }

    /// Set ptrace feature
    pub fn ptrace(self, preset: RestrictedSyscall) -> (builder: Self)
        ensures
            builder == (CatBoxOptionBuilder {
                option: CatBoxOption { ptrace: builder.option.ptrace, ..self.option },
                ..self
            }),
            builder.option.ptrace is Some,
            builder.option.ptrace->0@ == with_preset(
                match self.option.ptrace {
                    Some(filter) => filter@,
                    None => Map::<SyscallId, SyscallPerm>::empty(),
                },
                preset,
            ),
    {
        let mut this = self;
        let mut filter = match &this.option.ptrace {
            Some(filter) => filter.clone(),
            None => SyscallFilter::new(),
        };
        filter.enable(preset);
        this.option.ptrace = Some(filter);
        this
    }

    /// Mount read directory. The answers are those of the file system for the
    /// canonical form of source and destination.
    pub fn mount_read(
        self,
        src: String,
        dst: String,
        src_answer: &Canonical,
        dst_answer: &Canonical,
    ) -> (builder: Self)
        requires
            canonical(src@, answer_view(*src_answer)) is Ok,
            canonical(dst@, answer_view(*dst_answer)) is Ok,
        ensures
            builder == (CatBoxOptionBuilder {
                option: CatBoxOption { mounts: builder.option.mounts, ..self.option },
                ..self
            }),
            builder.option.mounts@.len() == self.option.mounts@.len() + 1,
            views(builder.option.mounts@).drop_last() == views(self.option.mounts@),
            Ok::<MountModel, ErrorModel>(views(builder.option.mounts@).last()) == canonical_mount(
                false,
                src@,
                dst@,
                answer_view(*src_answer),
                answer_view(*dst_answer),
            ),
    {
        let mut this = self;
        let ghost before = views(this.option.mounts@);
        let mount_point = MountPoint::read(src, dst, src_answer, dst_answer);
        let ghost added = mount_point@;
        this.option.mounts.push(mount_point);
        assert(views(this.option.mounts@) =~= before.push(added));
        assert(views(this.option.mounts@).drop_last() =~= before);
        this
    }

    /// Mount write directory. The answers are those of the file system for the
    /// canonical form of source and destination.
    pub fn mount_write(
        self,
        src: String,
        dst: String,
        src_answer: &Canonical,
        dst_answer: &Canonical,
    ) -> (builder: Self)
        requires
            canonical(src@, answer_view(*src_answer)) is Ok,
            canonical(dst@, answer_view(*dst_answer)) is Ok,
        ensures
            builder == (CatBoxOptionBuilder {
                option: CatBoxOption { mounts: builder.option.mounts, ..self.option },
                ..self
            }),
            builder.option.mounts@.len() == self.option.mounts@.len() + 1,
            views(builder.option.mounts@).drop_last() == views(self.option.mounts@),
            Ok::<MountModel, ErrorModel>(views(builder.option.mounts@).last()) == canonical_mount(
                true,
                src@,
                dst@,
                answer_view(*src_answer),
                answer_view(*dst_answer),
            ),
    {
        let mut this = self;
        let ghost before = views(this.option.mounts@);
        let mount_point = MountPoint::write(src, dst, src_answer, dst_answer);
        let ghost added = mount_point@;
        this.option.mounts.push(mount_point);
        assert(views(this.option.mounts@) =~= before.push(added));
        assert(views(this.option.mounts@).drop_last() =~= before);
        this
    }

    /// Parse read mount points. `answers` holds, for each string of the list,
    /// the answers of the file system for its source and its destination.
    pub fn parse_mount_read(self, list: Vec<String>, answers: &Vec<(Canonical, Canonical)>) -> (parsed:
        Result<Self, CatBoxError>)
        requires
            answers@.len() == list@.len(),
        ensures
            match parsed {
                Ok(builder) => {
                    let mounts = parsed_mount_list(false, views(list@), answer_views(answers@));
                    &&& mounts is Ok
                    &&& views(builder.option.mounts@) == views(self.option.mounts@) + mounts->Ok_0
                    &&& builder == (CatBoxOptionBuilder {
                        option: CatBoxOption { mounts: builder.option.mounts, ..self.option },
                        ..self
                    })
                },
                Err(e) => parsed_mount_list(false, views(list@), answer_views(answers@)) == Err::<
                    Seq<MountModel>,
                    ErrorModel,
                >(e@),
            },
    {
        let mut this = self;
        let ghost start = views(this.option.mounts@);
        let ghost texts = views(list@);
        let ghost replies = answer_views(answers@);
        let mut i: usize = 0;
        assert(views(this.option.mounts@) =~= start + Seq::<MountModel>::empty());
        assert(texts.take(0) =~= Seq::<Seq<char>>::empty());
        while i < list.len()
            invariant
                texts == views(list@),
                replies == answer_views(answers@),
                answers@.len() == list@.len(),
                i <= list.len(),
                parsed_mount_list(false, texts.take(i as int), replies.take(i as int)) is Ok,
                views(this.option.mounts@) == start + parsed_mount_list(
                    false,
                    texts.take(i as int),
                    replies.take(i as int),
                )->Ok_0,
                this == (CatBoxOptionBuilder {
                    option: CatBoxOption { mounts: this.option.mounts, ..self.option },
                    ..self
                }),
            decreases list.len() - i,
        {
            proof {
                assert(texts.take(i as int + 1).drop_last() == texts.take(i as int));
                assert(replies.take(i as int + 1).drop_last() == replies.take(i as int));
                assert(texts.take(i as int + 1).last() == list@[i as int]@);
                assert(replies.take(i as int + 1).last() == replies[i as int]);
            }
            match MountPoint::parse_read(list[i].clone(), &answers[i].0, &answers[i].1) {
                Ok(mount_point) => {
                    let ghost before = views(this.option.mounts@);
                    let ghost added = mount_point@;
                    this.option.mounts.push(mount_point);
                    assert(views(this.option.mounts@) =~= before.push(added));
                    assert(views(this.option.mounts@) =~= start + parsed_mount_list(
                        false,
                        texts.take(i as int + 1),
                        replies.take(i as int + 1),
                    )->Ok_0);
                },
                Err(e) => {
                    proof {
                        lemma_mount_list_fails(false, texts, replies, i as int + 1, e@);
                    }
                    return Err(e);
                },
            }
            i += 1;
        }
        assert(texts.take(i as int) == texts);
        assert(replies.take(i as int) == replies);
        Ok(this)
    }

    /// Parse write mount points. `answers` holds, for each string of the list,
    /// the answers of the file system for its source and its destination.
    pub fn parse_mount_write(self, list: Vec<String>, answers: &Vec<(Canonical, Canonical)>) -> (parsed:
        Result<Self, CatBoxError>)
        requires
            answers@.len() == list@.len(),
        ensures
            match parsed {
                Ok(builder) => {
                    let mounts = parsed_mount_list(true, views(list@), answer_views(answers@));
                    &&& mounts is Ok
                    &&& views(builder.option.mounts@) == views(self.option.mounts@) + mounts->Ok_0
                    &&& builder == (CatBoxOptionBuilder {
                        option: CatBoxOption { mounts: builder.option.mounts, ..self.option },
                        ..self
                    })
                },
                Err(e) => parsed_mount_list(true, views(list@), answer_views(answers@)) == Err::<
                    Seq<MountModel>,
                    ErrorModel,
                >(e@),
            },
    {
        let mut this = self;
        let ghost start = views(this.option.mounts@);
        let ghost texts = views(list@);
        let ghost replies = answer_views(answers@);
        let mut i: usize = 0;
        assert(views(this.option.mounts@) =~= start + Seq::<MountModel>::empty());
        assert(texts.take(0) =~= Seq::<Seq<char>>::empty());
        while i < list.len()
            invariant
                texts == views(list@),
                replies == answer_views(answers@),
                answers@.len() == list@.len(),
                i <= list.len(),
                parsed_mount_list(true, texts.take(i as int), replies.take(i as int)) is Ok,
                views(this.option.mounts@) == start + parsed_mount_list(
                    true,
                    texts.take(i as int),
                    replies.take(i as int),
                )->Ok_0,
                this == (CatBoxOptionBuilder {
                    option: CatBoxOption { mounts: this.option.mounts, ..self.option },
                    ..self
                }),
            decreases list.len() - i,
        {
            proof {
                assert(texts.take(i as int + 1).drop_last() == texts.take(i as int));
                assert(replies.take(i as int + 1).drop_last() == replies.take(i as int));
                assert(texts.take(i as int + 1).last() == list@[i as int]@);
                assert(replies.take(i as int + 1).last() == replies[i as int]);
            }
            match MountPoint::parse_write(list[i].clone(), &answers[i].0, &answers[i].1) {
                Ok(mount_point) => {
                    let ghost before = views(this.option.mounts@);
                    let ghost added = mount_point@;
                    this.option.mounts.push(mount_point);
                    assert(views(this.option.mounts@) =~= before.push(added));
                    assert(views(this.option.mounts@) =~= start + parsed_mount_list(
                        true,
                        texts.take(i as int + 1),
                        replies.take(i as int + 1),
                    )->Ok_0);
                },
                Err(e) => {
                    proof {
                        lemma_mount_list_fails(true, texts, replies, i as int + 1, e@);
                    }
                    return Err(e);
                },
            }
            i += 1;
        }
        assert(texts.take(i as int) == texts);
        assert(replies.take(i as int) == replies);
        Ok(this)
    }

    /// Pass env
    pub fn env(self, key: String, value: String) -> (builder: Self)
        ensures
            builder == (CatBoxOptionBuilder {
                option: CatBoxOption { env: builder.option.env, ..self.option },
                ..self
            }),
            builder.option.env@ == self.option.env@.push((key, value)),
    {
        let mut this = self;
        this.option.env.push((key, value));
        this
    }
}

} // verus!
