//! Presets for compiling and running submissions, by language.

use crate::context::{MemoryLimitType, TimeLimitType, UNLIMITED_STACK};
use crate::error::{CatBoxError, ErrorModel};
use crate::mount::{answer_view, canonical, canonical_mount, Canonical, MountModel, MountPoint};
use crate::params::CatBoxParams;
use crate::syscall::RestrictedSyscall;
use crate::text::{chars_of, push_char, same_text, string_of, views};
use vstd::prelude::*;
use vstd::string::StringExecFns;

verus! {

/// A text in which every occurrence of `from` is replaced by `to`, from left
/// to right; occurrences do not overlap. An empty `from` occurs nowhere.
pub open spec fn replaced(text: Seq<char>, from: Seq<char>, to: Seq<char>) -> Seq<char>
    decreases text.len(),
{
    if from.len() == 0 || text.len() < from.len() {
        text
    } else if text.subrange(0, from.len() as int) == from {
        to + replaced(text.skip(from.len() as int), from, to)
    } else {
        seq![text[0]] + replaced(text.skip(1), from, to)
    }
}

fn matches_at(chars: &Vec<char>, at: usize, pattern: &Vec<char>) -> (found: bool)
    requires
        at + pattern.len() <= chars.len(),
    ensures
        found == (chars@.subrange(at as int, at + pattern.len()) == pattern@),
{
    let mut k: usize = 0;
    while k < pattern.len()
        invariant
            at + pattern.len() <= chars.len(),
            k <= pattern.len(),
            chars@.subrange(at as int, at + k) == pattern@.take(k as int),
        decreases pattern.len() - k,
    {
        if chars[at + k] != pattern[k] {
            assert(chars@.subrange(at as int, at + pattern.len())[k as int] != pattern@[k as int]);
            return false;
        }
        assert(chars@.subrange(at as int, at + k + 1) =~= chars@.subrange(at as int, at + k).push(
            chars@[at + k],
        ));
        assert(pattern@.take(k as int + 1) =~= pattern@.take(k as int).push(pattern@[k as int]));
        k += 1;
    }
    assert(pattern@.take(k as int) == pattern@);
    true
}

/// Replaces every occurrence of `from` in `text` by `to`.
pub fn replace_all(text: &str, from: &str, to: &str) -> (result: String)
    ensures
        result@ == replaced(text@, from@, to@),
{
    let chars = chars_of(text);
    let pattern = chars_of(from);
    let n = chars.len();
    let m = pattern.len();
    if m == 0 {
        return text.to_owned();
    }
    let mut result = String::new();
    let mut i: usize = 0;
    assert(text@.skip(0) == text@);
    while i < n
        invariant
            chars@ == text@,
            pattern@ == from@,
            n == chars.len(),
            m == pattern.len(),
            m > 0,
            i <= n,
            replaced(text@, from@, to@) == result@ + replaced(text@.skip(i as int), from@, to@),
        decreases n - i,
    {
        let ghost rest = text@.skip(i as int);
        let ghost before = result@;
        if n - i >= m && matches_at(&chars, i, &pattern) {
            assert(rest.subrange(0, m as int) =~= chars@.subrange(i as int, i + m));
            assert(rest.skip(m as int) =~= text@.skip(i + m));
            result.append(to);
            assert(result@ + replaced(text@.skip(i + m), from@, to@) =~= before + (to@ + replaced(
                rest.skip(m as int),
                from@,
                to@,
            )));
            i += m;
        } else {
            if n - i >= m {
                assert(rest.subrange(0, m as int) =~= chars@.subrange(i as int, i + m));
            }
            assert(rest.skip(1) =~= text@.skip(i as int + 1));
            assert(rest[0] == chars@[i as int]);
            assert(replaced(rest, from@, to@) =~= seq![rest[0]] + replaced(rest.skip(1), from@, to@))
                by {
                if rest.len() < m {
                    lemma_short_text_is_kept(rest.skip(1), from@, to@);
                    assert(seq![rest[0]] + rest.skip(1) =~= rest);
                }
            }
            push_char(&mut result, chars[i]);
            assert(result@ + replaced(text@.skip(i as int + 1), from@, to@) =~= before + (
            seq![rest[0]] + replaced(rest.skip(1), from@, to@)));
            i += 1;
        }
    }
    assert(text@.skip(i as int) =~= Seq::<char>::empty());
    assert(result@ + Seq::<char>::empty() =~= result@);
    result
}

/// A text that is shorter than what is looked for is kept as it is.
proof fn lemma_short_text_is_kept(text: Seq<char>, from: Seq<char>, to: Seq<char>)
    requires
        text.len() < from.len(),
    ensures
        replaced(text, from, to) == text,
{
}

/// The text behind the last dot of a name, if the name has a dot.
pub open spec fn extension_of(name: Seq<char>) -> Option<Seq<char>>
    decreases name.len(),
{
    if name.len() == 0 {
        None
    } else if name.last() == '.' {
        Some(Seq::<char>::empty())
    } else {
        match extension_of(name.drop_last()) {
            Some(extension) => Some(extension.push(name.last())),
            None => None,
        }
    }
}

/// The language that a name or an extension stands for.
pub open spec fn language_of(name: Seq<char>) -> Option<Seq<char>> {
    if name == "c"@ {
        Some("c"@)
    } else if name == "cc"@ || name == "c++"@ || name == "cpp"@ {
        Some("cpp"@)
    } else if name == "java"@ {
        Some("java"@)
    } else if name == "py"@ || name == "python"@ || name == "python3"@ {
        Some("python3"@)
    } else if name == "py2"@ || name == "python2"@ {
        Some("python2"@)
    } else {
        None
    }
}

/// The language of a submission: the one that is named, by its usual name if
/// it has one; without a name, the one that the extension of the file stands
/// for.
pub open spec fn detected_language(language: Option<Seq<char>>, submission: Seq<char>) -> Option<
    Seq<char>,
> {
    match language {
        Some(name) => match language_of(name) {
            Some(known) => Some(known),
            None => Some(name),
        },
        None => match extension_of(submission) {
            Some(extension) => language_of(extension),
            None => None,
        },
    }
}

fn known_language(name: &str) -> (language: Option<String>)
    ensures
        match language {
            Some(known) => language_of(name@) == Some(known@),
            None => language_of(name@) is None,
        },
{
    if same_text(name, "c") {
        Some("c".to_owned())
    } else if same_text(name, "cc") || same_text(name, "c++") || same_text(name, "cpp") {
        Some("cpp".to_owned())
    } else if same_text(name, "java") {
        Some("java".to_owned())
    } else if same_text(name, "py") || same_text(name, "python") || same_text(name, "python3") {
        Some("python3".to_owned())
    } else if same_text(name, "py2") || same_text(name, "python2") {
        Some("python2".to_owned())
    } else {
        None
    }
}

/// The extension of a text whose last dot stands at `dot`.
proof fn lemma_extension_after_last_dot(name: Seq<char>, dot: int)
    requires
        0 <= dot < name.len(),
        name[dot] == '.',
        forall|k: int| dot < k < name.len() ==> name[k] != '.',
    ensures
        extension_of(name) == Some(name.skip(dot + 1)),
    decreases name.len(),
{
    if dot == name.len() - 1 {
        assert(name.skip(dot + 1) =~= Seq::<char>::empty());
    } else {
        lemma_extension_after_last_dot(name.drop_last(), dot);
        assert(name.drop_last().skip(dot + 1).push(name.last()) =~= name.skip(dot + 1));
    }
}

/// A text without a dot has no extension.
proof fn lemma_no_dot_no_extension(name: Seq<char>)
    requires
        forall|k: int| 0 <= k < name.len() ==> name[k] != '.',
    ensures
        extension_of(name) is None,
    decreases name.len(),
{
    if name.len() > 0 {
        lemma_no_dot_no_extension(name.drop_last());
    }
}

fn extension(name: &str) -> (ext: Option<String>)
    ensures
        match ext {
            Some(text) => extension_of(name@) == Some(text@),
            None => extension_of(name@) is None,
        },
{
    let chars = chars_of(name);
    let mut i: usize = chars.len();
    while i > 0
        invariant
            chars@ == name@,
            i <= chars.len(),
            forall|k: int| i <= k < chars.len() ==> chars@[k] != '.',
        decreases i,
    {
        if chars[i - 1] == '.' {
            proof {
                lemma_extension_after_last_dot(name@, i as int - 1);
                assert(name@.skip(i as int) == name@.subrange(i as int, name@.len() as int));
            }
            return Some(string_of(&chars, i, chars.len()));
        }
        i -= 1;
    }
    proof {
        lemma_no_dot_no_extension(name@);
    }
    None
}

/// Finds the language of a submission.
pub fn detect_language(language: &Option<String>, submission: &String) -> (detected: Option<
    String,
>)
    ensures
        match detected {
            Some(name) => detected_language(
                match language {
                    Some(l) => Some(l@),
                    None => None,
                },
                submission@,
            ) == Some(name@),
            None => detected_language(
                match language {
                    Some(l) => Some(l@),
                    None => None,
                },
                submission@,
            ) is None,
        },
{
    if let Some(language) = language {
        return match known_language(language.as_str()) {
            Some(known) => Some(known),
            None => Some(language.clone()),
        };
    }
    match extension(submission.as_str()) {
        Some(ext) => known_language(ext.as_str()),
        None => None,
    }
}

/// The parameters of the command that compiles a submission.
pub fn make_compile_params(language: Option<String>, submission: String, _output: String) -> (made:
    Result<CatBoxParams, CatBoxError>)
    ensures
        match detected_language(
            match language {
                Some(l) => Some(l@),
                None => None,
            },
            submission@,
        ) {
            None => made is Err && made->Err_0@ == ErrorModel::Cli(
                "Can not detect submission language"@,
            ),
            Some(name) => if name == "c"@ || name == "cpp"@ {
                &&& made is Ok
                &&& made->Ok_0.program@ == "g++"@
                &&& made->Ok_0.arguments@.len() == 0
                &&& made->Ok_0.time_limit == 1000
                &&& made->Ok_0.memory_limit == 262144
                &&& made->Ok_0.process == 1
                &&& made->Ok_0.stack_size == UNLIMITED_STACK
                &&& !made->Ok_0.chroot
                &&& made->Ok_0.mounts@.len() == 0
                &&& made->Ok_0.env@.len() == 0
                &&& made->Ok_0.stdin@ == "/dev/null"@
                &&& made->Ok_0.stdout@ == "/dev/null"@
                &&& made->Ok_0.stderr@ == "/dev/null"@
            } else {
                made is Err && made->Err_0@ == ErrorModel::Cli("Can not find language preset"@)
            },
        },
{
    let language = match detect_language(&language, &submission) {
        Some(language) => language,
        None => {
            return Err(CatBoxError::cli("Can not detect submission language"));
        },
    };
    if same_text(language.as_str(), "c") || same_text(language.as_str(), "cpp") {
        Ok(CatBoxParams::new("g++".to_owned(), Vec::new()))
    } else {
        Err(CatBoxError::cli("Can not find language preset"))
    }
}

/// The user that a command of a preset runs as.
#[derive(Clone, Copy, Debug, PartialEq, Eq, Structural)]
pub enum UserType {
    Nobody,
    Current,
    Root,
}

/// One command of a preset. In its program and arguments `${source}` stands
/// for the submission and `${executable}` for what is made of it.
#[derive(Debug)]
pub struct ExecuteCommand {
    pub program: String,
    pub arguments: Vec<String>,
    pub time_limit: TimeLimitType,
    pub memory_limit: MemoryLimitType,
    pub user: UserType,
    pub process: u64,
    pub ptrace: Vec<RestrictedSyscall>,
    pub chroot: bool,
    pub mounts: Vec<MountPoint>,
    pub env: Vec<(String, String)>,
}

/// The commands that compile a submission of one language.
#[derive(Debug)]
pub struct CompileOption {
    pub extension: String,
    pub commands: Vec<ExecuteCommand>,
}

/// The commands that run a compiled submission of one language.
#[derive(Debug)]
pub struct ExecuteOption {
    pub commands: Vec<ExecuteCommand>,
}

/// How to compile and run the submissions of one language.
#[derive(Debug)]
pub struct LanguagePreset {
    pub compile: CompileOption,
    pub execute: ExecuteOption,
}

impl CompileOption {
    /// The compilation of files with the given extension, without commands.
    pub fn new(extension: String) -> (option: Self)
        ensures
            option.extension == extension,
            option.commands@.len() == 0,
    {
        CompileOption { extension, commands: Vec::new() }
    }

    /// Adds a command.
    pub fn command(self, command: ExecuteCommand) -> (option: Self)
        ensures
            option.extension == self.extension,
            option.commands@ == self.commands@.push(command),
    {
        let mut this = self;
        this.commands.push(command);
        this
    }
}

impl ExecuteOption {
    /// A run without commands.
    pub fn new() -> (option: Self)
        ensures
            option.commands@.len() == 0,
    {
        ExecuteOption { commands: Vec::new() }
    }

    /// Adds a command.
    pub fn command(self, command: ExecuteCommand) -> (option: Self)
        ensures
            option.commands@ == self.commands@.push(command),
    {
        let mut this = self;
        this.commands.push(command);
        this
    }
}

/// A text of a preset with the submission and the executable filled in.
pub open spec fn applied(text: Seq<char>, source: Seq<char>, executable: Seq<char>) -> Seq<char> {
    replaced(replaced(text, "${source}"@, source), "${executable}"@, executable)
}

impl ExecuteCommand {
    /// A command with the limits of a run: one second, 256 MiB, one process,
    /// the user `nobody`, both syscall presets, and a jail.
    pub fn new(program: String, arguments: Vec<String>) -> (command: Self)
        ensures
            command.program == program,
            command.arguments == arguments,
            command.time_limit == 1000,
            command.memory_limit == 262144,
            command.user == UserType::Nobody,
            command.process == 1,
            command.ptrace@ == seq![RestrictedSyscall::Net, RestrictedSyscall::Process],
            command.chroot,
            command.mounts@.len() == 0,
            command.env@.len() == 0,
    {
        let mut ptrace: Vec<RestrictedSyscall> = Vec::new();
        ptrace.push(RestrictedSyscall::Net);
        ptrace.push(RestrictedSyscall::Process);
        assert(ptrace@ =~= seq![RestrictedSyscall::Net, RestrictedSyscall::Process]);
        ExecuteCommand {
            program,
            arguments,
            time_limit: 1000,
            memory_limit: 262144,
            user: UserType::Nobody,
            process: 1,
            ptrace,
            chroot: true,
            mounts: Vec::new(),
            env: Vec::new(),
        }
    }

    fn apply(text: &str, source: &str, executable: &str) -> (result: String)
        ensures
            result@ == applied(text@, source@, executable@),
    {
        let first = replace_all(text, "${source}", source);
        replace_all(first.as_str(), "${executable}", executable)
    }

    /// The program with the submission and the executable filled in.
    pub fn apply_program(&self, source: &str, executable: &str) -> (program: String)
        ensures
            program@ == applied(self.program@, source@, executable@),
    {
        Self::apply(self.program.as_str(), source, executable)
    }

    /// The arguments with the submission and the executable filled in.
    pub fn apply_arguments(&self, source: &str, executable: &str) -> (arguments: Vec<String>)
        ensures
            arguments@.len() == self.arguments@.len(),
            forall|i: int|
                0 <= i < arguments@.len() ==> (#[trigger] arguments@[i])@ == applied(
                    self.arguments@[i]@,
                    source@,
                    executable@,
                ),
    {
        let mut arguments: Vec<String> = Vec::new();
        let mut i: usize = 0;
        while i < self.arguments.len()
            invariant
                i <= self.arguments.len(),
                arguments@.len() == i,
                forall|k: int|
                    0 <= k < i ==> (#[trigger] arguments@[k])@ == applied(
                        self.arguments@[k]@,
                        source@,
                        executable@,
                    ),
            decreases self.arguments.len() - i,
        {
            arguments.push(Self::apply(self.arguments[i].as_str(), source, executable));
            i += 1;
        }
        arguments
    }

    /// Sets the time limit, in milliseconds.
    pub fn default_time_limit(self, value: TimeLimitType) -> (command: Self)
        ensures
            command == (ExecuteCommand { time_limit: value, ..self }),
    {
        let mut this = self;
        this.time_limit = value;
        this
    }

    /// Sets the memory limit, in KiB.
    pub fn default_memory_limit(self, value: MemoryLimitType) -> (command: Self)
        ensures
            command == (ExecuteCommand { memory_limit: value, ..self }),
    {
        let mut this = self;
        this.memory_limit = value;
        this
    }

    /// Sets the user that the command runs as.
    pub fn default_user(self, user_type: UserType) -> (command: Self)
        ensures
            command == (ExecuteCommand { user: user_type, ..self }),
    {
        let mut this = self;
        this.user = user_type;
        this
    }

    /// Sets the number of processes that the command may hold.
    pub fn default_process(self, value: u64) -> (command: Self)
        ensures
            command == (ExecuteCommand { process: value, ..self }),
    {
        let mut this = self;
        this.process = value;
        this
    }

    /// Sets the syscall presets of the command.
    pub fn default_ptrace(self, features: Vec<RestrictedSyscall>) -> (command: Self)
        ensures
            command == (ExecuteCommand { ptrace: features, ..self }),
    {
        let mut this = self;
        this.ptrace = features;
        this
    }

    /// Switches the jail on or off.
    pub fn default_chroot(self, flag: bool) -> (command: Self)
        ensures
            command == (ExecuteCommand { chroot: flag, ..self }),
    {
        let mut this = self;
        this.chroot = flag;
        this
    }

    /// Adds a read-only mount of `src` onto `dst`. The answers are those of
    /// the file system for the canonical form of source and destination.
    pub fn append_read_mount(
        self,
        src: String,
        dst: String,
        src_answer: &Canonical,
        dst_answer: &Canonical,
    ) -> (command: Self)
        requires
            canonical(src@, answer_view(*src_answer)) is Ok,
            canonical(dst@, answer_view(*dst_answer)) is Ok,
        ensures
            command == (ExecuteCommand { mounts: command.mounts, ..self }),
            command.mounts@.len() == self.mounts@.len() + 1,
            views(command.mounts@).drop_last() == views(self.mounts@),
            Ok::<MountModel, ErrorModel>(views(command.mounts@).last()) == canonical_mount(
                false,
                src@,
                dst@,
                answer_view(*src_answer),
                answer_view(*dst_answer),
            ),
    {
        let mut this = self;
        let ghost before = views(this.mounts@);
        let point = MountPoint::read(src, dst, src_answer, dst_answer);
        let ghost added = point@;
        this.mounts.push(point);
        assert(views(this.mounts@) =~= before.push(added));
        assert(views(this.mounts@).drop_last() =~= before);
        this
    }

    /// Adds nothing: presets have no writable mounts of their own.
    pub fn append_write_mount(self) -> (command: Self)
        ensures
            command == self,
    {
        self
    }

    /// Adds a variable to the environment of the command.
    pub fn append_env(self, key: String, value: String) -> (command: Self)
        ensures
            command == (ExecuteCommand { env: command.env, ..self }),
            command.env@ == self.env@.push((key, value)),
    {
        let mut this = self;
        this.env.push((key, value));
        this
    }
}

/// The arguments of the compiler of C and C++, but for the standard.
pub open spec fn compiler_arguments(standard: Seq<char>) -> Seq<Seq<char>> {
    seq![
        "${source}"@,
        "-o"@,
        "${executable}"@,
        "-fdiagnostics-color=always"@,
        "-Wall"@,
        "-Wextra"@,
        "-Wno-unused-result"@,
        "-static"@,
        "-lm"@,
        standard,
        "-O2"@,
        "-DONLINE_JUDGE"@,
        "-Wall"@,
    ]
}

/// Whether a command has the limits of a compilation: ten seconds, 1 GiB,
/// ten processes, the current user, no syscall filter, and a jail.
pub open spec fn compiles(command: ExecuteCommand) -> bool {
    &&& command.time_limit == 10000
    &&& command.memory_limit == 1048576
    &&& command.user == UserType::Current
    &&& command.process == 10
    &&& command.ptrace@.len() == 0
    &&& command.chroot
    &&& command.env@.len() == 0
}

/// Whether a command has the limits of a run.
pub open spec fn runs(command: ExecuteCommand) -> bool {
    &&& command.time_limit == 1000
    &&& command.memory_limit == 262144
    &&& command.user == UserType::Nobody
    &&& command.process == 1
    &&& command.ptrace@ == seq![RestrictedSyscall::Net, RestrictedSyscall::Process]
    &&& command.chroot
    &&& command.mounts@.len() == 0
    &&& command.env@.len() == 0
}

fn strings_of_13(items: [&str; 13]) -> (list: Vec<String>)
    ensures
        list@.len() == 13,
        forall|i: int| 0 <= i < 13 ==> (#[trigger] list@[i])@ == items@[i]@,
{
    let mut list: Vec<String> = Vec::new();
    let mut i: usize = 0;
    while i < 13
        invariant
            i <= 13,
            list@.len() == i,
            forall|k: int| 0 <= k < i ==> (#[trigger] list@[k])@ == items@[k]@,
        decreases 13 - i,
    {
        list.push(items[i].to_owned());
        i += 1;
    }
    list
}

fn compiler(program: &str, standard: &str) -> (command: ExecuteCommand)
    ensures
        command.program@ == program@,
        views(command.arguments@) == compiler_arguments(standard@),
        compiles(command),
        command.mounts@.len() == 0,
{
    let arguments = strings_of_13(
        [
            "${source}",
            "-o",
            "${executable}",
            "-fdiagnostics-color=always",
            "-Wall",
            "-Wextra",
            "-Wno-unused-result",
            "-static",
            "-lm",
            standard,
            "-O2",
            "-DONLINE_JUDGE",
            "-Wall",
        ],
    );
    assert(views(arguments@) =~= compiler_arguments(standard@));
    ExecuteCommand::new(program.to_owned(), arguments).default_time_limit(
        10 * 1000,
    ).default_memory_limit(1024 * 1024).default_user(UserType::Current).default_process(
        10,
    ).default_ptrace(Vec::new()).default_chroot(true)
}

/// The preset for C: `gcc` with the standard of 2017; the executable runs
/// by itself.
pub fn c_preset() -> (preset: LanguagePreset)
    ensures
        preset.compile.extension@ == "cpp"@,
        preset.compile.commands@.len() == 1,
        preset.compile.commands@[0].program@ == "gcc"@,
        preset.compile.commands@[0].mounts@.len() == 0,
        views(preset.compile.commands@[0].arguments@) == compiler_arguments("-std=c17"@),
        compiles(preset.compile.commands@[0]),
        preset.execute.commands@.len() == 1,
        preset.execute.commands@[0].program@ == "${executable}"@,
        preset.execute.commands@[0].arguments@.len() == 0,
        runs(preset.execute.commands@[0]),
{
    LanguagePreset {
        compile: CompileOption::new("cpp".to_owned()).command(compiler("gcc", "-std=c17")),
        execute: ExecuteOption::new().command(
            ExecuteCommand::new("${executable}".to_owned(), Vec::new()),
        ),
    }
}

/// The preset for C++: `g++` with the standard of 2020; the executable runs
/// by itself.
pub fn cpp_preset() -> (preset: LanguagePreset)
    ensures
        preset.compile.extension@ == "cpp"@,
        preset.compile.commands@.len() == 1,
        preset.compile.commands@[0].program@ == "g++"@,
        preset.compile.commands@[0].mounts@.len() == 0,
        views(preset.compile.commands@[0].arguments@) == compiler_arguments("--std=c++20"@),
        compiles(preset.compile.commands@[0]),
        preset.execute.commands@.len() == 1,
        preset.execute.commands@[0].program@ == "${executable}"@,
        preset.execute.commands@[0].arguments@.len() == 0,
        runs(preset.execute.commands@[0]),
{
    LanguagePreset {
        compile: CompileOption::new("cpp".to_owned()).command(compiler("g++", "--std=c++20")),
        execute: ExecuteOption::new().command(
            ExecuteCommand::new("${executable}".to_owned(), Vec::new()),
        ),
    }
}

/// The mounts that the tools of Java need besides the system directories.
pub open spec fn java_mounts() -> Seq<MountModel> {
    seq![
        MountModel { write: false, src: "/proc"@, dst: "/proc"@ },
        MountModel { write: false, src: "/dev"@, dst: "/dev"@ },
    ]
}

fn java_tool(program: &str, arguments: Vec<String>) -> (command: ExecuteCommand)
    ensures
        command.program@ == program@,
        command.arguments == arguments,
        compiles(command),
        views(command.mounts@) == java_mounts(),
{
    proof {
        reveal_strlit("/proc");
        reveal_strlit("/dev");
    }
    let verbatim: Canonical = Ok(String::new());
    let command = ExecuteCommand::new(program.to_owned(), arguments).default_time_limit(
        10 * 1000,
    ).default_memory_limit(1024 * 1024).default_user(UserType::Current).default_process(
        10,
    ).default_ptrace(Vec::new()).default_chroot(true).append_read_mount(
        "/proc".to_owned(),
        "/proc".to_owned(),
        &verbatim,
        &verbatim,
    ).append_read_mount("/dev".to_owned(), "/dev".to_owned(), &verbatim, &verbatim);
    assert(views(command.mounts@) =~= java_mounts()) by {
        let mounts = views(command.mounts@);
        assert(mounts.drop_last().drop_last() =~= Seq::<MountModel>::empty());
        assert(mounts.len() == 2);
        assert(mounts[0] == mounts.drop_last().last());
    }
    command
}

/// The preset for Java: `javac`, then `jar` to pack the classes; the archive
/// runs under `java` with the class `Main`.
pub fn java_preset() -> (preset: LanguagePreset)
    ensures
        preset.compile.extension@ == "java"@,
        preset.compile.commands@.len() == 2,
        preset.compile.commands@[0].program@ == "javac"@,
        views(preset.compile.commands@[0].arguments@) == seq![
            "-encoding"@,
            "utf8"@,
            "-d"@,
            "."@,
            "${source}"@,
        ],
        compiles(preset.compile.commands@[0]),
        views(preset.compile.commands@[0].mounts@) == java_mounts(),
        preset.compile.commands@[1].program@ == "bash"@,
        views(preset.compile.commands@[1].arguments@) == seq![
            "-c"@,
            "jar -cvf ${executable} *.class"@,
        ],
        compiles(preset.compile.commands@[1]),
        views(preset.compile.commands@[1].mounts@) == java_mounts(),
        preset.execute.commands@.len() == 1,
        preset.execute.commands@[0].program@ == "java"@,
        views(preset.execute.commands@[0].arguments@) == seq!["-cp"@, "${executable}"@, "Main"@],
        runs(preset.execute.commands@[0]),
{
    let mut javac: Vec<String> = Vec::new();
    javac.push("-encoding".to_owned());
    javac.push("utf8".to_owned());
    javac.push("-d".to_owned());
    javac.push(".".to_owned());
    javac.push("${source}".to_owned());
    assert(views(javac@) =~= seq!["-encoding"@, "utf8"@, "-d"@, "."@, "${source}"@]);
    let mut jar: Vec<String> = Vec::new();
    jar.push("-c".to_owned());
    jar.push("jar -cvf ${executable} *.class".to_owned());
    assert(views(jar@) =~= seq!["-c"@, "jar -cvf ${executable} *.class"@]);
    let mut java: Vec<String> = Vec::new();
    java.push("-cp".to_owned());
    java.push("${executable}".to_owned());
    java.push("Main".to_owned());
    assert(views(java@) =~= seq!["-cp"@, "${executable}"@, "Main"@]);
    LanguagePreset {
        compile: CompileOption::new("java".to_owned()).command(
            java_tool("javac", javac),
        ).command(java_tool("bash", jar)),
        execute: ExecuteOption::new().command(ExecuteCommand::new("java".to_owned(), java)),
    }
}

} // verus!
