use catj::preset::{
    c_preset, cpp_preset, detect_language, java_preset, make_compile_params, replace_all,
    CompileOption, ExecuteCommand, ExecuteOption, UserType,
};
use catj::syscall::RestrictedSyscall;

fn s(text: &str) -> String {
    text.to_string()
}

#[test]
fn replace_is_that_of_str() {
    let cases = [
        ("${source} -o ${executable}", "${source}", "a.cpp"),
        ("", "x", "y"),
        ("aaa", "aa", "b"),
        ("abcabc", "abc", ""),
        ("abcabc", "bc", "xyz"),
        ("ab", "abc", "x"),
        ("héllo wörld", "ö", "oe"),
        ("xxxx", "x", "xx"),
        ("a$b${sou${source}", "${source}", "S"),
    ];
    for (text, from, to) in cases {
        assert_eq!(replace_all(text, from, to), text.replace(from, to), "{:?}", (text, from, to));
    }
}

#[test]
fn replace_with_an_empty_pattern_keeps_the_text() {
    assert_eq!(replace_all("abc", "", "x"), "abc");
}

#[test]
fn language_by_name() {
    let named = |name: &str| detect_language(&Some(s(name)), &s("whatever.txt"));
    assert_eq!(named("c"), Some(s("c")));
    assert_eq!(named("cc"), Some(s("cpp")));
    assert_eq!(named("c++"), Some(s("cpp")));
    assert_eq!(named("cpp"), Some(s("cpp")));
    assert_eq!(named("java"), Some(s("java")));
    assert_eq!(named("py"), Some(s("python3")));
    assert_eq!(named("python"), Some(s("python3")));
    assert_eq!(named("python3"), Some(s("python3")));
    assert_eq!(named("py2"), Some(s("python2")));
    assert_eq!(named("python2"), Some(s("python2")));
    assert_eq!(named("rust"), Some(s("rust")));
}

#[test]
fn language_by_extension() {
    let file = |name: &str| detect_language(&None, &s(name));
    assert_eq!(file("a.c"), Some(s("c")));
    assert_eq!(file("dir.d/a.cc"), Some(s("cpp")));
    assert_eq!(file("a.b.cpp"), Some(s("cpp")));
    assert_eq!(file("Main.java"), Some(s("java")));
    assert_eq!(file("x.py"), Some(s("python3")));
    assert_eq!(file("x.rs"), None);
    assert_eq!(file("Makefile"), None);
    assert_eq!(file("a."), None);
    assert_eq!(file(""), None);
    assert_eq!(file(".c"), Some(s("c")));
}

#[test]
fn compile_params_for_c_and_cpp() {
    for (language, file) in [(Some(s("c")), "a.txt"), (None, "a.cpp"), (Some(s("c++")), "a")] {
        let params = make_compile_params(language, s(file), s("a.out")).unwrap();
        assert_eq!(params.program, "g++");
        assert!(params.arguments.is_empty());
        assert_eq!(params.time_limit, 1000);
        assert_eq!(params.memory_limit, 262144);
    }
}

#[test]
fn compile_params_without_a_language() {
    let err = make_compile_params(None, s("a.unknown"), s("a.out")).unwrap_err();
    assert_eq!(err.message(), "CLI Error: Can not detect submission language");
}

#[test]
fn compile_params_without_a_preset() {
    let err = make_compile_params(Some(s("java")), s("Main.java"), s("a.out")).unwrap_err();
    assert_eq!(err.message(), "CLI Error: Can not find language preset");
}

#[test]
fn execute_command_defaults_and_setters() {
    let command = ExecuteCommand::new(s("echo"), vec![s("1")]);
    assert_eq!(command.program, "echo");
    assert_eq!(command.arguments, vec![s("1")]);
    assert_eq!(command.time_limit, 1000);
    assert_eq!(command.memory_limit, 262144);
    assert_eq!(command.user, UserType::Nobody);
    assert_eq!(command.process, 1);
    assert_eq!(command.ptrace, vec![RestrictedSyscall::Net, RestrictedSyscall::Process]);
    assert!(command.chroot);
    assert!(command.mounts.is_empty());
    assert!(command.env.is_empty());
    let changed = command
        .default_time_limit(5)
        .default_memory_limit(6)
        .default_user(UserType::Root)
        .default_process(7)
        .default_ptrace(vec![RestrictedSyscall::Thread])
        .default_chroot(false)
        .append_read_mount(s("lib"), s("/lib"), &Ok(s("/opt/lib")), &Err(s("not asked")))
        .append_write_mount()
        .append_env(s("K"), s("v"));
    assert_eq!((changed.time_limit, changed.memory_limit, changed.process), (5, 6, 7));
    assert_eq!(changed.user, UserType::Root);
    assert_eq!(changed.ptrace, vec![RestrictedSyscall::Thread]);
    assert!(!changed.chroot);
    assert_eq!(changed.mounts.len(), 1);
    assert_eq!(changed.mounts[0].src(), "/opt/lib");
    assert_eq!(changed.mounts[0].dst(), "/lib");
    assert!(changed.mounts[0].read_only());
    assert_eq!(changed.env, vec![(s("K"), s("v"))]);
}

#[test]
fn options_collect_commands() {
    let compile = CompileOption::new(s("cpp"))
        .command(ExecuteCommand::new(s("a"), vec![]))
        .command(ExecuteCommand::new(s("b"), vec![]));
    assert_eq!(compile.extension, "cpp");
    assert_eq!(compile.commands.len(), 2);
    assert_eq!(compile.commands[1].program, "b");
    let execute = ExecuteOption::new().command(ExecuteCommand::new(s("c"), vec![]));
    assert_eq!(execute.commands.len(), 1);
    assert!(ExecuteOption::new().commands.is_empty());
}

#[test]
fn cpp_preset_compiles_with_gpp() {
    let preset = cpp_preset();
    assert_eq!(preset.compile.extension, "cpp");
    let compile = &preset.compile.commands[0];
    assert_eq!(compile.program, "g++");
    assert_eq!(
        compile.arguments,
        vec![
            "${source}",
            "-o",
            "${executable}",
            "-fdiagnostics-color=always",
            "-Wall",
            "-Wextra",
            "-Wno-unused-result",
            "-static",
            "-lm",
            "--std=c++20",
            "-O2",
            "-DONLINE_JUDGE",
            "-Wall"
        ]
    );
    assert_eq!(compile.time_limit, 10000);
    assert_eq!(compile.memory_limit, 1048576);
    assert_eq!(compile.user, UserType::Current);
    assert_eq!(compile.process, 10);
    assert!(compile.ptrace.is_empty());
    assert!(compile.chroot);
    assert_eq!(compile.apply_program("/s/a.cpp", "/o/a.out"), "g++");
    let arguments = compile.apply_arguments("/s/a.cpp", "/o/a.out");
    assert_eq!(arguments[0], "/s/a.cpp");
    assert_eq!(arguments[1], "-o");
    assert_eq!(arguments[2], "/o/a.out");
    assert_eq!(arguments.len(), 13);
    let run = &preset.execute.commands[0];
    assert_eq!(run.apply_program("/s/a.cpp", "/o/a.out"), "/o/a.out");
    assert!(run.arguments.is_empty());
    assert_eq!(run.time_limit, 1000);
}

#[test]
fn c_preset_compiles_with_gcc() {
    let preset = c_preset();
    assert_eq!(preset.compile.extension, "cpp");
    assert_eq!(preset.compile.commands[0].program, "gcc");
    assert_eq!(preset.compile.commands[0].arguments[9], "-std=c17");
    assert_eq!(preset.execute.commands[0].program, "${executable}");
}

#[test]
fn java_preset_compiles_and_packs() {
    let preset = java_preset();
    assert_eq!(preset.compile.extension, "java");
    assert_eq!(preset.compile.commands.len(), 2);
    let javac = &preset.compile.commands[0];
    assert_eq!(javac.program, "javac");
    assert_eq!(javac.arguments, vec!["-encoding", "utf8", "-d", ".", "${source}"]);
    assert_eq!(javac.mounts.len(), 2);
    assert_eq!(javac.mounts[0].src(), "/proc");
    assert_eq!(javac.mounts[1].dst(), "/dev");
    let jar = &preset.compile.commands[1];
    assert_eq!(jar.program, "bash");
    assert_eq!(
        jar.apply_arguments("Main.java", "/o/Main.jar"),
        vec!["-c", "jar -cvf /o/Main.jar *.class"]
    );
    let run = &preset.execute.commands[0];
    assert_eq!(run.program, "java");
    assert_eq!(run.apply_arguments("Main.java", "/o/Main.jar"), vec!["-cp", "/o/Main.jar", "Main"]);
    assert_eq!(run.user, UserType::Nobody);
}
