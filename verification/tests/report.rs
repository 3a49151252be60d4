use catj::context::CatBoxResult;
use catj::error::{CatBoxError, CatBoxExit};
use catj::params::CatBoxParams;
use catj::signal::Signal;
use catj::text::{
    char_is_whitespace, char_to_ascii_lower, chars_of, join, normalize, split_on, string_of,
};
use nix::libc;

fn s(text: &str) -> String {
    text.to_string()
}

#[test]
fn json_report_of_a_normal_exit() {
    let result = CatBoxResult {
        status: Some(0),
        signal: None,
        time: 1,
        time_user: 1,
        time_sys: 0,
        memory: 1024,
    };
    assert_eq!(
        result.report_json(),
        "{\n  \"ok\": true,\n  \"status\": 0,\n  \"signal\": null,\n  \"time\": 1,\n  \"time_user\": 1,\n  \"time_sys\": 0,\n  \"memory\": 1024\n}\n"
    );
}

#[test]
fn json_report_of_a_killed_child() {
    let result = CatBoxResult {
        status: None,
        signal: Some(Signal::SIGKILL),
        time: 1001,
        time_user: 990,
        time_sys: 11,
        memory: 262145,
    };
    assert_eq!(
        result.report_json(),
        "{\n  \"ok\": true,\n  \"status\": null,\n  \"signal\": \"SIGKILL\",\n  \"time\": 1001,\n  \"time_user\": 990,\n  \"time_sys\": 11,\n  \"memory\": 262145\n}\n"
    );
}

#[test]
fn json_report_with_a_negative_status_and_large_numbers() {
    let result = CatBoxResult {
        status: Some(-1),
        signal: Some(Signal::SIGXCPU),
        time: u64::MAX,
        time_user: 0,
        time_sys: 10,
        memory: 18446744073709551614,
    };
    let text = result.report_json();
    assert!(text.contains("\"status\": -1,"));
    assert!(text.contains("\"signal\": \"SIGXCPU\","));
    assert!(text.contains("\"time\": 18446744073709551615,"));
    assert!(text.contains("\"memory\": 18446744073709551614\n"));
    let low = CatBoxResult { status: Some(i32::MIN), ..result };
    assert!(low.report_json().contains("\"status\": -2147483648,"));
}

#[test]
fn json_report_round_trip() {
    let result = CatBoxResult {
        status: Some(42),
        signal: None,
        time: 12,
        time_user: 10,
        time_sys: 2,
        memory: 300,
    };
    let text = result.report_json();
    let field = |name: &str| -> String {
        let key = format!("\"{}\": ", name);
        let start = text.find(&key).unwrap() + key.len();
        let rest = &text[start..];
        let end = rest.find(|c| c == ',' || c == '\n').unwrap();
        rest[..end].to_string()
    };
    assert_eq!(field("ok"), "true");
    assert_eq!(field("status").parse::<i32>().unwrap(), 42);
    assert_eq!(field("signal"), "null");
    assert_eq!(field("time").parse::<u64>().unwrap(), 12);
    assert_eq!(field("time_user").parse::<u64>().unwrap(), 10);
    assert_eq!(field("time_sys").parse::<u64>().unwrap(), 2);
    assert_eq!(field("memory").parse::<u64>().unwrap(), 300);
}

#[test]
fn human_report() {
    let ok = CatBoxResult { status: Some(0), signal: None, time: 1, time_user: 1, time_sys: 0, memory: 0 };
    assert_eq!(
        ok.report_human(),
        "\n\x1b[1mStatus\x1b[22m     \x1b[92m0\x1b[39m\n\x1b[1mSignal\x1b[22m     \x1b[92m\u{2713}\x1b[39m\n\x1b[1mTime\x1b[22m       1 ms\n\x1b[1mTime user\x1b[22m  1 ms\n\x1b[1mTime sys\x1b[22m   0 ms\n\x1b[1mMemory\x1b[22m     0 KB\n\n"
    );
    let bad = CatBoxResult {
        status: None,
        signal: Some(Signal::SIGSEGV),
        time: 3,
        time_user: 2,
        time_sys: 1,
        memory: 9,
    };
    let text = bad.report_human();
    assert!(text.contains("\x1b[1mStatus\x1b[22m     \x1b[91m\u{d7}\x1b[39m\n"));
    assert!(text.contains("\x1b[1mSignal\x1b[22m     \x1b[91mSIGSEGV\x1b[39m\n"));
    let failed = CatBoxResult { status: Some(3), ..ok };
    assert!(failed.report_human().contains("\x1b[91m3\x1b[39m"));
}

#[test]
fn error_messages_by_class() {
    assert_eq!(CatBoxError::fork("no memory").message(), "CatBox Fork Error: no memory");
    assert_eq!(CatBoxError::cgroup("gone").message(), "CatBox Cgroup Error: gone");
    assert_eq!(CatBoxError::exec("bad").message(), "CatBox Exec Error: bad");
    assert_eq!(CatBoxError::cli("what").message(), "CLI Error: what");
    assert_eq!(CatBoxError::Fs(s("disk")).message(), "CatBox File System Error: disk");
    assert_eq!(CatBoxError::Logger(s("log")).message(), "Logger Error: log");
    assert_eq!(CatBoxError::Unknown(s("?")).message(), "Unknown Error: ?");
    assert_eq!(CatBoxError::fork("x"), CatBoxError::Fork(s("x")));
    assert_eq!(CatBoxError::cli("x").class(), "CLI Error");
    assert_eq!(CatBoxError::cli("x").detail(), "x");
}

#[test]
fn kernel_error_is_printed_as_nix_prints_it() {
    assert_eq!(
        CatBoxError::Nix(libc::ENOENT).message(),
        "CatBox Nix Error: ENOENT: No such file or directory"
    );
    assert_eq!(
        CatBoxError::Nix(libc::EPERM).message(),
        format!("CatBox Nix Error: {}", nix::errno::Errno::EPERM)
    );
    assert_eq!(CatBoxError::Nix(-7).message(), "CatBox Nix Error: UnknownErrno: Unknown errno");
}

#[test]
fn exit_report() {
    assert_eq!(CatBoxExit::Success.code(), 0);
    assert_eq!(CatBoxExit::Success.report(true), None);
    assert_eq!(CatBoxExit::Success.report(false), None);
    let failure = CatBoxExit::Failure(CatBoxError::exec("Execvpe fails: No such file or directory"));
    assert_eq!(failure.code(), 1);
    assert_eq!(
        failure.report(false).unwrap(),
        "{\n  \"ok\": false,\n  \"type\": \"CatBox Exec Error\",\n  \"message\": \"Execvpe fails: No such file or directory\"\n}"
    );
    assert_eq!(
        failure.report(true).unwrap(),
        "\x1b[1m\x1b[91mCatBox Exec Error\x1b[39m\x1b[22m  Execvpe fails: No such file or directory"
    );
}

#[test]
fn params_start_on_dev_null() {
    let params = CatBoxParams::new(s("g++"), vec![s("a.cpp")]);
    assert_eq!(params.time_limit, 1000);
    assert_eq!(params.memory_limit, 262144);
    assert_eq!(params.program, "g++");
    assert_eq!(params.arguments, vec![s("a.cpp")]);
    assert_eq!(params.process, 1);
    assert_eq!(params.stack_size, u64::MAX);
    assert!(!params.chroot);
    assert!(params.mounts.is_empty());
    assert!(params.env.is_empty());
    assert_eq!(params.stdin, "/dev/null");
    assert_eq!(params.stdout, "/dev/null");
    assert_eq!(params.stderr, "/dev/null");
}

#[test]
fn params_are_filled_in_place() {
    let mut params = CatBoxParams::new(s("a.out"), vec![]);
    params.stdin(s("1.in")).stdout(s("sub.out")).stderr(s("err")).chroot(true).env(s("K"), s("v"));
    assert_eq!(params.stdin, "1.in");
    assert_eq!(params.stdout, "sub.out");
    assert_eq!(params.stderr, "err");
    assert!(params.chroot);
    assert_eq!(params.env, vec![(s("K"), s("v"))]);
}

#[test]
fn white_space_is_that_of_unicode() {
    for code in 0..=0x10ffffu32 {
        if let Some(c) = char::from_u32(code) {
            assert_eq!(char_is_whitespace(c), c.is_whitespace(), "U+{:04X}", code);
        }
    }
}

#[test]
fn lower_case_is_that_of_ascii() {
    for code in 0..=0x10ffffu32 {
        if let Some(c) = char::from_u32(code) {
            assert_eq!(char_to_ascii_lower(c), c.to_ascii_lowercase(), "U+{:04X}", code);
        }
    }
}

#[test]
fn normalize_trims_and_lowers() {
    for text in ["", " ", "net", " NET ", "\tProcess\n", "a b", "\u{3000}x\u{a0}", "É"] {
        assert_eq!(normalize(text), text.trim().to_ascii_lowercase(), "{:?}", text);
    }
}

#[test]
fn split_is_that_of_str() {
    for text in ["", "a", ":", "a:b", "a::b", ":a:", "a:b:c", "é:ü"] {
        let expected: Vec<String> = text.split(':').map(|p| p.to_string()).collect();
        assert_eq!(split_on(text, ':', ':'), expected, "{:?}", text);
    }
    assert_eq!(split_on("a b,c", ' ', ','), vec!["a", "b", "c"]);
}

#[test]
fn characters_and_strings() {
    assert_eq!(chars_of("héllo"), vec!['h', 'é', 'l', 'l', 'o']);
    assert_eq!(string_of(&vec!['a', 'b', 'c', 'd'], 1, 3), "bc");
    assert_eq!(string_of(&vec!['a'], 1, 1), "");
    assert_eq!(join("/a", "b"), "/a/b");
    assert_eq!(join("/a/", "b"), "/a/b");
    assert_eq!(join("", "b"), "b");
}
