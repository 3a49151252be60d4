use catj::builder::CatBoxBuilder;
use catj::cgroup::{CatBoxCgroup, CpuAcct, MemoryPeak, ResourceUsage, TimeVal};
use catj::context::{CatBoxResult, HostEnvironment, Limit};
use catj::pipe::{decode_message, encode_message, exec_failure, BUFFER_SIZE};
use catj::prelude::{
    child_prelude, exec_failure_message, get_env, OpenMode, PreludeStep, Redirection, Resource,
    ResourceLimit, StandardStream,
};
use catj::signal::Signal;
use catj::supervisor::{Action, Intervention, Supervisor, WaitStatus};
use catj::syscall::{Registers, SYS_EXECVE, SYS_FORK};
use catj::CatBoxOption;
use nix::libc;

fn host() -> HostEnvironment {
    HostEnvironment {
        user_name: "judge".to_string(),
        uid: 0,
        gid: 0,
        nobody_uid: 65534,
        nogroup_gid: 65534,
        current_dir: "/work".to_string(),
        variables: vec![
            ("test".to_string(), "value".to_string()),
            ("PATH".to_string(), "/usr/bin".to_string()),
        ],
    }
}

fn option(time: u64, memory: u64) -> CatBoxOption {
    let catbox = CatBoxBuilder::run(host())
        .command("/tmp/Main.out".to_string(), vec![])
        .time_limit(time)
        .memory_limit(memory)
        .stdin("1.in".to_string())
        .stdout("sub.out".to_string())
        .build();
    let mut options = catbox.options;
    options.pop().unwrap()
}

fn usage_of(time_ms: u64, memory_kb: u64) -> catj::cgroup::CatBoxUsage {
    let cgroup = CatBoxCgroup {
        name: "judge/judge.100".to_string(),
        active: true,
        enable_cpuacct: true,
        enable_memory: true,
    };
    let zero = TimeVal { sec: 0, usec: 0 };
    cgroup.usage(
        Some(CpuAcct { usage: time_ms * 1_000_000, usage_user: time_ms * 1_000_000, usage_sys: 0 }),
        Some(MemoryPeak { memory: memory_kb * 1024, memsw: memory_kb * 1024 }),
        ResourceUsage { user_time: zero, system_time: zero, max_rss: 0 },
    )
}

/// Feeds the reports of `waitpid` to a supervisor and returns the result of
/// the run. Syscall stops carry the number of the syscall.
fn supervise(
    option: &CatBoxOption,
    reports: &[(WaitStatus, u64)],
    usage: catj::cgroup::CatBoxUsage,
) -> (CatBoxResult, Vec<String>) {
    let mut supervisor = Supervisor::new(option);
    let mut done = vec![];
    for (report, syscall) in reports {
        match supervisor.on_wait(*report) {
            Action::Finish { status, signal } => {
                return (CatBoxResult::new(status, signal, usage), done);
            }
            Action::Forward { signal, .. } => done.push(format!("cont {}", signal.name())),
            Action::Inspect { pid } => {
                let regs = Registers { orig_rax: *syscall };
                match supervisor.on_registers(pid, Some(regs), true) {
                    Intervention::Resume { .. } => done.push("syscall".to_string()),
                    Intervention::Kill { .. } => done.push("kill".to_string()),
                }
            }
            Action::Unexpected { signal, .. } => panic!("unexpected stop by {}", signal.name()),
        }
    }
    panic!("the child is still running");
}

const PID: i32 = 100;

fn trap() -> WaitStatus {
    WaitStatus::Stopped { pid: PID, signal: Signal::SIGTRAP }
}

#[test]
fn accepted_run() {
    let o = option(1000, 262144);
    let plan = child_prelude(&o);
    assert_eq!(
        plan[2],
        PreludeStep::Redirect(Redirection {
            stream: StandardStream::Stdin,
            path: "1.in".to_string(),
            mode: OpenMode::Read
        })
    );
    assert_eq!(
        plan[3],
        PreludeStep::Redirect(Redirection {
            stream: StandardStream::Stdout,
            path: "sub.out".to_string(),
            mode: OpenMode::Write
        })
    );
    let reports = [
        (trap(), SYS_EXECVE as u64),
        (trap(), libc::SYS_read as u64),
        (trap(), libc::SYS_write as u64),
        (WaitStatus::Exited { pid: PID, status: 0 }, 0),
    ];
    let (result, done) = supervise(&o, &reports, usage_of(1, 1024));
    assert_eq!(done, vec!["syscall", "syscall", "syscall"]);
    assert_eq!(*result.status(), Some(0));
    assert_eq!(*result.signal(), None);
}

#[test]
fn time_limit_exceeded_run() {
    let o = option(1000, 262144);
    assert!(child_prelude(&o).contains(&PreludeStep::Alarm(2)));
    let reports = [
        (trap(), SYS_EXECVE as u64),
        (WaitStatus::Stopped { pid: PID, signal: Signal::SIGXCPU }, 0),
        (WaitStatus::Signaled { pid: PID, signal: Signal::SIGXCPU }, 0),
    ];
    let (result, done) = supervise(&o, &reports, usage_of(1998, 1024));
    assert_eq!(done, vec!["syscall", "cont SIGXCPU"]);
    assert_eq!(*result.status(), None);
    assert!(matches!(
        *result.signal(),
        Some(Signal::SIGALRM) | Some(Signal::SIGXCPU) | Some(Signal::SIGKILL)
    ));
    assert!(result.time() > 1000);
}

#[test]
fn memory_limit_exceeded_run() {
    let o = option(1000, 262144);
    let reports = [
        (trap(), SYS_EXECVE as u64),
        (WaitStatus::Signaled { pid: PID, signal: Signal::SIGKILL }, 0),
    ];
    let (result, _) = supervise(&o, &reports, usage_of(10, 262148));
    assert_eq!(*result.status(), None);
    assert!(result.memory() > 262144);
}

#[test]
fn forbidden_fork_run() {
    let o = option(1000, 262144);
    let reports = [
        (trap(), SYS_EXECVE as u64),
        (trap(), SYS_FORK as u64),
        (WaitStatus::Signaled { pid: PID, signal: Signal::SIGKILL }, 0),
    ];
    let (result, done) = supervise(&o, &reports, usage_of(1, 1024));
    assert_eq!(done, vec!["syscall", "kill"]);
    assert_eq!(*result.status(), None);
    assert_eq!(*result.signal(), Some(Signal::SIGKILL));
}

#[test]
fn file_size_cap_run() {
    let o = option(5000, 262144);
    let cap = Limit::Value(256 * 1024 * 1024);
    assert!(child_prelude(&o).contains(&PreludeStep::SetLimit(ResourceLimit {
        resource: Resource::FileSize,
        soft: cap,
        hard: cap
    })));
    let reports = [
        (trap(), SYS_EXECVE as u64),
        (WaitStatus::Stopped { pid: PID, signal: Signal::SIGXFSZ }, 0),
        (WaitStatus::Signaled { pid: PID, signal: Signal::SIGXFSZ }, 0),
    ];
    let (result, done) = supervise(&o, &reports, usage_of(100, 1024));
    assert_eq!(done, vec!["syscall", "cont SIGXFSZ"]);
    assert_eq!(*result.signal(), Some(Signal::SIGXFSZ));
}

#[test]
fn exec_failure_run() {
    let mut buf = encode_message(exec_failure_message(libc::ENOENT).as_str());
    buf.resize(BUFFER_SIZE, 0);
    let message = decode_message(&buf);
    let err = exec_failure(message.as_str()).unwrap();
    assert!(err.message().contains("Execvpe fails"));
    assert_eq!(err.message(), "CatBox Exec Error: Execvpe fails: No such file or directory");
}

#[test]
fn environment_is_scrubbed() {
    let o = option(1000, 262144);
    assert_eq!(get_env(&o), vec!["PATH=/usr/bin"]);
    match child_prelude(&o).last().unwrap() {
        PreludeStep::Exec { env, .. } => assert_eq!(env, &vec!["PATH=/usr/bin".to_string()]),
        other => panic!("{:?}", other),
    }
}

#[test]
fn uid_is_dropped_after_the_gid() {
    let catbox = CatBoxBuilder::run(host())
        .command("/tmp/Main.out".to_string(), vec![])
        .uid(1234)
        .gid(4321)
        .build();
    let plan = child_prelude(catbox.single().unwrap());
    let gid = plan.iter().position(|step| *step == PreludeStep::SetGid(4321)).unwrap();
    let uid = plan.iter().position(|step| *step == PreludeStep::SetUid(1234)).unwrap();
    assert_eq!(gid + 1, uid);
    assert!(uid < plan.len() - 1);
    assert!(matches!(plan.last(), Some(PreludeStep::Exec { .. })));
}

#[test]
fn runtime_error_run() {
    let o = option(1000, 262144);
    let (result, _) =
        supervise(&o, &[(WaitStatus::Exited { pid: PID, status: 42 }, 0)], usage_of(1, 1));
    assert_eq!(*result.status(), Some(42));
    let reports = [
        (WaitStatus::Stopped { pid: PID, signal: Signal::SIGSEGV }, 0),
        (WaitStatus::Signaled { pid: PID, signal: Signal::SIGSEGV }, 0),
    ];
    let (crashed, _) = supervise(&o, &reports, usage_of(1, 1));
    assert_eq!(*crashed.status(), None);
    assert_eq!(*crashed.signal(), Some(Signal::SIGSEGV));
}
