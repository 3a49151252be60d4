use catj::syscall::{
    Registers, RestrictedSyscall, SyscallFilter, SYS_ACCEPT, SYS_ACCEPT4, SYS_BIND, SYS_CLONE,
    SYS_CLONE3, SYS_EXECVE, SYS_EXECVEAT, SYS_FORK, SYS_GETPEERNAME, SYS_GETSOCKNAME,
    SYS_GETSOCKOPT, SYS_LISTEN, SYS_SETSOCKOPT, SYS_SHUTDOWN, SYS_SOCKET, SYS_SOCKETPAIR,
    SYS_VFORK,
};
use nix::libc;

fn regs(id: i64) -> Registers {
    Registers { orig_rax: id as u64 }
}

fn strings(items: &[&str]) -> Vec<String> {
    items.iter().map(|s| s.to_string()).collect()
}

#[test]
fn syscall_numbers_are_those_of_libc() {
    assert_eq!(SYS_SOCKET, libc::SYS_socket);
    assert_eq!(SYS_ACCEPT, libc::SYS_accept);
    assert_eq!(SYS_SHUTDOWN, libc::SYS_shutdown);
    assert_eq!(SYS_BIND, libc::SYS_bind);
    assert_eq!(SYS_LISTEN, libc::SYS_listen);
    assert_eq!(SYS_GETSOCKNAME, libc::SYS_getsockname);
    assert_eq!(SYS_GETPEERNAME, libc::SYS_getpeername);
    assert_eq!(SYS_SOCKETPAIR, libc::SYS_socketpair);
    assert_eq!(SYS_SETSOCKOPT, libc::SYS_setsockopt);
    assert_eq!(SYS_GETSOCKOPT, libc::SYS_getsockopt);
    assert_eq!(SYS_CLONE, libc::SYS_clone);
    assert_eq!(SYS_FORK, libc::SYS_fork);
    assert_eq!(SYS_VFORK, libc::SYS_vfork);
    assert_eq!(SYS_EXECVE, libc::SYS_execve);
    assert_eq!(SYS_ACCEPT4, libc::SYS_accept4);
    assert_eq!(SYS_EXECVEAT, libc::SYS_execveat);
    assert_eq!(SYS_CLONE3, libc::SYS_clone3);
}

#[test]
fn empty_filter_allows_everything() {
    let mut filter = SyscallFilter::new();
    assert!(filter.filter(&regs(SYS_FORK), false));
    assert!(filter.filter(&regs(SYS_SOCKET), false));
    assert!(filter.filter(&regs(0), false));
}

#[test]
fn forbidden_syscall_is_denied_every_time() {
    let mut filter = SyscallFilter::new();
    filter.forbid(SYS_FORK);
    assert!(!filter.filter(&regs(SYS_FORK), true));
    assert!(!filter.filter(&regs(SYS_FORK), true));
    assert!(filter.filter(&regs(SYS_VFORK), true));
}

#[test]
fn quota_is_used_up() {
    let mut filter = SyscallFilter::new();
    filter.allow(1, 3);
    assert!(filter.filter(&regs(1), false));
    assert!(filter.filter(&regs(1), false));
    assert!(filter.filter(&regs(1), false));
    assert!(!filter.filter(&regs(1), false));
    assert!(!filter.filter(&regs(1), false));
}

#[test]
fn quota_of_zero_denies_at_once() {
    let mut filter = SyscallFilter::new();
    filter.allow(1, 0);
    assert!(!filter.filter(&regs(1), true));
}

#[test]
fn predicate_entry_follows_the_predicate() {
    let mut filter = SyscallFilter::new();
    filter.add_fn(2);
    assert!(filter.filter(&regs(2), true));
    assert!(!filter.filter(&regs(2), false));
    assert!(filter.filter(&regs(3), false));
}

#[test]
fn later_entry_replaces_earlier() {
    let mut filter = SyscallFilter::new();
    filter.forbid(5).allow(5, 1);
    assert!(filter.filter(&regs(5), false));
    assert!(!filter.filter(&regs(5), false));
}

#[test]
fn network_preset_forbids_the_socket_calls() {
    let mut filter = SyscallFilter::new();
    filter.enable(RestrictedSyscall::Net);
    for id in [
        SYS_SOCKET,
        SYS_SOCKETPAIR,
        SYS_SETSOCKOPT,
        SYS_GETSOCKOPT,
        SYS_GETSOCKNAME,
        SYS_GETPEERNAME,
        SYS_BIND,
        SYS_LISTEN,
        SYS_ACCEPT,
        SYS_ACCEPT4,
        SYS_SHUTDOWN,
    ] {
        assert!(!filter.filter(&regs(id), true), "syscall {}", id);
    }
    assert!(filter.filter(&regs(SYS_FORK), true));
    assert!(filter.filter(&regs(libc::SYS_read), true));
    assert!(filter.filter(&regs(libc::SYS_write), true));
}

#[test]
fn process_preset_lets_exec_fire_once_and_forbids_forking() {
    let mut filter = SyscallFilter::new();
    filter.enable(RestrictedSyscall::Process);
    assert!(filter.filter(&regs(SYS_EXECVE), true));
    assert!(!filter.filter(&regs(SYS_EXECVE), true));
    assert!(filter.filter(&regs(SYS_EXECVEAT), true));
    assert!(!filter.filter(&regs(SYS_EXECVEAT), true));
    for id in [SYS_FORK, SYS_VFORK, SYS_CLONE, SYS_CLONE3] {
        assert!(!filter.filter(&regs(id), true), "syscall {}", id);
    }
    assert!(filter.filter(&regs(SYS_BIND), true));
}

#[test]
fn thread_preset_adds_nothing() {
    let mut filter = SyscallFilter::new();
    filter.enable(RestrictedSyscall::Thread);
    assert!(filter.filter(&regs(SYS_CLONE), true));
}

#[test]
fn default_filter_holds_both_presets() {
    let mut filter = SyscallFilter::default();
    assert!(!filter.filter(&regs(SYS_BIND), true));
    assert!(!filter.filter(&regs(SYS_FORK), true));
    assert!(filter.filter(&regs(SYS_EXECVE), true));
    assert!(!filter.filter(&regs(SYS_EXECVE), true));
}

#[test]
fn clone_of_a_filter_has_its_own_quota() {
    let first = SyscallFilter::default();
    let mut copy = first.clone();
    assert!(copy.filter(&regs(SYS_EXECVE), true));
    assert!(!copy.filter(&regs(SYS_EXECVE), true));
    let mut second = first.clone();
    assert!(second.filter(&regs(SYS_EXECVE), true));
}

#[test]
fn presets_none_gives_the_empty_filter() {
    for list in [
        strings(&["none"]),
        strings(&["net", "none", "process"]),
        strings(&["NONE process"]),
        strings(&["all,none"]),
    ] {
        let mut filter = SyscallFilter::parse_presets(list).unwrap().unwrap();
        assert!(filter.filter(&regs(SYS_BIND), false));
        assert!(filter.filter(&regs(SYS_FORK), false));
        assert!(filter.filter(&regs(SYS_EXECVE), false));
        assert!(filter.filter(&regs(SYS_EXECVE), false));
    }
}

#[test]
fn presets_empty_list_gives_an_empty_filter() {
    let mut filter = SyscallFilter::parse_presets(vec![]).unwrap().unwrap();
    assert!(filter.filter(&regs(SYS_FORK), true));
    let mut blank = SyscallFilter::parse_presets(strings(&["  ", ""])).unwrap().unwrap();
    assert!(blank.filter(&regs(SYS_BIND), true));
}

#[test]
fn presets_net_and_network_are_the_same() {
    for name in ["net", "network", "NET", " Network "] {
        let mut filter = SyscallFilter::parse_presets(strings(&[name])).unwrap().unwrap();
        assert!(!filter.filter(&regs(SYS_BIND), true));
        assert!(filter.filter(&regs(SYS_FORK), true));
    }
}

#[test]
fn presets_process() {
    let mut filter = SyscallFilter::parse_presets(strings(&["process"])).unwrap().unwrap();
    assert!(filter.filter(&regs(SYS_BIND), true));
    assert!(!filter.filter(&regs(SYS_FORK), true));
}

#[test]
fn presets_all_is_both() {
    let mut filter = SyscallFilter::parse_presets(strings(&["all"])).unwrap().unwrap();
    assert!(!filter.filter(&regs(SYS_BIND), true));
    assert!(!filter.filter(&regs(SYS_FORK), true));
}

#[test]
fn presets_are_separated_by_spaces_or_commas() {
    for text in ["net process", "net,process", "net, process", " net ,, process "] {
        let mut filter = SyscallFilter::parse_presets(strings(&[text])).unwrap().unwrap();
        assert!(!filter.filter(&regs(SYS_BIND), true), "{:?}", text);
        assert!(!filter.filter(&regs(SYS_FORK), true), "{:?}", text);
    }
}

#[test]
fn presets_unknown_token_is_an_error() {
    let err = SyscallFilter::parse_presets(strings(&["net", "bogus"])).unwrap_err();
    assert_eq!(err.message(), "CLI Error: Parse ptrace syscall filter string fails");
    assert!(SyscallFilter::parse_presets(strings(&["bogus", "none"])).is_err());
    assert!(SyscallFilter::parse_presets(strings(&["none", "bogus"])).is_err());
    assert!(SyscallFilter::parse_presets(strings(&["none bogus"])).is_err());
    assert!(SyscallFilter::parse_presets(strings(&["net", "none", "bogus"])).is_err());
    assert!(SyscallFilter::parse_presets(strings(&["net\tprocess"])).is_err());
}

#[test]
fn filter_tells_where_it_asks_the_predicate() {
    let mut filter = SyscallFilter::default();
    filter.add_fn(2).forbid(3).allow(4, 1);
    assert!(filter.asks_predicate(&regs(2)));
    assert!(!filter.asks_predicate(&regs(3)));
    assert!(!filter.asks_predicate(&regs(4)));
    assert!(!filter.asks_predicate(&regs(5)));
    assert!(!filter.asks_predicate(&regs(SYS_FORK)));
    filter.forbid(2);
    assert!(!filter.asks_predicate(&regs(2)));
}
