use catj::cgroup::{
    BuildOutcome, CatBoxCgroup, CatBoxUsage, CgroupPlan, CpuAcct, MemoryPeak, ResourceUsage,
    Subsystems, TimeVal,
};
use catj::context::{CatBoxOption, CatBoxResult, HostEnvironment};
use catj::signal::Signal;

fn host() -> HostEnvironment {
    HostEnvironment {
        user_name: "judge".to_string(),
        uid: 1000,
        gid: 1000,
        nobody_uid: 65534,
        nogroup_gid: 65534,
        current_dir: "/work".to_string(),
        variables: vec![],
    }
}

fn option(force: bool) -> CatBoxOption {
    let mut o = CatBoxOption::default("prog".to_string(), vec![], &host());
    o.force = force;
    o
}

const ALL: Subsystems = Subsystems { cpuacct: true, memory: true, cpu: true, pids: true };
const NONE: Subsystems = Subsystems { cpuacct: false, memory: false, cpu: false, pids: false };

fn rusage(user: (i64, i64), sys: (i64, i64), max_rss: i64) -> ResourceUsage {
    ResourceUsage {
        user_time: TimeVal { sec: user.0, usec: user.1 },
        system_time: TimeVal { sec: sys.0, usec: sys.1 },
        max_rss,
    }
}

fn active(enable_cpuacct: bool, enable_memory: bool) -> CatBoxCgroup {
    CatBoxCgroup { name: "judge/judge.1".to_string(), active: true, enable_cpuacct, enable_memory }
}

#[test]
fn group_name_ends_in_the_pid() {
    assert_eq!(CatBoxCgroup::group_name("judge", 4242), "judge/judge.4242");
    assert_eq!(CatBoxCgroup::group_name("catj", 1), "catj/catj.1");
    assert_eq!(CatBoxCgroup::group_name("x", 0), "x/x.0");
    assert_eq!(CatBoxCgroup::group_name("x", i32::MAX), "x/x.2147483647");
    assert_eq!(CatBoxCgroup::group_name("x", -5), "x/x.-5");
    assert_eq!(CatBoxCgroup::group_name("x", i32::MIN), "x/x.-2147483648");
}

#[test]
fn plan_with_all_controllers() {
    let mut o = option(false);
    o.memory_limit = 262144;
    o.process = 3;
    let plan = CatBoxCgroup::plan(&o, 77, ALL);
    assert_eq!(
        plan,
        CgroupPlan {
            name: "judge/judge.77".to_string(),
            memory_limit: Some(262144 * 1024 + 4096),
            cpu_bandwidth: Some((1000000, 1000000)),
            max_processes: Some(3),
            controllers: vec![
                "cpuacct".to_string(),
                "memory".to_string(),
                "cpu".to_string(),
                "pids".to_string()
            ],
        }
    );
    assert_eq!(plan.memory_limit, Some(268439552));
}

#[test]
fn plan_leaves_absent_controllers_out() {
    let plan = CatBoxCgroup::plan(&option(false), 5, NONE);
    assert_eq!(plan.memory_limit, None);
    assert_eq!(plan.cpu_bandwidth, None);
    assert_eq!(plan.max_processes, None);
    assert!(plan.controllers.is_empty());
    let some = Subsystems { cpuacct: false, memory: true, cpu: false, pids: true };
    let plan = CatBoxCgroup::plan(&option(false), 5, some);
    assert_eq!(plan.controllers, vec!["memory", "pids"]);
    assert_eq!(plan.max_processes, Some(1));
}

#[test]
fn build_failure_degrades_without_force() {
    let made = CatBoxCgroup::new(&option(false), 9, ALL, BuildOutcome::Failed("denied".to_string()));
    assert_eq!(
        made,
        Ok(CatBoxCgroup {
            name: "judge/judge.9".to_string(),
            active: false,
            enable_cpuacct: false,
            enable_memory: false
        })
    );
}

#[test]
fn build_failure_is_fatal_with_force() {
    let made = CatBoxCgroup::new(&option(true), 9, ALL, BuildOutcome::Failed("denied".to_string()));
    assert_eq!(made.unwrap_err().message(), "CatBox Cgroup Error: denied");
}

#[test]
fn built_group_with_everything_attached() {
    let outcome = BuildOutcome::Built { cpuacct_attached: true, memory_attached: true };
    for force in [false, true] {
        let made = CatBoxCgroup::new(&option(force), 9, ALL, outcome_copy(&outcome)).unwrap();
        assert!(made.active && made.enable_cpuacct && made.enable_memory);
        assert!(made.reads_cpuacct() && made.reads_memory());
    }
}

fn outcome_copy(outcome: &BuildOutcome) -> BuildOutcome {
    match outcome {
        BuildOutcome::Failed(reason) => BuildOutcome::Failed(reason.clone()),
        BuildOutcome::Built { cpuacct_attached, memory_attached } => BuildOutcome::Built {
            cpuacct_attached: *cpuacct_attached,
            memory_attached: *memory_attached,
        },
    }
}

#[test]
fn attach_failure_disables_the_controller() {
    let outcome = BuildOutcome::Built { cpuacct_attached: false, memory_attached: true };
    let made = CatBoxCgroup::new(&option(false), 9, ALL, outcome).unwrap();
    assert!(made.active);
    assert!(!made.enable_cpuacct);
    assert!(made.enable_memory);
}

#[test]
fn forced_mode_names_the_first_missing_controller() {
    let attached = |c, m| BuildOutcome::Built { cpuacct_attached: c, memory_attached: m };
    let msg = |present, outcome| {
        CatBoxCgroup::new(&option(true), 9, present, outcome).unwrap_err().message()
    };
    assert_eq!(msg(NONE, attached(true, true)), "CatBox Cgroup Error: cgroup cpuacct is not supported");
    assert_eq!(
        msg(Subsystems { cpuacct: true, memory: false, cpu: false, pids: false }, attached(true, true)),
        "CatBox Cgroup Error: cgroup memory is not supported"
    );
    assert_eq!(
        msg(Subsystems { cpuacct: true, memory: true, cpu: false, pids: false }, attached(true, true)),
        "CatBox Cgroup Error: cgroup cpu is not supported"
    );
    assert_eq!(
        msg(Subsystems { cpuacct: true, memory: true, cpu: true, pids: false }, attached(true, true)),
        "CatBox Cgroup Error: cgroup pids is not supported"
    );
}

#[test]
fn missing_controllers_are_tolerated_without_force() {
    let outcome = BuildOutcome::Built { cpuacct_attached: true, memory_attached: true };
    let made = CatBoxCgroup::new(&option(false), 9, NONE, outcome).unwrap();
    assert!(made.active);
    assert!(!made.enable_cpuacct && !made.enable_memory);
    assert!(!made.reads_cpuacct() && !made.reads_memory());
}

#[test]
fn usage_from_the_control_group() {
    let acct = CpuAcct { usage: 1_234_567_890, usage_user: 1_000_999_999, usage_sys: 233_000_000 };
    let peak = MemoryPeak { memory: 10 * 1024 * 1024, memsw: 12 * 1024 * 1024 + 1023 };
    let usage = active(true, true).usage(Some(acct), Some(peak), rusage((9, 0), (9, 0), 99));
    assert_eq!(usage, CatBoxUsage { time: 1234, time_user: 1000, time_sys: 233, memory: 12 * 1024 });
}

#[test]
fn memory_is_the_larger_peak() {
    let peak = MemoryPeak { memory: 5 * 1024, memsw: 3 * 1024 };
    let usage = active(false, true).usage(None, Some(peak), rusage((0, 0), (0, 0), 0));
    assert_eq!(usage.memory, 5);
}

#[test]
fn usage_falls_back_to_rusage() {
    let usage = active(false, false).usage(None, None, rusage((1, 500_000), (0, 250_999), 2048));
    assert_eq!(usage, CatBoxUsage { time: 1750, time_user: 1500, time_sys: 250, memory: 2048 });
}

#[test]
fn rusage_times_are_added_before_rounding() {
    let usage = active(false, false).usage(None, None, rusage((0, 600_600), (0, 700_700), 0));
    assert_eq!(usage.time_user, 600);
    assert_eq!(usage.time_sys, 700);
    assert_eq!(usage.time, 1301);
    let carried = active(false, false).usage(None, None, rusage((2, 999_999), (3, 999_999), 0));
    assert_eq!(carried.time, 6999);
    assert_eq!(carried.time_user + carried.time_sys, 2999 + 3999);
}

#[test]
fn readings_of_a_disabled_controller_are_not_used() {
    let acct = CpuAcct { usage: 5_000_000, usage_user: 5_000_000, usage_sys: 0 };
    let peak = MemoryPeak { memory: 4096, memsw: 4096 };
    let usage = active(false, false).usage(Some(acct), Some(peak), rusage((0, 2000), (0, 1000), 7));
    assert_eq!(usage, CatBoxUsage { time: 3, time_user: 2, time_sys: 1, memory: 7 });
    let mixed = active(true, false).usage(Some(acct), Some(peak), rusage((0, 2000), (0, 1000), 7));
    assert_eq!(mixed, CatBoxUsage { time: 5, time_user: 5, time_sys: 0, memory: 7 });
}

#[test]
fn readings_that_could_not_be_taken_fall_back() {
    let usage = active(true, true).usage(None, None, rusage((0, 2000), (0, 1000), 7));
    assert_eq!(usage, CatBoxUsage { time: 3, time_user: 2, time_sys: 1, memory: 7 });
}

#[test]
fn total_time_covers_user_and_system_time() {
    for (user, sys) in [((0, 999), (0, 999)), ((1, 1), (2, 2)), ((0, 500_500), (0, 499_500)), ((0, 0), (0, 0))] {
        let usage = active(false, false).usage(None, None, rusage(user, sys, 0));
        assert!(usage.time >= usage.time_user + usage.time_sys);
    }
}

#[test]
fn result_takes_the_usage_over() {
    let usage = CatBoxUsage { time: 12, time_user: 10, time_sys: 2, memory: 300 };
    let result = CatBoxResult::new(Some(0), None, usage);
    assert_eq!(*result.status(), Some(0));
    assert_eq!(*result.signal(), None);
    assert_eq!(result.time(), 12);
    assert_eq!(result.time_user(), 10);
    assert_eq!(result.time_sys(), 2);
    assert_eq!(result.memory(), 300);
    assert_eq!((usage.time(), usage.time_user(), usage.time_sys(), usage.memory()), (12, 10, 2, 300));
    let killed = CatBoxResult::new(None, Some(Signal::SIGKILL), usage);
    assert_eq!(*killed.signal(), Some(Signal::SIGKILL));
}

#[test]
fn memory_limit_fits_up_to_the_largest_count_of_bytes() {
    let mut o = option(false);
    assert!(CatBoxCgroup::fits_memory(&o));
    o.memory_limit = (i64::MAX as u64 - 4096) / 1024;
    assert!(CatBoxCgroup::fits_memory(&o));
    assert_eq!(CatBoxCgroup::plan(&o, 1, ALL).memory_limit, Some(i64::MAX - 1023));
    o.memory_limit += 1;
    assert!(!CatBoxCgroup::fits_memory(&o));
    o.memory_limit = u64::MAX;
    assert!(!CatBoxCgroup::fits_memory(&o));
}

#[test]
fn times_of_the_kernel_are_checked() {
    assert!(rusage((0, 0), (0, 999_999), -1).is_wf());
    assert!(rusage((4_000_000_000_000, 0), (0, 0), 0).is_wf());
    assert!(!rusage((4_000_000_000_001, 0), (0, 0), 0).is_wf());
    assert!(!rusage((0, 1_000_000), (0, 0), 0).is_wf());
    assert!(!rusage((0, 0), (-1, 0), 0).is_wf());
    assert!(!rusage((0, 0), (0, -1), 0).is_wf());
    assert!(TimeVal { sec: 1, usec: 1 }.is_wf());
}

#[test]
fn largest_times_can_be_added() {
    let usage = active(false, false).usage(
        None,
        None,
        rusage((4_000_000_000_000, 999_999), (4_000_000_000_000, 999_999), 0),
    );
    assert_eq!(usage.time_user, 4_000_000_000_000_999);
    assert_eq!(usage.time, 8_000_000_000_001_999);
}

#[test]
fn attach_failure_does_not_fail_construction_even_with_force() {
    let outcome = BuildOutcome::Built { cpuacct_attached: false, memory_attached: false };
    let made = CatBoxCgroup::new(&option(true), 9, ALL, outcome).unwrap();
    assert!(made.active);
    assert!(!made.enable_cpuacct);
    assert!(!made.enable_memory);
    let usage = made.usage(
        Some(CpuAcct { usage: 9_000_000, usage_user: 9_000_000, usage_sys: 0 }),
        Some(MemoryPeak { memory: 1 << 20, memsw: 1 << 20 }),
        rusage((0, 3000), (0, 0), 11),
    );
    assert_eq!(usage, CatBoxUsage { time: 3, time_user: 3, time_sys: 0, memory: 11 });
}

#[test]
fn times_are_checked_only_where_they_are_used() {
    let bad = rusage((-1, 5_000_000), (0, 0), 33);
    let acct = CpuAcct { usage: 7_000_000, usage_user: 4_000_000, usage_sys: 3_000_000 };
    assert!(active(true, false).accepts(&Some(acct), &bad));
    assert!(!active(true, false).accepts(&None, &bad));
    assert!(!active(false, false).accepts(&Some(acct), &bad));
    assert!(active(false, false).accepts(&None, &rusage((0, 0), (0, 0), 0)));
    let usage = active(true, false).usage(Some(acct), None, bad);
    assert_eq!(usage, CatBoxUsage { time: 7, time_user: 4, time_sys: 3, memory: 33 });
}
