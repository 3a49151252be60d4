//! The cgroup accountant: what to ask of the control group, what to do when
//! it is not to be had, and how its readings become a usage record.

use crate::context::CatBoxOption;
use crate::error::{CatBoxError, ErrorModel};
use crate::text::{append_signed_decimal, signed_decimal, views};
use vstd::prelude::*;
use vstd::string::StringExecFns;

verus! {

/// The resources that one run used.
#[derive(Clone, Copy, Debug, PartialEq, Eq, Structural)]
pub struct CatBoxUsage {
    /// CPU time, in milliseconds
    pub time: u64,
    /// CPU time in user mode, in milliseconds
    pub time_user: u64,
    /// CPU time in kernel mode, in milliseconds
    pub time_sys: u64,
    /// Peak memory, in KiB
    pub memory: u64,
}

impl CatBoxUsage {
    pub fn time(&self) -> (time: u64)
        ensures
            time == self.time,
    {
        self.time
    }

    pub fn time_user(&self) -> (time: u64)
        ensures
            time == self.time_user,
    {
        self.time_user
    }

    pub fn time_sys(&self) -> (time: u64)
        ensures
            time == self.time_sys,
    {
        self.time_sys
    }

    pub fn memory(&self) -> (memory: u64)
        ensures
            memory == self.memory,
    {
        self.memory
    }
}

/// Which controllers the cgroup hierarchy of the host offers.
#[derive(Clone, Copy, Debug, PartialEq, Eq, Structural)]
pub struct Subsystems {
    pub cpuacct: bool,
    pub memory: bool,
    pub cpu: bool,
    pub pids: bool,
}

/// The bandwidth of one full core: quota and period are the same.
pub const CPU_QUOTA: i64 = 1000000;

pub const CPU_PERIOD: u64 = 1000000;

/// What is added to the memory limit for the kernel's own overhead, in bytes.
pub const MEMORY_HEADROOM: i64 = 4096;

/// The control group to create for one child.
#[derive(Debug, PartialEq, Eq)]
pub struct CgroupPlan {
    /// The path of the group below the root of the hierarchy
    pub name: String,
    /// The soft, hard and swap limit on memory, in bytes
    pub memory_limit: Option<i64>,
    /// Quota and period of the cpu controller, in microseconds
    pub cpu_bandwidth: Option<(i64, u64)>,
    /// The most processes the group may hold
    pub max_processes: Option<i64>,
    /// The controllers to create the group in
    pub controllers: Vec<String>,
}

/// The name of the group of a child: the label as a directory, and in it the
/// label again, a dot and the child's pid.
pub open spec fn group_name(label: Seq<char>, child: int) -> Seq<char> {
    label + seq!['/'] + label + seq!['.'] + signed_decimal(child)
}

/// The memory limit in bytes for a limit in KiB.
pub open spec fn memory_bytes(memory_limit: u64) -> int {
    memory_limit * 1024 + MEMORY_HEADROOM
}

/// The names of the controllers that are present, in the order in which the
/// group asks for them.
pub open spec fn controller_names(present: Subsystems) -> Seq<Seq<char>> {
    (if present.cpuacct {
        seq!["cpuacct"@]
    } else {
        seq![]
    }) + (if present.memory {
        seq!["memory"@]
    } else {
        seq![]
    }) + (if present.cpu {
        seq!["cpu"@]
    } else {
        seq![]
    }) + (if present.pids {
        seq!["pids"@]
    } else {
        seq![]
    })
}

/// How building the group and attaching the child to it went.
#[derive(Debug)]
pub enum BuildOutcome {
    /// The group could not be created; holds the reason
    Failed(String),
    /// The group exists; tells for each accounting controller whether the
    /// child was attached to it
    Built { cpuacct_attached: bool, memory_attached: bool },
}

/// The accountant of one child: which of its readings can be had.
#[derive(Debug, PartialEq, Eq)]
pub struct CatBoxCgroup {
    pub name: String,
    /// Whether the group exists and has to be deleted in the end
    pub active: bool,
    pub enable_cpuacct: bool,
    pub enable_memory: bool,
}

/// What forced mode complains of: the first controller that the host lacks,
/// in the order cpuacct, memory, cpu, pids.
pub open spec fn first_missing(present: Subsystems) -> Option<Seq<char>> {
    if !present.cpuacct {
        Some("cgroup cpuacct is not supported"@)
    } else if !present.memory {
        Some("cgroup memory is not supported"@)
    } else if !present.cpu {
        Some("cgroup cpu is not supported"@)
    } else if !present.pids {
        Some("cgroup pids is not supported"@)
    } else {
        None
    }
}

/// The readings of the cpuacct controller, in nanoseconds.
#[derive(Clone, Copy, Debug, PartialEq, Eq, Structural)]
pub struct CpuAcct {
    pub usage: u64,
    pub usage_user: u64,
    pub usage_sys: u64,
}

/// The peaks that the memory controller saw, in bytes.
#[derive(Clone, Copy, Debug, PartialEq, Eq, Structural)]
pub struct MemoryPeak {
    /// Peak of memory alone
    pub memory: u64,
    /// Peak of memory and swap together
    pub memsw: u64,
}

/// A span of time as the kernel reports it: whole seconds, and the
/// microseconds beyond them.
#[derive(Clone, Copy, Debug, PartialEq, Eq, Structural)]
pub struct TimeVal {
    pub sec: i64,
    pub usec: i64,
}

/// The most seconds that a [`TimeVal`] to be added may hold.
pub const MAX_SECONDS: i64 = 4_000_000_000_000;

impl TimeVal {
    /// The span is not negative, its microseconds stay below one second,
    /// and it is short enough to be added to another.
    pub open spec fn wf(self) -> bool {
        0 <= self.sec <= MAX_SECONDS && 0 <= self.usec < 1_000_000
    }

    /// The span in microseconds.
    pub open spec fn micros(self) -> int {
        self.sec * 1_000_000 + self.usec
    }

    /// The span in whole milliseconds.
    pub open spec fn millis(self) -> int {
        self.sec * 1000 + self.usec / 1000
    }

    /// The sum of two spans, with the microseconds carried over.
    pub open spec fn plus(self, other: TimeVal) -> TimeVal {
        TimeVal {
            sec: ((self.micros() + other.micros()) / 1_000_000) as i64,
            usec: ((self.micros() + other.micros()) % 1_000_000) as i64,
        }
    }
}

/// Adds two spans of time.
///
/// Trusted: `TimeVal::new`, the `Add` of `TimeVal` and its `tv_sec` and
/// `tv_usec` in `nix`. The sum is made from the total of microseconds of both
/// spans, divided into seconds and a rest below one second. The bounds of
/// `wf` keep that total, and the seconds of the sum, inside what `nix`
/// accepts without a panic.
#[verifier::external_body]
fn timeval_add(a: TimeVal, b: TimeVal) -> (sum: TimeVal)
    requires
        a.wf(),
        b.wf(),
    ensures
        sum == a.plus(b),
{
    let total = nix::sys::time::TimeVal::new(a.sec, a.usec) + nix::sys::time::TimeVal::new(
        b.sec,
        b.usec,
    );
    TimeVal { sec: total.tv_sec(), usec: total.tv_usec() }
}

/// What `getrusage` reports of the children that were waited for.
#[derive(Clone, Copy, Debug, PartialEq, Eq, Structural)]
pub struct ResourceUsage {
    pub user_time: TimeVal,
    pub system_time: TimeVal,
    /// Peak resident set size, in KiB
    pub max_rss: i64,
}

impl ResourceUsage {
    pub open spec fn wf(self) -> bool {
        self.user_time.wf() && self.system_time.wf()
    }
}

/// The usage record that the readings amount to. The control group's
/// readings win where they could be had; what is missing comes from
/// `getrusage`.
pub open spec fn measured(
    cpuacct: Option<CpuAcct>,
    memory: Option<MemoryPeak>,
    rusage: ResourceUsage,
) -> CatBoxUsage {
    CatBoxUsage {
        time: match cpuacct {
            Some(acct) => acct.usage / 1000000,
            None => rusage.user_time.plus(rusage.system_time).millis() as u64,
        },
        time_user: match cpuacct {
            Some(acct) => acct.usage_user / 1000000,
            None => rusage.user_time.millis() as u64,
        },
        time_sys: match cpuacct {
            Some(acct) => acct.usage_sys / 1000000,
            None => rusage.system_time.millis() as u64,
        },
        memory: match memory {
            Some(peak) => (if peak.memory >= peak.memsw {
                peak.memory
            } else {
                peak.memsw
            }) / 1024,
            None => rusage.max_rss as u64,
        },
    }
}

fn microseconds(val: TimeVal) -> (ms: u64)
    requires
        0 <= val.sec <= 2 * MAX_SECONDS + 1,
        0 <= val.usec < 1_000_000,
    ensures
        ms == val.millis(),
{
    (val.sec * 1000 + val.usec / 1000) as u64
}

impl TimeVal {
    /// Whether the span is one that [`CatBoxCgroup::usage`] accepts.
    pub fn is_wf(self) -> (ok: bool)
        ensures
            ok == self.wf(),
    {
        0 <= self.sec && self.sec <= MAX_SECONDS && 0 <= self.usec && self.usec < 1_000_000
    }
}

impl ResourceUsage {
    /// Whether the report is one that [`CatBoxCgroup::usage`] accepts.
    pub fn is_wf(self) -> (ok: bool)
        ensures
            ok == self.wf(),
    {
        self.user_time.is_wf() && self.system_time.is_wf()
    }
}

impl CatBoxCgroup {
    /// Whether the memory limit of the option, in bytes and with its
    /// headroom, fits the 64 signed bits of the limit of a control group.
    pub fn fits_memory(option: &CatBoxOption) -> (fits: bool)
        ensures
            fits == (memory_bytes(option.memory_limit) <= i64::MAX),
    {
        option.memory_limit() <= (0x7fff_ffff_ffff_ffff - 4096) / 1024
    }

    /// The group to create for `child`, given the controllers that are
    /// present. A controller that is absent is left out and not configured.
    pub fn plan(option: &CatBoxOption, child: i32, present: Subsystems) -> (plan: CgroupPlan)
        requires
            memory_bytes(option.memory_limit) <= i64::MAX,
        ensures
            plan.name@ == group_name(option.cgroup@, child as int),
            plan.memory_limit == (if present.memory {
                Some(memory_bytes(option.memory_limit) as i64)
            } else {
                None
            }),
            plan.cpu_bandwidth == (if present.cpu {
                Some((CPU_QUOTA, CPU_PERIOD))
            } else {
                None
            }),
            plan.max_processes == (if present.pids {
                Some(option.process as i64)
            } else {
                None
            }),
            views(plan.controllers@) == controller_names(present),
    {
        let name = Self::group_name(option.cgroup(), child);
        let memory_limit = if present.memory {
            Some((option.memory_limit() as i64) * 1024 + MEMORY_HEADROOM)
        } else {
            None
        };
        let cpu_bandwidth = if present.cpu {
            Some((CPU_QUOTA, CPU_PERIOD))
        } else {
            None
        };
        let max_processes = if present.pids {
            Some(
                #[verifier::truncate]
                (option.process() as i64),
            )
        } else {
            None
        };
        let mut controllers: Vec<String> = Vec::new();
        if present.cpuacct {
            controllers.push("cpuacct".to_owned());
        }
        if present.memory {
            controllers.push("memory".to_owned());
        }
        if present.cpu {
            controllers.push("cpu".to_owned());
        }
        if present.pids {
            controllers.push("pids".to_owned());
        }
        assert(views(controllers@) =~= controller_names(present));
        CgroupPlan { name, memory_limit, cpu_bandwidth, max_processes, controllers }
    }

    /// The name of the group of `child` under the label `label`.
    pub fn group_name(label: &str, child: i32) -> (name: String)
        ensures
            name@ == group_name(label@, child as int),
    {
        proof {
            reveal_strlit("/");
            reveal_strlit(".");
            assert("/"@ =~= seq!['/']);
            assert("."@ =~= seq!['.']);
        }
        let mut name = label.to_owned().concat("/").concat(label).concat(".");
        append_signed_decimal(&mut name, child as i64);
        name
    }

    /// The accountant for `child`, once the outcome of building its group is
    /// known. Without force every shortfall degrades to the readings of
    /// `getrusage`. With force a group that cannot be built and a controller
    /// that the host lacks are errors. A controller that the child could not
    /// be attached to is disabled in either mode.
    pub fn new(
        option: &CatBoxOption,
        child: i32,
        present: Subsystems,
        outcome: BuildOutcome,
    ) -> (made: Result<Self, CatBoxError>)
        ensures
            match outcome {
                BuildOutcome::Failed(reason) => if option.force {
                    made is Err && made->Err_0@ == ErrorModel::Cgroup(reason@)
                } else {
                    &&& made is Ok
                    &&& made->Ok_0.name@ == group_name(option.cgroup@, child as int)
                    &&& !made->Ok_0.active
                    &&& !made->Ok_0.enable_cpuacct
                    &&& !made->Ok_0.enable_memory
                },
                BuildOutcome::Built { cpuacct_attached, memory_attached } => {
                    let cpuacct = present.cpuacct && cpuacct_attached;
                    let memory = present.memory && memory_attached;
                    if option.force && first_missing(present) is Some {
                        made is Err && made->Err_0@ == ErrorModel::Cgroup(first_missing(present)->0)
                    } else {
                        &&& made is Ok
                        &&& made->Ok_0.name@ == group_name(option.cgroup@, child as int)
                        &&& made->Ok_0.active
                        &&& made->Ok_0.enable_cpuacct == cpuacct
                        &&& made->Ok_0.enable_memory == memory
                    }
                },
            },
    {
        let name = Self::group_name(option.cgroup(), child);
        match outcome {
            BuildOutcome::Failed(reason) => {
                if option.force() {
                    Err(CatBoxError::cgroup(reason.as_str()))
                } else {
                    Ok(
                        CatBoxCgroup {
                            name,
                            active: false,
                            enable_cpuacct: false,
                            enable_memory: false,
                        },
                    )
                }
            },
            BuildOutcome::Built { cpuacct_attached, memory_attached } => {
                let enable_cpuacct = present.cpuacct && cpuacct_attached;
                let enable_memory = present.memory && memory_attached;
                if !present.cpuacct && option.force() {
                    return Err(CatBoxError::cgroup("cgroup cpuacct is not supported"));
                }
                if !present.memory && option.force() {
                    return Err(CatBoxError::cgroup("cgroup memory is not supported"));
                }
                if !present.cpu && option.force() {
                    return Err(CatBoxError::cgroup("cgroup cpu is not supported"));
                }
                if !present.pids && option.force() {
                    return Err(CatBoxError::cgroup("cgroup pids is not supported"));
                }
                Ok(CatBoxCgroup { name, active: true, enable_cpuacct, enable_memory })
            },
        }
    }

    /// Whether the cpuacct controller is to be read.
    pub fn reads_cpuacct(&self) -> (reads: bool)
        ensures
            reads == (self.enable_cpuacct && self.active),
    {
        self.enable_cpuacct && self.active
    }

    /// Whether the memory controller is to be read.
    pub fn reads_memory(&self) -> (reads: bool)
        ensures
            reads == (self.enable_memory && self.active),
    {
        self.enable_memory && self.active
    }

    /// Whether the times of the run come from `getrusage`: the readings of
    /// the cpuacct controller are disabled or could not be had.
    pub open spec fn takes_times_from_rusage(&self, cpuacct: Option<CpuAcct>) -> bool {
        !(self.enable_cpuacct && self.active) || cpuacct is None
    }

    /// Whether [`CatBoxCgroup::usage`] accepts these readings: the times of
    /// `getrusage` are well formed where they are used.
    pub fn accepts(&self, cpuacct: &Option<CpuAcct>, rusage: &ResourceUsage) -> (ok: bool)
        ensures
            ok == (self.takes_times_from_rusage(*cpuacct) ==> rusage.wf()),
    {
        (self.reads_cpuacct() && cpuacct.is_some()) || rusage.is_wf()
    }

    /// The usage record of the run. A reading is taken into account only
    /// where its controller is enabled. The times of `getrusage` have to be
    /// well formed only where they are used.
    pub fn usage(
        &self,
        cpuacct: Option<CpuAcct>,
        memory: Option<MemoryPeak>,
        rusage: ResourceUsage,
    ) -> (usage: CatBoxUsage)
        requires
            self.takes_times_from_rusage(cpuacct) ==> rusage.wf(),
        ensures
            usage == measured(
                if self.enable_cpuacct && self.active {
                    cpuacct
                } else {
                    None
                },
                if self.enable_memory && self.active {
                    memory
                } else {
                    None
                },
                rusage,
            ),
    {
        let acct = if self.reads_cpuacct() {
            cpuacct
        } else {
            None
        };
        let peak = if self.reads_memory() {
            memory
        } else {
            None
        };
        let (time, time_user, time_sys) = match acct {
            Some(acct) => (acct.usage / 1000000, acct.usage_user / 1000000, acct.usage_sys / 1000000),
            None => {
                let time_user = rusage.user_time;
                let time_sys = rusage.system_time;
                (
                    microseconds(timeval_add(time_user, time_sys)),
                    microseconds(time_user),
                    microseconds(time_sys),
                )
            },
        };
        let memory = match peak {
            Some(peak) => (if peak.memory >= peak.memsw {
                peak.memory
            } else {
                peak.memsw
            }) / 1024,
            None => {
                #[verifier::truncate]
                (rusage.max_rss as u64)
            },
        };
        CatBoxUsage { time, time_user, time_sys, memory }
    }
}

/// Without the control group, the total time is never less than user and
/// system time together: rounding to milliseconds loses nothing of the sum.
pub proof fn lemma_rusage_time_covers_parts(memory: Option<MemoryPeak>, rusage: ResourceUsage)
    requires
        rusage.wf(),
    ensures
        measured(None, memory, rusage).time >= measured(None, memory, rusage).time_user + measured(
            None,
            memory,
            rusage,
        ).time_sys,
{
}

/// With the control group, the total time is never less than user and system
/// time together, provided that the group's total reading covers its two
/// parts.
pub proof fn lemma_cpuacct_time_covers_parts(
    acct: CpuAcct,
    memory: Option<MemoryPeak>,
    rusage: ResourceUsage,
)
    requires
        acct.usage >= acct.usage_user + acct.usage_sys,
    ensures
        measured(Some(acct), memory, rusage).time >= measured(Some(acct), memory, rusage).time_user
            + measured(Some(acct), memory, rusage).time_sys,
{
}

} // verus!
