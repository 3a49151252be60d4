//! The jail: the file system that the child sees. The plan is made here and
//! carried out by the child before it gives up its privileges.

use crate::context::CatBoxOption;
use crate::mount::{is_absolute, path_is_absolute, MountModel, MountPoint};
use crate::text::{chars_of, join, joined, string_of, views};
use vstd::prelude::*;

verus! {

/// The flags of one call of `mount`.
#[derive(Clone, Copy, Debug, PartialEq, Eq, Structural)]
pub struct MountFlags {
    pub bind: bool,
    pub recursive: bool,
    pub remount: bool,
    pub read_only: bool,
}

/// Binds a tree at a second place.
pub open spec fn bind_flags() -> MountFlags {
    MountFlags { bind: true, recursive: true, remount: false, read_only: false }
}

/// Changes the flags of a tree that is bound already.
pub open spec fn remount_flags() -> MountFlags {
    MountFlags { bind: true, recursive: true, remount: true, read_only: false }
}

/// Makes a tree that is bound already read-only.
pub open spec fn read_only_flags() -> MountFlags {
    MountFlags { bind: true, recursive: true, remount: true, read_only: true }
}

impl MountFlags {
    /// The flags that bind a tree at a second place.
    pub fn bind() -> (flags: MountFlags)
        ensures
            flags == bind_flags(),
    {
        MountFlags { bind: true, recursive: true, remount: false, read_only: false }
    }

    /// The flags that change the flags of a bound tree.
    pub fn remount() -> (flags: MountFlags)
        ensures
            flags == remount_flags(),
    {
        MountFlags { bind: true, recursive: true, remount: true, read_only: false }
    }

    /// The flags that make a bound tree read-only.
    pub fn read_only() -> (flags: MountFlags)
        ensures
            flags == read_only_flags(),
    {
        MountFlags { bind: true, recursive: true, remount: true, read_only: true }
    }
}

/// Why a mount specification is not carried out.
#[derive(Clone, Copy, Debug, PartialEq, Eq, Structural)]
pub enum SkipReason {
    /// Its destination does not start at the root
    NotAbsolute,
    /// Its destination is not a directory
    NotDirectory,
}

/// One step of building the jail.
#[derive(Debug, PartialEq, Eq)]
pub enum JailAction {
    /// Call `mount` with this source, target and flags
    Mount { source: Option<String>, target: String, flags: MountFlags },
    /// Create the directory and those above it that are missing
    CreateDirectories { target: String },
    /// Log that the mount onto `dst` is left out, and go on
    Skip { dst: String, reason: SkipReason },
    /// Make `root` the root of the file system
    ChangeRoot { root: String },
}

/// What a [`JailAction`] holds, as plain values.
pub enum JailStep {
    Mount { source: Option<Seq<char>>, target: Seq<char>, flags: MountFlags },
    CreateDirectories { target: Seq<char> },
    Skip { dst: Seq<char>, reason: SkipReason },
    ChangeRoot { root: Seq<char> },
}

impl View for JailAction {
    type V = JailStep;

    open spec fn view(&self) -> JailStep {
        match self {
            JailAction::Mount { source, target, flags } => JailStep::Mount {
                source: match source {
                    Some(s) => Some(s@),
                    None => None,
                },
                target: target@,
                flags: *flags,
            },
            JailAction::CreateDirectories { target } => JailStep::CreateDirectories {
                target: target@,
            },
            JailAction::Skip { dst, reason } => JailStep::Skip { dst: dst@, reason: *reason },
            JailAction::ChangeRoot { root } => JailStep::ChangeRoot { root: root@ },
        }
    }
}

/// A path without the slashes it starts with.
pub open spec fn stripped(path: Seq<char>) -> Seq<char>
    decreases path.len(),
{
    if path.len() > 0 && path[0] == '/' {
        stripped(path.skip(1))
    } else {
        path
    }
}

/// Where a destination inside the jail lies on the host: below the root of
/// the jail.
pub open spec fn target_in_jail(root: Seq<char>, dst: Seq<char>) -> Seq<char> {
    joined(root, stripped(dst))
}

/// The steps for one mount specification. `dst_is_dir` tells whether its
/// destination is a directory on the host.
pub open spec fn mount_steps(root: Seq<char>, mount: MountModel, dst_is_dir: bool) -> Seq<JailStep> {
    if !is_absolute(mount.dst) {
        seq![JailStep::Skip { dst: mount.dst, reason: SkipReason::NotAbsolute }]
    } else if !dst_is_dir {
        seq![JailStep::Skip { dst: mount.dst, reason: SkipReason::NotDirectory }]
    } else {
        let target = target_in_jail(root, mount.dst);
        let bind = seq![
            JailStep::CreateDirectories { target },
            JailStep::Mount { source: Some(mount.src), target, flags: bind_flags() },
        ];
        if mount.write {
            bind
        } else {
            bind.push(JailStep::Mount { source: None, target, flags: read_only_flags() })
        }
    }
}

/// The steps for all mount specifications, in their order.
pub open spec fn all_mount_steps(
    root: Seq<char>,
    mounts: Seq<MountModel>,
    dst_is_dir: Seq<bool>,
) -> Seq<JailStep>
    decreases mounts.len(),
{
    if mounts.len() == 0 {
        Seq::<JailStep>::empty()
    } else {
        all_mount_steps(root, mounts.drop_last(), dst_is_dir.drop_last()) + mount_steps(
            root,
            mounts.last(),
            dst_is_dir.last(),
        )
    }
}

/// The whole protocol: the root is bound onto itself and remounted, every
/// mount specification is carried out below it, and the root is changed.
pub open spec fn jail_steps(root: Seq<char>, mounts: Seq<MountModel>, dst_is_dir: Seq<bool>) -> Seq<
    JailStep,
> {
    seq![
        JailStep::Mount { source: Some(root), target: root, flags: bind_flags() },
        JailStep::Mount { source: None, target: root, flags: remount_flags() },
    ] + all_mount_steps(root, mounts, dst_is_dir) + seq![JailStep::ChangeRoot { root }]
}

/// The directory to change to once the root is changed: the configured one
/// if it exists inside the jail, the root otherwise.
pub open spec fn directory_in_jail(cwd: Seq<char>, exists: bool) -> Seq<char> {
    if exists {
        cwd
    } else {
        seq!['/']
    }
}

/// The targets of the mount specifications with an absolute destination, in
/// the order of the specifications.
pub open spec fn mount_targets(root: Seq<char>, mounts: Seq<MountModel>) -> Seq<Seq<char>>
    decreases mounts.len(),
{
    if mounts.len() == 0 {
        Seq::<Seq<char>>::empty()
    } else if is_absolute(mounts.last().dst) {
        mount_targets(root, mounts.drop_last()).push(target_in_jail(root, mounts.last().dst))
    } else {
        mount_targets(root, mounts.drop_last())
    }
}

/// The paths to unmount when the jail is torn down: the target of every
/// mount specification with an absolute destination, then the root.
pub open spec fn teardown_paths(root: Seq<char>, mounts: Seq<MountModel>) -> Seq<Seq<char>> {
    mount_targets(root, mounts).push(root)
}

fn strip_leading_slashes(path: &str) -> (rest: String)
    ensures
        rest@ == stripped(path@),
{
    let chars = chars_of(path);
    let mut k: usize = 0;
    assert(path@.skip(0) == path@);
    while k < chars.len() && chars[k] == '/'
        invariant
            chars@ == path@,
            k <= chars.len(),
            stripped(path@) == stripped(path@.skip(k as int)),
        decreases chars.len() - k,
    {
        assert(path@.skip(k as int).skip(1) == path@.skip(k as int + 1));
        k += 1;
    }
    assert(path@.skip(k as int) == path@.subrange(k as int, path@.len() as int));
    string_of(&chars, k, chars.len())
}

/// Where a destination inside the jail lies on the host.
pub fn jail_target(root: &str, dst: &str) -> (target: String)
    ensures
        target@ == target_in_jail(root@, dst@),
{
    let rest = strip_leading_slashes(dst);
    join(root, rest.as_str())
}

/// The plan for building the jail below `new_root`. `dst_is_dir` tells, for
/// each mount of the option, whether its destination is a directory on the
/// host. A step that fails ends the protocol; the child then goes on without
/// a jail.
pub fn change_root(new_root: &str, option: &CatBoxOption, dst_is_dir: &Vec<bool>) -> (plan: Vec<
    JailAction,
>)
    requires
        dst_is_dir.len() == option.mounts.len(),
    ensures
        views(plan@) == jail_steps(new_root@, views(option.mounts@), dst_is_dir@),
{
    let mut plan: Vec<JailAction> = Vec::new();
    plan.push(
        JailAction::Mount {
            source: Some(new_root.to_owned()),
            target: new_root.to_owned(),
            flags: MountFlags::bind(),
        },
    );
    plan.push(JailAction::Mount { source: None, target: new_root.to_owned(), flags: MountFlags::remount() });
    let ghost head = views(plan@);
    let ghost models = views(option.mounts@);
    let mounts = option.mounts();
    let mut i: usize = 0;
    while i < mounts.len()
        invariant
            mounts == option.mounts,
            models == views(option.mounts@),
            dst_is_dir.len() == mounts.len(),
            i <= mounts.len(),
            views(plan@) == head + all_mount_steps(
                new_root@,
                models.take(i as int),
                dst_is_dir@.take(i as int),
            ),
        decreases mounts.len() - i,
    {
        let mount_point = &mounts[i];
        let ghost before = views(plan@);
        proof {
            assert(models.take(i as int + 1).drop_last() == models.take(i as int));
            assert(dst_is_dir@.take(i as int + 1).drop_last() == dst_is_dir@.take(i as int));
            assert(models.take(i as int + 1).last() == mount_point@);
        }
        if !path_is_absolute(mount_point.dst().as_str()) {
            plan.push(
                JailAction::Skip {
                    dst: mount_point.dst().clone(),
                    reason: SkipReason::NotAbsolute,
                },
            );
            assert(views(plan@) =~= before + mount_steps(
                new_root@,
                mount_point@,
                dst_is_dir@[i as int],
            ));
        } else if !dst_is_dir[i] {
            plan.push(
                JailAction::Skip {
                    dst: mount_point.dst().clone(),
                    reason: SkipReason::NotDirectory,
                },
            );
            assert(views(plan@) =~= before + mount_steps(
                new_root@,
                mount_point@,
                dst_is_dir@[i as int],
            ));
        } else {
            let target = jail_target(new_root, mount_point.dst().as_str());
            let ghost create = JailStep::CreateDirectories { target: target@ };
            let ghost bind = JailStep::Mount {
                source: Some(mount_point@.src),
                target: target@,
                flags: bind_flags(),
            };
            plan.push(JailAction::CreateDirectories { target: target.clone() });
            assert(views(plan@) =~= before.push(create));
            plan.push(
                JailAction::Mount {
                    source: Some(mount_point.src().clone()),
                    target: target.clone(),
                    flags: MountFlags::bind(),
                },
            );
            assert(views(plan@) =~= before.push(create).push(bind));
            if mount_point.read_only() {
                let ghost seal = JailStep::Mount {
                    source: None,
                    target: target@,
                    flags: read_only_flags(),
                };
                plan.push(JailAction::Mount { source: None, target, flags: MountFlags::read_only() });
                assert(views(plan@) =~= before.push(create).push(bind).push(seal));
            }
            assert(views(plan@) =~= before + mount_steps(
                new_root@,
                mount_point@,
                dst_is_dir@[i as int],
            ));
        }
        i += 1;
    }
    assert(models.take(i as int) == models);
    assert(dst_is_dir@.take(i as int) == dst_is_dir@);
    let ghost before = views(plan@);
    plan.push(JailAction::ChangeRoot { root: new_root.to_owned() });
    assert(views(plan@) =~= before.push(JailStep::ChangeRoot { root: new_root@ }));
    plan
}

/// The directory to change to inside the jail. `exists` tells whether the
/// configured working directory exists there.
pub fn working_directory(option: &CatBoxOption, exists: bool) -> (path: String)
    ensures
        path@ == directory_in_jail(option.cwd@, exists),
{
    if exists {
        option.cwd().clone()
    } else {
        proof {
            reveal_strlit("/");
            assert("/"@ =~= seq!['/']);
        }
        "/".to_owned()
    }
}

/// The paths to unmount, in this order, when the jail below `root` is torn
/// down. An unmount that fails is logged, and the next is tried.
pub fn teardown(root: &str, mounts: &Vec<MountPoint>) -> (paths: Vec<String>)
    ensures
        views(paths@) == teardown_paths(root@, views(mounts@)),
{
    let ghost models = views(mounts@);
    let mut paths: Vec<String> = Vec::new();
    let mut i: usize = 0;
    while i < mounts.len()
        invariant
            models == views(mounts@),
            i <= mounts.len(),
            views(paths@) == mount_targets(root@, models.take(i as int)),
        decreases mounts.len() - i,
    {
        let mount_point = &mounts[i];
        proof {
            assert(models.take(i as int + 1).drop_last() == models.take(i as int));
            assert(models.take(i as int + 1).last() == mount_point@);
        }
        if path_is_absolute(mount_point.dst().as_str()) {
            let ghost before = views(paths@);
            let target = jail_target(root, mount_point.dst().as_str());
            paths.push(target);
            assert(views(paths@) =~= before.push(target_in_jail(root@, mount_point@.dst)));
        }
        i += 1;
    }
    assert(models.take(i as int) == models);
    let ghost before = views(paths@);
    paths.push(root.to_owned());
    assert(views(paths@) =~= before.push(root@));
    paths
}

/// Every step of one mount specification is a step of all of them.
proof fn lemma_steps_of_one_are_steps_of_all(
    root: Seq<char>,
    mounts: Seq<MountModel>,
    dst_is_dir: Seq<bool>,
    i: int,
    step: JailStep,
)
    requires
        mounts.len() == dst_is_dir.len(),
        0 <= i < mounts.len(),
        mount_steps(root, mounts[i], dst_is_dir[i]).contains(step),
    ensures
        all_mount_steps(root, mounts, dst_is_dir).contains(step),
    decreases mounts.len(),
{
    let before = all_mount_steps(root, mounts.drop_last(), dst_is_dir.drop_last());
    let last = mount_steps(root, mounts.last(), dst_is_dir.last());
    if i == mounts.len() - 1 {
        let k = choose|k: int| 0 <= k < last.len() && last[k] == step;
        assert((before + last)[before.len() + k] == step);
    } else {
        lemma_steps_of_one_are_steps_of_all(
            root,
            mounts.drop_last(),
            dst_is_dir.drop_last(),
            i,
            step,
        );
        let k = choose|k: int| 0 <= k < before.len() && before[k] == step;
        assert((before + last)[k] == step);
    }
}

/// Every step of one mount specification is a step of the whole plan.
proof fn lemma_steps_of_one_are_in_plan(
    root: Seq<char>,
    mounts: Seq<MountModel>,
    dst_is_dir: Seq<bool>,
    i: int,
    step: JailStep,
)
    requires
        mounts.len() == dst_is_dir.len(),
        0 <= i < mounts.len(),
        mount_steps(root, mounts[i], dst_is_dir[i]).contains(step),
    ensures
        jail_steps(root, mounts, dst_is_dir).contains(step),
{
    lemma_steps_of_one_are_steps_of_all(root, mounts, dst_is_dir, i, step);
    let middle = all_mount_steps(root, mounts, dst_is_dir);
    let k = choose|k: int| 0 <= k < middle.len() && middle[k] == step;
    assert(jail_steps(root, mounts, dst_is_dir)[2 + k] == step);
}

/// A mount specification whose destination is not absolute is skipped: the
/// plan holds a note of it to be logged and no other step for it, and still
/// ends by changing the root.
pub proof fn lemma_relative_destination_is_skipped(
    root: Seq<char>,
    mounts: Seq<MountModel>,
    dst_is_dir: Seq<bool>,
    i: int,
)
    requires
        mounts.len() == dst_is_dir.len(),
        0 <= i < mounts.len(),
        !is_absolute(mounts[i].dst),
    ensures
        mount_steps(root, mounts[i], dst_is_dir[i]) == seq![
            JailStep::Skip { dst: mounts[i].dst, reason: SkipReason::NotAbsolute },
        ],
        jail_steps(root, mounts, dst_is_dir).contains(
            JailStep::Skip { dst: mounts[i].dst, reason: SkipReason::NotAbsolute },
        ),
        jail_steps(root, mounts, dst_is_dir).last() == (JailStep::ChangeRoot { root }),
{
    let skip = JailStep::Skip { dst: mounts[i].dst, reason: SkipReason::NotAbsolute };
    assert(mount_steps(root, mounts[i], dst_is_dir[i])[0] == skip);
    lemma_steps_of_one_are_in_plan(root, mounts, dst_is_dir, i, skip);
}

/// The target of every mount specification with an absolute destination is
/// among the paths that the teardown unmounts.
proof fn lemma_target_is_unmounted(root: Seq<char>, mounts: Seq<MountModel>, i: int)
    requires
        0 <= i < mounts.len(),
        is_absolute(mounts[i].dst),
    ensures
        mount_targets(root, mounts).contains(target_in_jail(root, mounts[i].dst)),
    decreases mounts.len(),
{
    let before = mount_targets(root, mounts.drop_last());
    let target = target_in_jail(root, mounts[i].dst);
    if i == mounts.len() - 1 {
        assert(before.push(target)[before.len() as int] == target);
    } else {
        lemma_target_is_unmounted(root, mounts.drop_last(), i);
        let k = choose|k: int| 0 <= k < before.len() && before[k] == target;
        if is_absolute(mounts.last().dst) {
            assert(before.push(target_in_jail(root, mounts.last().dst))[k] == target);
        }
    }
}

/// Whatever the plan binds below the root, the teardown unmounts: the target
/// of every bind of a mount specification, and the root itself.
pub proof fn lemma_teardown_covers_plan(
    root: Seq<char>,
    mounts: Seq<MountModel>,
    dst_is_dir: Seq<bool>,
    i: int,
)
    requires
        mounts.len() == dst_is_dir.len(),
        0 <= i < mounts.len(),
        is_absolute(mounts[i].dst),
        dst_is_dir[i],
    ensures
        jail_steps(root, mounts, dst_is_dir).contains(
            JailStep::Mount {
                source: Some(mounts[i].src),
                target: target_in_jail(root, mounts[i].dst),
                flags: bind_flags(),
            },
        ),
        teardown_paths(root, mounts).contains(target_in_jail(root, mounts[i].dst)),
        teardown_paths(root, mounts).last() == root,
{
    let target = target_in_jail(root, mounts[i].dst);
    let bind = JailStep::Mount { source: Some(mounts[i].src), target, flags: bind_flags() };
    assert(mount_steps(root, mounts[i], dst_is_dir[i])[1] == bind);
    lemma_steps_of_one_are_in_plan(root, mounts, dst_is_dir, i, bind);
    lemma_target_is_unmounted(root, mounts, i);
    let targets = mount_targets(root, mounts);
    let k = choose|k: int| 0 <= k < targets.len() && targets[k] == target;
    assert(targets.push(root)[k] == target);
}

/// Every target lies below the root of the jail: its path starts with the
/// root's.
pub proof fn lemma_target_is_below_root(root: Seq<char>, dst: Seq<char>)
    ensures
        root.is_prefix_of(target_in_jail(root, dst)),
{
    let rest = stripped(dst);
    if root.len() == 0 {
    } else if root.last() == '/' {
        assert((root + rest).subrange(0, root.len() as int) =~= root);
    } else {
        assert((root + seq!['/'] + rest).subrange(0, root.len() as int) =~= root);
    }
}

} // verus!
