//! The syscall filter: a black list keyed by syscall number.

use crate::error::{CatBoxError, ErrorModel};
use crate::text::{normalize, normalized, same_text, split, split_on, views};
use std::collections::HashMap;
use vstd::prelude::*;

verus! {

pub const SYS_SOCKET: i64 = 41;

pub const SYS_ACCEPT: i64 = 43;

pub const SYS_SHUTDOWN: i64 = 48;

pub const SYS_BIND: i64 = 49;

pub const SYS_LISTEN: i64 = 50;

pub const SYS_GETSOCKNAME: i64 = 51;

pub const SYS_GETPEERNAME: i64 = 52;

pub const SYS_SOCKETPAIR: i64 = 53;

pub const SYS_SETSOCKOPT: i64 = 54;

pub const SYS_GETSOCKOPT: i64 = 55;

pub const SYS_CLONE: i64 = 56;

pub const SYS_FORK: i64 = 57;

pub const SYS_VFORK: i64 = 58;

pub const SYS_EXECVE: i64 = 59;

pub const SYS_ACCEPT4: i64 = 288;

pub const SYS_EXECVEAT: i64 = 322;

pub const SYS_CLONE3: i64 = 435;

/// The number under which the kernel reports a syscall.
pub type SyscallId = u64;

/// What the tracer reads from the registers of a stopped child.
#[derive(Clone, Copy, Debug)]
pub struct Registers {
    /// The number of the syscall that the child is entering.
    pub orig_rax: u64,
}

/// Syscall permission
#[derive(Clone, Copy, Debug, PartialEq, Eq, Structural)]
pub enum SyscallPerm {
    /// Forbid all
    Forbid,
    /// Ask a predicate of the caller whether it is ok
    FilterFn,
    /// Allow a few times: holds the quota that is left
    Allow(i32),
}

/// Syscall filter preset category
#[derive(Clone, Copy, Debug, PartialEq, Eq, Structural)]
pub enum RestrictedSyscall {
    Net,
    Process,
    Thread,
}

/// Whether every quota in the map is a count, that is not negative.
pub open spec fn quotas_are_counts(map: Map<SyscallId, SyscallPerm>) -> bool {
    forall|id: SyscallId| #[trigger]
        map.contains_key(id) ==> (map[id] matches SyscallPerm::Allow(n) ==> n >= 0)
}

/// Whether a syscall passes the filter. `predicate` is what the caller's
/// predicate says of this syscall; it decides for a `FilterFn` entry only.
/// A quota lets the syscall pass while something of it is left.
pub open spec fn permits(map: Map<SyscallId, SyscallPerm>, id: SyscallId, predicate: bool) -> bool {
    if map.contains_key(id) {
        match map[id] {
            SyscallPerm::Forbid => false,
            SyscallPerm::FilterFn => predicate,
            SyscallPerm::Allow(n) => n > 0,
        }
    } else {
        true
    }
}

/// Whether the filter leaves the decision on a syscall to the caller's
/// predicate.
pub open spec fn asks_for(map: Map<SyscallId, SyscallPerm>, id: SyscallId) -> bool {
    map.contains_key(id) && map[id] == SyscallPerm::FilterFn
}

/// The filter after a syscall went through it: a quota that let the syscall
/// pass has one use less.
pub open spec fn consumed(map: Map<SyscallId, SyscallPerm>, id: SyscallId) -> Map<
    SyscallId,
    SyscallPerm,
> {
    if map.contains_key(id) {
        match map[id] {
            SyscallPerm::Allow(n) if n > 0 => map.insert(id, SyscallPerm::Allow((n - 1) as i32)),
            _ => map,
        }
    } else {
        map
    }
}

/// The entries that a preset adds, applied to a map in the order of the
/// preset.
pub open spec fn with_preset(map: Map<SyscallId, SyscallPerm>, feature: RestrictedSyscall) -> Map<
    SyscallId,
    SyscallPerm,
> {
    match feature {
        RestrictedSyscall::Net => map.insert(SYS_SOCKET as u64, SyscallPerm::Forbid).insert(
            SYS_SOCKETPAIR as u64,
            SyscallPerm::Forbid,
        ).insert(SYS_SETSOCKOPT as u64, SyscallPerm::Forbid).insert(
            SYS_GETSOCKOPT as u64,
            SyscallPerm::Forbid,
        ).insert(SYS_GETSOCKNAME as u64, SyscallPerm::Forbid).insert(
            SYS_GETPEERNAME as u64,
            SyscallPerm::Forbid,
        ).insert(SYS_BIND as u64, SyscallPerm::Forbid).insert(
            SYS_LISTEN as u64,
            SyscallPerm::Forbid,
        ).insert(SYS_ACCEPT as u64, SyscallPerm::Forbid).insert(
            SYS_ACCEPT4 as u64,
            SyscallPerm::Forbid,
        ).insert(SYS_SHUTDOWN as u64, SyscallPerm::Forbid),
        RestrictedSyscall::Process => map.insert(SYS_EXECVE as u64, SyscallPerm::Allow(1)).insert(
            SYS_EXECVEAT as u64,
            SyscallPerm::Allow(1),
        ).insert(SYS_FORK as u64, SyscallPerm::Forbid).insert(
            SYS_VFORK as u64,
            SyscallPerm::Forbid,
        ).insert(SYS_CLONE as u64, SyscallPerm::Forbid).insert(
            SYS_CLONE3 as u64,
            SyscallPerm::Forbid,
        ),
        RestrictedSyscall::Thread => map,
    }
}

/// The filter that a command starts with: the network and the process
/// presets.
pub open spec fn default_filter() -> Map<SyscallId, SyscallPerm> {
    with_preset(
        with_preset(Map::<SyscallId, SyscallPerm>::empty(), RestrictedSyscall::Net),
        RestrictedSyscall::Process,
    )
}

/// The tokens among some pieces of text: each piece without the white space
/// around it and in lower case, the empty ones left out.
pub open spec fn tokens_of_pieces(pieces: Seq<Seq<char>>) -> Seq<Seq<char>>
    decreases pieces.len(),
{
    if pieces.len() == 0 {
        Seq::<Seq<char>>::empty()
    } else if normalized(pieces.last()).len() > 0 {
        tokens_of_pieces(pieces.drop_last()).push(normalized(pieces.last()))
    } else {
        tokens_of_pieces(pieces.drop_last())
    }
}

/// The tokens of a list of preset strings. Within a string, spaces and
/// commas separate the tokens.
pub open spec fn preset_tokens(texts: Seq<Seq<char>>) -> Seq<Seq<char>>
    decreases texts.len(),
{
    if texts.len() == 0 {
        Seq::<Seq<char>>::empty()
    } else {
        preset_tokens(texts.drop_last()) + tokens_of_pieces(split(texts.last(), ' ', ','))
    }
}

/// What a list of tokens makes of a filter: `net`, `network`, `process` and
/// `all` add their presets; `none` leaves the filter empty in the end,
/// wherever it stands; any other token is an error, told by `None`. `off`
/// tells whether a `none` was seen already.
pub open spec fn with_tokens(
    tokens: Seq<Seq<char>>,
    map: Map<SyscallId, SyscallPerm>,
    off: bool,
) -> Option<Map<SyscallId, SyscallPerm>>
    decreases tokens.len(),
{
    if tokens.len() == 0 {
        if off {
            Some(Map::<SyscallId, SyscallPerm>::empty())
        } else {
            Some(map)
        }
    } else {
        let token = tokens[0];
        if token == "none"@ {
            with_tokens(tokens.skip(1), map, true)
        } else if token == "net"@ || token == "network"@ {
            with_tokens(tokens.skip(1), with_preset(map, RestrictedSyscall::Net), off)
        } else if token == "process"@ {
            with_tokens(tokens.skip(1), with_preset(map, RestrictedSyscall::Process), off)
        } else if token == "all"@ {
            with_tokens(
                tokens.skip(1),
                with_preset(with_preset(map, RestrictedSyscall::Net), RestrictedSyscall::Process),
                off,
            )
        } else {
            None
        }
    }
}

/// What a list of preset strings means.
pub open spec fn parsed_presets(texts: Seq<Seq<char>>) -> Option<Map<SyscallId, SyscallPerm>> {
    with_tokens(preset_tokens(texts), Map::<SyscallId, SyscallPerm>::empty(), false)
}

fn tokens_in(presets: &Vec<String>) -> (tokens: Vec<String>)
    ensures
        views(tokens@) == preset_tokens(views(presets@)),
{
    let ghost texts = views(presets@);
    let mut tokens: Vec<String> = Vec::new();
    let mut i: usize = 0;
    assert(views(tokens@) =~= preset_tokens(texts.take(0)));
    while i < presets.len()
        invariant
            texts == views(presets@),
            i <= presets.len(),
            views(tokens@) == preset_tokens(texts.take(i as int)),
        decreases presets.len() - i,
    {
        let pieces = split_on(presets[i].as_str(), ' ', ',');
        let ghost parts = views(pieces@);
        let ghost start = views(tokens@);
        proof {
            assert(texts.take(i as int + 1).drop_last() == texts.take(i as int));
            assert(texts.take(i as int + 1).last() == presets@[i as int]@);
        }
        let mut j: usize = 0;
        assert(tokens_of_pieces(parts.take(0)) =~= Seq::<Seq<char>>::empty());
        assert(views(tokens@) =~= start + tokens_of_pieces(parts.take(0)));
        while j < pieces.len()
            invariant
                parts == views(pieces@),
                j <= pieces.len(),
                views(tokens@) == start + tokens_of_pieces(parts.take(j as int)),
            decreases pieces.len() - j,
        {
            let token = normalize(pieces[j].as_str());
            proof {
                assert(parts.take(j as int + 1).drop_last() == parts.take(j as int));
                assert(parts.take(j as int + 1).last() == pieces@[j as int]@);
            }
            if token.as_str().unicode_len() > 0 {
                let ghost before = views(tokens@);
                tokens.push(token);
                assert(views(tokens@) =~= before.push(token@));
                assert(views(tokens@) =~= start + tokens_of_pieces(parts.take(j as int + 1)));
            }
            j += 1;
        }
        assert(parts.take(j as int) == parts);
        i += 1;
    }
    assert(texts.take(i as int) == texts);
    tokens
}

/// Syscall filter
/// It is a black list filter, and it supports forbid syscall or allow a few times
#[derive(Debug)]
pub struct SyscallFilter {
    map: HashMap<SyscallId, SyscallPerm>,
}

impl View for SyscallFilter {
    type V = Map<SyscallId, SyscallPerm>;

    closed spec fn view(&self) -> Map<SyscallId, SyscallPerm> {
        self.map@
    }
}

impl Clone for SyscallFilter {
    fn clone(&self) -> (copy: Self)
        ensures
            copy@ == self@,
    {
        SyscallFilter { map: self.map.clone() }
    }
}

impl SyscallFilter {
    /// Create an empty syscall filter
    pub fn new() -> (filter: Self)
        ensures
            filter@ == Map::<SyscallId, SyscallPerm>::empty(),
    {
        SyscallFilter { map: HashMap::new() }
    }

    /// Create a default syscall filter with all the presets open
    pub fn default() -> (filter: Self)
        ensures
            filter@ == default_filter(),
    {
        let mut filter = Self::new();
        filter.enable(RestrictedSyscall::Net).enable(RestrictedSyscall::Process);
        filter
    }

    /// Enable preset
    pub fn enable(&mut self, feature: RestrictedSyscall) -> (chain: &mut Self)
        ensures
            chain@ == with_preset(old(self)@, feature),
            *final(self) == *final(chain),
    {
        match feature {
            RestrictedSyscall::Net => {
                self.forbid(SYS_SOCKET).forbid(SYS_SOCKETPAIR).forbid(SYS_SETSOCKOPT).forbid(
                    SYS_GETSOCKOPT,
                ).forbid(SYS_GETSOCKNAME).forbid(SYS_GETPEERNAME).forbid(SYS_BIND).forbid(
                    SYS_LISTEN,
                ).forbid(SYS_ACCEPT).forbid(SYS_ACCEPT4).forbid(SYS_SHUTDOWN);
            },
            RestrictedSyscall::Process => {
                self.allow(SYS_EXECVE, 1).allow(SYS_EXECVEAT, 1).forbid(SYS_FORK).forbid(
                    SYS_VFORK,
                ).forbid(SYS_CLONE).forbid(SYS_CLONE3);
            },
            RestrictedSyscall::Thread => {},
        }
        self
    }

    /// Try parsing presets string
    pub fn parse_presets(presets: Vec<String>) -> (parsed: Result<Option<Self>, CatBoxError>)
        ensures
            match parsed {
                Ok(Some(filter)) => parsed_presets(views(presets@)) == Some(filter@),
                Ok(None) => false,
                Err(e) => parsed_presets(views(presets@)) is None && e@ == ErrorModel::Cli(
                    "Parse ptrace syscall filter string fails"@,
                ),
            },
    {
        let mut filter = Self::new();
        let mut off = false;
        let tokens = tokens_in(&presets);
        let ghost all = views(tokens@);
        let mut i: usize = 0;
        assert(all.skip(0) == all);
        while i < tokens.len()
            invariant
                all == views(tokens@),
                all == preset_tokens(views(presets@)),
                i <= tokens.len(),
                    parsed_presets(views(presets@)) == with_tokens(all.skip(i as int), filter@, off),
            decreases tokens.len() - i,
        {
            let preset = tokens[i].as_str();
            proof {
                assert(all.skip(i as int)[0] == preset@);
                assert(all.skip(i as int).skip(1) == all.skip(i as int + 1));
            }
            if same_text(preset, "none") {
                off = true;
            } else if same_text(preset, "net") || same_text(preset, "network") {
                filter.enable(RestrictedSyscall::Net);
            } else if same_text(preset, "process") {
                filter.enable(RestrictedSyscall::Process);
            } else if same_text(preset, "all") {
                filter.enable(RestrictedSyscall::Net).enable(RestrictedSyscall::Process);
            } else {
                return Err(CatBoxError::cli("Parse ptrace syscall filter string fails"));
            }
            i += 1;
        }
        if off {
            return Ok(Some(Self::new()));
        }
        Ok(Some(filter))
    }

    /// Forbid a syscall
    pub fn forbid(&mut self, id: i64) -> (chain: &mut Self)
        ensures
            chain@ == old(self)@.insert(id as u64, SyscallPerm::Forbid),
            *final(self) == *final(chain),
    {
        self.map.insert(
            #[verifier::truncate]
            (id as SyscallId),
            SyscallPerm::Forbid,
        );
        self
    }

    /// Leave the decision on a syscall to the caller's predicate.
    pub fn add_fn(&mut self, id: i64) -> (chain: &mut Self)
        ensures
            chain@ == old(self)@.insert(id as u64, SyscallPerm::FilterFn),
            *final(self) == *final(chain),
    {
        self.map.insert(
            #[verifier::truncate]
            (id as SyscallId),
            SyscallPerm::FilterFn,
        );
        self
    }

    /// Allow a syscall `count` times
    pub fn allow(&mut self, id: i64, count: i32) -> (chain: &mut Self)
        requires
            count >= 0,
        ensures
            chain@ == old(self)@.insert(id as u64, SyscallPerm::Allow(count)),
            *final(self) == *final(chain),
    {
        self.map.insert(
            #[verifier::truncate]
            (id as SyscallId),
            SyscallPerm::Allow(count),
        );
        self
    }

    /// Whether the decision on the syscall that the registers show is left to
    /// the caller's predicate. Where it is, the caller evaluates the
    /// predicate and hands its verdict to [`SyscallFilter::filter`].
    pub fn asks_predicate(&self, regs: &Registers) -> (asks: bool)
        ensures
            asks == asks_for(self@, regs.orig_rax),
    {
        match self.map.get(&regs.orig_rax) {
            Some(SyscallPerm::FilterFn) => true,
            _ => false,
        }
    }

    /// Decide on the syscall that the registers show, and use up one unit of
    /// its quota where it has one.
    pub fn filter(&mut self, regs: &Registers, predicate: bool) -> (allowed: bool)
        ensures
            allowed == permits(old(self)@, regs.orig_rax, predicate),
            final(self)@ == consumed(old(self)@, regs.orig_rax),
    {
        let syscall_id = regs.orig_rax;
        let found: Option<SyscallPerm> = match self.map.get(&syscall_id) {
            Some(perm) => Some(*perm),
            None => None,
        };
        match found {
            Some(SyscallPerm::Forbid) => false,
            Some(SyscallPerm::FilterFn) => predicate,
            Some(SyscallPerm::Allow(count)) => {
                if count <= 0 {
                    false
                } else {
                    self.map.insert(syscall_id, SyscallPerm::Allow(count - 1));
                    true
                }
            },
            None => true,
        }
    }
}

/// The filter after `uses` passes of one syscall through it.
pub open spec fn after_uses(map: Map<SyscallId, SyscallPerm>, id: SyscallId, uses: nat) -> Map<
    SyscallId,
    SyscallPerm,
>
    decreases uses,
{
    if uses == 0 {
        map
    } else {
        consumed(after_uses(map, id, (uses - 1) as nat), id)
    }
}

/// A pass through the filter keeps every quota a count.
pub proof fn lemma_consumed_keeps_counts(map: Map<SyscallId, SyscallPerm>, id: SyscallId)
    requires
        quotas_are_counts(map),
    ensures
        quotas_are_counts(consumed(map, id)),
{
    assert forall|other: SyscallId| #[trigger]
        consumed(map, id).contains_key(other) implies (consumed(map, id)[other] matches SyscallPerm::Allow(
        n,
    ) ==> n >= 0) by {
        assert(map.contains_key(other));
    }
}

/// A quota of `quota` lets the syscall pass exactly `quota` times: the pass
/// after `uses` earlier ones is allowed if and only if `uses` is below the
/// quota.
pub proof fn lemma_quota_is_exact(
    map: Map<SyscallId, SyscallPerm>,
    id: SyscallId,
    quota: i32,
    uses: nat,
    predicate: bool,
)
    requires
        quota >= 0,
        map.contains_key(id),
        map[id] == SyscallPerm::Allow(quota),
    ensures
        permits(after_uses(map, id, uses), id, predicate) <==> uses < quota,
        after_uses(map, id, uses).contains_key(id),
        after_uses(map, id, uses)[id] == SyscallPerm::Allow(
            if uses < quota {
                (quota - uses) as i32
            } else {
                0i32
            },
        ),
    decreases uses,
{
    if uses > 0 {
        lemma_quota_is_exact(map, id, quota, (uses - 1) as nat, predicate);
    }
}

/// A syscall that the filter does not name always passes, and leaves the
/// filter as it was; a forbidden one never passes.
pub proof fn lemma_black_list(map: Map<SyscallId, SyscallPerm>, id: SyscallId, predicate: bool)
    ensures
        !map.contains_key(id) ==> permits(map, id, predicate) && consumed(map, id) == map,
        map.contains_key(id) && map[id] == SyscallPerm::Forbid ==> !permits(map, id, predicate)
            && consumed(map, id) == map,
{
}

/// The default filter denies every way to make a process and every call
/// on sockets that it names, lets a program be started once and only once,
/// and lets every other syscall pass.
pub proof fn lemma_default_filter(predicate: bool)
    ensures
        quotas_are_counts(default_filter()),
        !permits(default_filter(), SYS_FORK as u64, predicate),
        !permits(default_filter(), SYS_VFORK as u64, predicate),
        !permits(default_filter(), SYS_CLONE as u64, predicate),
        !permits(default_filter(), SYS_CLONE3 as u64, predicate),
        !permits(default_filter(), SYS_SOCKET as u64, predicate),
        !permits(default_filter(), SYS_BIND as u64, predicate),
        !permits(default_filter(), SYS_LISTEN as u64, predicate),
        !permits(default_filter(), SYS_ACCEPT as u64, predicate),
        !permits(default_filter(), SYS_ACCEPT4 as u64, predicate),
        !permits(default_filter(), SYS_SHUTDOWN as u64, predicate),
        !permits(default_filter(), SYS_SOCKETPAIR as u64, predicate),
        !permits(default_filter(), SYS_SETSOCKOPT as u64, predicate),
        !permits(default_filter(), SYS_GETSOCKOPT as u64, predicate),
        !permits(default_filter(), SYS_GETSOCKNAME as u64, predicate),
        !permits(default_filter(), SYS_GETPEERNAME as u64, predicate),
        permits(default_filter(), SYS_EXECVE as u64, predicate),
        !permits(consumed(default_filter(), SYS_EXECVE as u64), SYS_EXECVE as u64, predicate),
        permits(default_filter(), SYS_EXECVEAT as u64, predicate),
        !permits(consumed(default_filter(), SYS_EXECVEAT as u64), SYS_EXECVEAT as u64, predicate),
        forall|id: SyscallId| !default_filter().contains_key(id) ==> permits(
            default_filter(),
            id,
            predicate,
        ),
{
}

} // verus!
