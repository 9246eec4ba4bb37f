//! The read-through cache over the reference sets: a refill session per set,
//! probing the store, taking the set's lock on a miss, probing again under
//! the lock, and only then querying the backing store.

use vstd::prelude::*;

use crate::store::CACHE_TTL_SECS;

verus! {

/// The cached reference sets.
#[derive(Clone, Copy, Debug, PartialEq, Eq, Structural)]
pub enum CacheKind {
    Tasks,
    Algorithms,
    BaseConfigs,
    EventFilterConfigs,
    Cameras,
}

impl CacheKind {
    pub open spec fn key_spec(self) -> Seq<char> {
        match self {
            CacheKind::Tasks => "all_running_tasks"@,
            CacheKind::Algorithms => "all_algorithms"@,
            CacheKind::BaseConfigs => "all_base_configs"@,
            CacheKind::EventFilterConfigs => "all_event_filter_configs"@,
            CacheKind::Cameras => "all_cameras"@,
        }
    }

    /// The store key the set is cached under.
    pub fn key(&self) -> (r: String)
        ensures
            r@ == self.key_spec(),
    {
        match self {
            CacheKind::Tasks => String::from_str("all_running_tasks"),
            CacheKind::Algorithms => String::from_str("all_algorithms"),
            CacheKind::BaseConfigs => String::from_str("all_base_configs"),
            CacheKind::EventFilterConfigs => String::from_str("all_event_filter_configs"),
            CacheKind::Cameras => String::from_str("all_cameras"),
        }
    }
}

/// Where a refill session stands.
#[derive(Clone, Copy, Debug, PartialEq, Eq, Structural)]
pub enum CachePhase {
    Start,
    FirstProbe,
    AwaitLock,
    SecondProbe,
    AwaitQuery,
    Done,
}

/// What happened since the last step.
#[derive(Clone, Copy, Debug, PartialEq, Eq, Structural)]
pub enum CacheEvent {
    Begin,
    /// The store was read; `true` when it held a usable set.
    Probed(bool),
    /// The set's lock is held.
    Locked,
    /// The backing store answered; `false` when the query failed.
    Queried(bool),
}

/// What the caller does next, in order.
#[derive(Clone, Copy, Debug, PartialEq, Eq, Structural)]
pub enum CacheAction {
    ReadCache,
    AcquireLock,
    QueryBackingStore,
    /// Store the fetched set with this expiry in seconds; a failed write is
    /// not an error.
    WriteCache(u64),
    ReleaseLock,
    ReturnCached,
    ReturnFetched,
    /// The refill failed: the error goes to the caller.
    Fail,
}

/// A probe hits on a present, non-empty value that decoded.
pub fn probe_hit(value: Option<&str>, decoded: bool) -> (r: bool)
    ensures
        r == (value matches Some(v) && v@.len() > 0 && decoded),
{
    match value {
        Some(v) => v.unicode_len() > 0 && decoded,
        None => false,
    }
}

/// The next phase and actions of a refill session; an event that does not
/// fit the phase changes nothing.
pub open spec fn cache_next(phase: CachePhase, ev: CacheEvent) -> (CachePhase, Seq<CacheAction>) {
    match (phase, ev) {
        (CachePhase::Start, CacheEvent::Begin) => (CachePhase::FirstProbe, seq![CacheAction::ReadCache]),
        (CachePhase::FirstProbe, CacheEvent::Probed(true)) => (
            CachePhase::Done,
            seq![CacheAction::ReturnCached],
        ),
        (CachePhase::FirstProbe, CacheEvent::Probed(false)) => (
            CachePhase::AwaitLock,
            seq![CacheAction::AcquireLock],
        ),
        (CachePhase::AwaitLock, CacheEvent::Locked) => (
            CachePhase::SecondProbe,
            seq![CacheAction::ReadCache],
        ),
        (CachePhase::SecondProbe, CacheEvent::Probed(true)) => (
            CachePhase::Done,
            seq![CacheAction::ReleaseLock, CacheAction::ReturnCached],
        ),
        (CachePhase::SecondProbe, CacheEvent::Probed(false)) => (
            CachePhase::AwaitQuery,
            seq![CacheAction::QueryBackingStore],
        ),
        (CachePhase::AwaitQuery, CacheEvent::Queried(true)) => (
            CachePhase::Done,
            seq![
                CacheAction::WriteCache(CACHE_TTL_SECS),
                CacheAction::ReleaseLock,
                CacheAction::ReturnFetched,
            ],
        ),
        (CachePhase::AwaitQuery, CacheEvent::Queried(false)) => (
            CachePhase::Done,
            seq![CacheAction::ReleaseLock, CacheAction::Fail],
        ),
        _ => (phase, Seq::empty()),
    }
}

/// One refill session of one reference set.
pub struct CacheRefill {
    pub kind: CacheKind,
    pub phase: CachePhase,
}

impl CacheRefill {
    pub fn new(kind: CacheKind) -> (r: CacheRefill)
        ensures
            r.kind == kind && r.phase == CachePhase::Start,
    {
        CacheRefill { kind, phase: CachePhase::Start }
    }

    pub fn step(&mut self, ev: CacheEvent) -> (r: Vec<CacheAction>)
        ensures
            (final(self).phase, r@) == cache_next(old(self).phase, ev),
            final(self).kind == old(self).kind,
    {
        let (next, actions): (CachePhase, Vec<CacheAction>) = match (self.phase, ev) {
            (CachePhase::Start, CacheEvent::Begin) => (CachePhase::FirstProbe, vec![CacheAction::ReadCache]),
            (CachePhase::FirstProbe, CacheEvent::Probed(true)) => (
                CachePhase::Done,
                vec![CacheAction::ReturnCached],
            ),
            (CachePhase::FirstProbe, CacheEvent::Probed(false)) => (
                CachePhase::AwaitLock,
                vec![CacheAction::AcquireLock],
            ),
            (CachePhase::AwaitLock, CacheEvent::Locked) => (
                CachePhase::SecondProbe,
                vec![CacheAction::ReadCache],
            ),
            (CachePhase::SecondProbe, CacheEvent::Probed(true)) => (
                CachePhase::Done,
                vec![CacheAction::ReleaseLock, CacheAction::ReturnCached],
            ),
            (CachePhase::SecondProbe, CacheEvent::Probed(false)) => (
                CachePhase::AwaitQuery,
                vec![CacheAction::QueryBackingStore],
            ),
            (CachePhase::AwaitQuery, CacheEvent::Queried(true)) => (
                CachePhase::Done,
                vec![
                    CacheAction::WriteCache(CACHE_TTL_SECS),
                    CacheAction::ReleaseLock,
                    CacheAction::ReturnFetched,
                ],
            ),
            (CachePhase::AwaitQuery, CacheEvent::Queried(false)) => (
                CachePhase::Done,
                vec![CacheAction::ReleaseLock, CacheAction::Fail],
            ),
            _ => (self.phase, Vec::new()),
        };
        proof {
            assert(actions@ =~= cache_next(old(self).phase, ev).1);
        }
        self.phase = next;
        actions
    }
}

/// Single flight: the backing store is queried only in a session that has
/// taken the lock and found the store empty a second time.
pub proof fn lemma_query_only_after_second_miss(phase: CachePhase, ev: CacheEvent)
    ensures
        cache_next(phase, ev).1.contains(CacheAction::QueryBackingStore) ==> phase
            == CachePhase::SecondProbe && ev == CacheEvent::Probed(false),
{
    let acts = cache_next(phase, ev).1;
    if acts.contains(CacheAction::QueryBackingStore) {
        let i = choose|i: int| 0 <= i < acts.len() && acts[i] == CacheAction::QueryBackingStore;
        assert(acts[i] == CacheAction::QueryBackingStore);
    }
}

} // verus!
