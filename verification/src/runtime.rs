//! A verified model of the runtime objects the native-bridge emitter
//! generates: the per-object listener registry, the bounded worker pool,
//! and the process-wide signal-dispatch registry. The emitters render
//! these as C++ text; this model states and proves the behaviour that
//! text is written to have, and lets tests drive isolated registries
//! instead of sharing process-wide state.

use vstd::prelude::*;

verus! {

/// One listener subscription: the signal it listens to, its id, and an
/// opaque callback token.
pub struct Listener {
    pub signal: String,
    pub id: u64,
    pub callback: u64,
}

/// The listener registry of one native object: (signal, listener id,
/// callback) entries, with monotonically increasing ids.
pub struct ListenerRegistry {
    pub entries: Vec<Listener>,
    pub next_id: u64,
}

/// Well-formed: every entry's id was allotted below the next free id,
/// and ids are unique.
pub open spec fn registry_wf(r: ListenerRegistry) -> bool {
    &&& forall|i: int| 0 <= i < r.entries@.len() ==> (#[trigger] r.entries@[i].id) < r.next_id
    &&& forall|i: int, j: int|
        0 <= i < j < r.entries@.len() ==> (#[trigger] r.entries@[i].id) != (
        #[trigger] r.entries@[j].id)
}

/// The ids subscribed to one signal, in subscription order.
pub open spec fn spec_listeners_of(entries: Seq<Listener>, signal: Seq<char>) -> Seq<u64>
    decreases entries.len(),
{
    if entries.len() == 0 {
        Seq::empty()
    } else {
        let rest = spec_listeners_of(entries.drop_first(), signal);
        if entries[0].signal@ == signal {
            seq![entries[0].id] + rest
        } else {
            rest
        }
    }
}

/// The entries left after removing one listener id.
pub open spec fn spec_without_id(entries: Seq<Listener>, id: u64) -> Seq<Listener>
    decreases entries.len(),
{
    if entries.len() == 0 {
        Seq::empty()
    } else {
        let rest = spec_without_id(entries.drop_first(), id);
        if entries[0].id != id {
            seq![entries[0]] + rest
        } else {
            rest
        }
    }
}

pub proof fn lemma_without_id_push(s: Seq<Listener>, x: Listener, id: u64)
    ensures
        spec_without_id(s.push(x), id) == if x.id != id {
            spec_without_id(s, id).push(x)
        } else {
            spec_without_id(s, id)
        },
    decreases s.len(),
{
    if s.len() == 0 {
        assert(s.push(x)[0] == x);
        assert(s.push(x).drop_first() =~= Seq::<Listener>::empty());
        assert(spec_without_id(Seq::<Listener>::empty(), id) == Seq::<Listener>::empty());
        if x.id != id {
            assert(seq![x] + Seq::<Listener>::empty() =~= Seq::<Listener>::empty().push(x));
        }
    } else {
        assert(s.push(x)[0] == s[0]);
        assert(s.push(x).drop_first() =~= s.drop_first().push(x));
        lemma_without_id_push(s.drop_first(), x, id);
        if s[0].id != id && x.id != id {
            assert(seq![s[0]] + spec_without_id(s.drop_first(), id).push(x) =~= (seq![s[0]]
                + spec_without_id(s.drop_first(), id)).push(x));
        }
    }
}

/// What survives a removal: every kept entry is one of the original
/// entries, none carries the removed id, and the order and uniqueness of
/// ids are preserved.
pub proof fn lemma_without_id_props(entries: Seq<Listener>, id: u64)
    ensures
        forall|k: int|
            0 <= k < spec_without_id(entries, id).len() ==> (#[trigger] spec_without_id(
                entries,
                id,
            )[k].id) != id,
        forall|k: int|
            0 <= k < spec_without_id(entries, id).len() ==> exists|j: int|
                0 <= j < entries.len() && #[trigger] spec_without_id(entries, id)[k]
                    == entries[j],
    decreases entries.len(),
{
    let r = spec_without_id(entries, id);
    if entries.len() == 0 {
    } else {
        lemma_without_id_props(entries.drop_first(), id);
        let rest = spec_without_id(entries.drop_first(), id);
        assert forall|k: int| 0 <= k < r.len() implies exists|j: int|
            0 <= j < entries.len() && #[trigger] r[k] == entries[j] by {
            if entries[0].id != id {
                if k == 0 {
                    assert(r[0] == entries[0]);
                } else {
                    assert(r[k] == rest[k - 1]);
                    let j0 = choose|j0: int|
                        0 <= j0 < entries.drop_first().len() && rest[k - 1]
                            == entries.drop_first()[j0];
                    assert(r[k] == entries[j0 + 1]);
                }
            } else {
                assert(r[k] == rest[k]);
                let j0 = choose|j0: int|
                    0 <= j0 < entries.drop_first().len() && rest[k] == entries.drop_first()[j0];
                assert(r[k] == entries[j0 + 1]);
            }
        }
    }
}

/// Removal keeps ids unique and below any bound they were below.
pub proof fn lemma_without_id_wf(entries: Seq<Listener>, id: u64, next: u64)
    requires
        forall|i: int| 0 <= i < entries.len() ==> (#[trigger] entries[i].id) < next,
        forall|i: int, j: int|
            0 <= i < j < entries.len() ==> (#[trigger] entries[i].id) != (
            #[trigger] entries[j].id),
    ensures
        forall|k: int|
            0 <= k < spec_without_id(entries, id).len() ==> (#[trigger] spec_without_id(
                entries,
                id,
            )[k].id) < next,
        forall|k: int, m: int|
            0 <= k < m < spec_without_id(entries, id).len() ==> (#[trigger] spec_without_id(
                entries,
                id,
            )[k].id) != (#[trigger] spec_without_id(entries, id)[m].id),
    decreases entries.len(),
{
    let r = spec_without_id(entries, id);
    if entries.len() > 0 {
        let tail = entries.drop_first();
        assert(forall|i: int| 0 <= i < tail.len() ==> (#[trigger] tail[i].id) < next);
        assert(forall|i: int, j: int|
            0 <= i < j < tail.len() ==> (#[trigger] tail[i].id) != (#[trigger] tail[j].id));
        lemma_without_id_wf(tail, id, next);
        lemma_without_id_props(tail, id);
        let rest = spec_without_id(tail, id);
        assert forall|k: int| 0 <= k < r.len() implies (#[trigger] r[k].id) < next by {
            if entries[0].id != id && k == 0 {
            } else {
                let k0 = if entries[0].id != id {
                    k - 1
                } else {
                    k
                };
                assert(r[k] == rest[k0]);
            }
        }
        assert forall|k: int, m: int| 0 <= k < m < r.len() implies (#[trigger] r[k].id) != (
        #[trigger] r[m].id) by {
            if entries[0].id != id && k == 0 {
                assert(r[m] == rest[m - 1]);
                let j0 = choose|j0: int| 0 <= j0 < tail.len() && rest[m - 1] == tail[j0];
                assert(tail[j0] == entries[j0 + 1]);
                assert(entries[0].id != entries[j0 + 1].id);
            } else {
                let k0 = if entries[0].id != id {
                    k - 1
                } else {
                    k
                };
                let m0 = if entries[0].id != id {
                    m - 1
                } else {
                    m
                };
                assert(r[k] == rest[k0]);
                assert(r[m] == rest[m0]);
            }
        }
    }
}

/// Removing an id leaves no subscription under it, so removing it again
/// changes nothing.
pub proof fn lemma_unsubscribe_idempotent(entries: Seq<Listener>, id: u64)
    ensures
        spec_without_id(spec_without_id(entries, id), id) == spec_without_id(entries, id),
    decreases entries.len(),
{
    if entries.len() == 0 {
    } else {
        lemma_unsubscribe_idempotent(entries.drop_first(), id);
        let rest = spec_without_id(entries.drop_first(), id);
        if entries[0].id != id {
            let whole = seq![entries[0]] + rest;
            assert(whole[0] == entries[0]);
            assert(whole.drop_first() =~= rest);
            assert(spec_without_id(whole, id) == seq![entries[0]] + spec_without_id(rest, id));
        }
    }
}

impl ListenerRegistry {
    /// An empty registry.
    pub fn new() -> (r: ListenerRegistry)
        ensures
            registry_wf(r),
            r.entries@.len() == 0,
            r.next_id == 0,
    {
        ListenerRegistry { entries: Vec::new(), next_id: 0 }
    }

    /// Subscribe a callback to a signal: the listener is appended under a
    /// fresh id, strictly above every id handed out before.
    pub fn subscribe(&mut self, signal: String, callback: u64) -> (id: u64)
        requires
            registry_wf(*old(self)),
            old(self).next_id < u64::MAX,
        ensures
            registry_wf(*final(self)),
            id == old(self).next_id,
            final(self).next_id == old(self).next_id + 1,
            final(self).entries@ == old(self).entries@.push(Listener { signal, id, callback }),
            forall|i: int|
                0 <= i < old(self).entries@.len() ==> (#[trigger] old(self).entries@[i].id) != id,
    {
        let id = self.next_id;
        self.entries.push(Listener { signal, id, callback });
        self.next_id = self.next_id + 1;
        id
    }

    /// Unsubscribe one id: the entry under that id is removed and every
    /// other entry stays. Removing an absent id changes nothing, so the
    /// unsubscribe capability is idempotent.
    pub fn unsubscribe(&mut self, id: u64)
        requires
            registry_wf(*old(self)),
        ensures
            registry_wf(*final(self)),
            final(self).next_id == old(self).next_id,
            final(self).entries@ == spec_without_id(old(self).entries@, id),
    {
        let mut kept: Vec<Listener> = Vec::new();
        let mut i: usize = 0;
        while i < self.entries.len()
            invariant
                i <= self.entries@.len(),
                kept@ == spec_without_id(self.entries@.subrange(0, i as int), id),
            decreases self.entries@.len() - i,
        {
            if self.entries[i].id != id {
                let l = Listener {
                    signal: self.entries[i].signal.clone(),
                    id: self.entries[i].id,
                    callback: self.entries[i].callback,
                };
                proof {
                    assert(l == self.entries@[i as int]);
                }
                kept.push(l);
            }
            i = i + 1;
            proof {
                let prefix = self.entries@.subrange(0, i - 1 as int);
                assert(self.entries@.subrange(0, i as int) =~= prefix.push(
                    self.entries@[i - 1],
                ));
                lemma_without_id_push(prefix, self.entries@[i - 1], id);
            }
        }
        proof {
            assert(self.entries@.subrange(0, self.entries@.len() as int) =~= self.entries@);
        }
        self.entries = kept;
        proof {
            lemma_without_id_wf(old(self).entries@, id, old(self).next_id);
        }
    }

    /// Snapshot the listeners currently subscribed to one signal, as the
    /// emission path does under the lock before invoking outside it.
    pub fn snapshot(&self, signal: &str) -> (ids: Vec<u64>)
        ensures
            ids@ == spec_listeners_of(self.entries@, signal@),
    {
        let mut ids: Vec<u64> = Vec::new();
        let mut i: usize = 0;
        while i < self.entries.len()
            invariant
                i <= self.entries@.len(),
                ids@ == spec_listeners_of(self.entries@.subrange(0, i as int), signal@),
            decreases self.entries@.len() - i,
        {
            if string_eq(&self.entries[i].signal, signal) {
                ids.push(self.entries[i].id);
            }
            i = i + 1;
            proof {
                let prefix = self.entries@.subrange(0, i - 1 as int);
                assert(self.entries@.subrange(0, i as int) =~= prefix.push(
                    self.entries@[i - 1],
                ));
                lemma_listeners_push(prefix, self.entries@[i - 1], signal@);
            }
        }
        proof {
            assert(self.entries@.subrange(0, self.entries@.len() as int) =~= self.entries@);
        }
        ids
    }
}

pub proof fn lemma_listeners_push(s: Seq<Listener>, x: Listener, signal: Seq<char>)
    ensures
        spec_listeners_of(s.push(x), signal) == if x.signal@ == signal {
            spec_listeners_of(s, signal).push(x.id)
        } else {
            spec_listeners_of(s, signal)
        },
    decreases s.len(),
{
    if s.len() == 0 {
        assert(s.push(x)[0] == x);
        assert(s.push(x).drop_first() =~= Seq::<Listener>::empty());
        assert(spec_listeners_of(Seq::<Listener>::empty(), signal) == Seq::<u64>::empty());
        if x.signal@ == signal {
            assert(seq![x.id] + Seq::<u64>::empty() =~= Seq::<u64>::empty().push(x.id));
        }
    } else {
        assert(s.push(x)[0] == s[0]);
        assert(s.push(x).drop_first() =~= s.drop_first().push(x));
        lemma_listeners_push(s.drop_first(), x, signal);
        if s[0].signal@ == signal && x.signal@ == signal {
            assert(seq![s[0].id] + spec_listeners_of(s.drop_first(), signal).push(x.id) =~= (seq![
                s[0].id,
            ] + spec_listeners_of(s.drop_first(), signal)).push(x.id));
        }
    }
}

/// String equality by characters.
fn string_eq(a: &String, b: &str) -> (r: bool)
    ensures
        r == (a@ == b@),
{
    let n: usize = vstd::string::StrSliceExecFns::unicode_len(a.as_str());
    let m: usize = vstd::string::StrSliceExecFns::unicode_len(b);
    if n != m {
        return false;
    }
    let mut i: usize = 0;
    while i < n
        invariant
            i <= n,
            n == a@.len(),
            n == b@.len(),
            forall|k: int| 0 <= k < i ==> a@[k] == b@[k],
        decreases n - i,
    {
        if vstd::string::StrSliceExecFns::get_char(a.as_str(), i)
            != vstd::string::StrSliceExecFns::get_char(b, i) {
            return false;
        }
        i = i + 1;
    }
    proof {
        assert(a@ =~= b@);
    }
    true
}

/// The bounded worker pool of one native object, modelled by its queue
/// and shutdown flag. Enqueue after shutdown is silently dropped;
/// shutdown drains the queue.
pub struct WorkerPool {
    pub capacity: usize,
    pub queue: Vec<u64>,
    pub stopped: bool,
}

impl WorkerPool {
    /// A fresh pool of the given worker count.
    pub fn new(capacity: usize) -> (r: WorkerPool)
        ensures
            r.capacity == capacity,
            r.queue@.len() == 0,
            !r.stopped,
    {
        WorkerPool { capacity, queue: Vec::new(), stopped: false }
    }

    /// Offer one task. After shutdown the task is silently dropped: no
    /// error, no panic, no queue growth.
    pub fn enqueue(&mut self, task: u64)
        ensures
            final(self).capacity == old(self).capacity,
            final(self).stopped == old(self).stopped,
            old(self).stopped ==> final(self).queue@ == old(self).queue@,
            !old(self).stopped ==> final(self).queue@ == old(self).queue@.push(task),
    {
        if self.stopped {
            return ;
        }
        self.queue.push(task);
    }

    /// Stop the pool: no further work is accepted and the queue is
    /// drained. The runtime counterpart also joins every worker before
    /// returning.
    pub fn shutdown(&mut self)
        ensures
            final(self).capacity == old(self).capacity,
            final(self).stopped,
            final(self).queue@.len() == 0,
    {
        self.stopped = true;
        self.queue.clear();
    }
}

/// One native object's lifecycle state: its identity, its pool, its
/// listener registry, and the invalidation flag that makes teardown
/// happen exactly once.
pub struct NativeObject {
    pub identity: u64,
    pub invalidated: bool,
    pub pool: WorkerPool,
    pub listeners: ListenerRegistry,
}

/// The default worker count of a native object's pool.
pub fn default_pool_capacity() -> (r: usize)
    ensures
        r == 10,
{
    10
}

impl NativeObject {
    /// Construct a fresh object with the default pool.
    pub fn new(identity: u64) -> (r: NativeObject)
        ensures
            r.identity == identity,
            !r.invalidated,
            r.pool.capacity == 10,
            r.pool.queue@.len() == 0,
            !r.pool.stopped,
            registry_wf(r.listeners),
            r.listeners.entries@.len() == 0,
    {
        NativeObject {
            identity,
            invalidated: false,
            pool: WorkerPool::new(default_pool_capacity()),
            listeners: ListenerRegistry::new(),
        }
    }

    /// Invalidate the object: on the first call the pool is shut down
    /// and the listeners are cleared; a repeated call changes nothing —
    /// teardown happens exactly once.
    pub fn invalidate(&mut self)
        ensures
            final(self).identity == old(self).identity,
            final(self).invalidated,
            old(self).invalidated ==> *final(self) == *old(self),
            !old(self).invalidated ==> {
                &&& final(self).pool.stopped
                &&& final(self).pool.queue@.len() == 0
                &&& final(self).listeners.entries@.len() == 0
                &&& final(self).listeners.next_id == old(self).listeners.next_id
            },
    {
        if self.invalidated {
            return ;
        }
        self.invalidated = true;
        self.pool.shutdown();
        self.listeners.entries.clear();
    }
}

/// The process-wide signal-dispatch registry, modelled as an explicit
/// object so tests can instantiate isolated registries: native-object
/// identities with a delegate token each. Registering an identity again
/// overwrites its delegate; unregistering an absent identity is a no-op.
pub struct SignalRegistry {
    pub delegates: Vec<(u64, u64)>,
}

pub open spec fn signal_registry_wf(r: SignalRegistry) -> bool {
    forall|i: int, j: int|
        0 <= i < j < r.delegates@.len() ==> (#[trigger] r.delegates@[i].0) != (
        #[trigger] r.delegates@[j].0)
}

/// The delegates left after removing one identity.
pub open spec fn spec_without_delegate(delegates: Seq<(u64, u64)>, identity: u64) -> Seq<
    (u64, u64),
>
    decreases delegates.len(),
{
    if delegates.len() == 0 {
        Seq::empty()
    } else {
        let rest = spec_without_delegate(delegates.drop_first(), identity);
        if delegates[0].0 != identity {
            seq![delegates[0]] + rest
        } else {
            rest
        }
    }
}

pub proof fn lemma_without_delegate_push(s: Seq<(u64, u64)>, x: (u64, u64), identity: u64)
    ensures
        spec_without_delegate(s.push(x), identity) == if x.0 != identity {
            spec_without_delegate(s, identity).push(x)
        } else {
            spec_without_delegate(s, identity)
        },
    decreases s.len(),
{
    if s.len() == 0 {
        assert(s.push(x)[0] == x);
        assert(s.push(x).drop_first() =~= Seq::<(u64, u64)>::empty());
        assert(spec_without_delegate(Seq::<(u64, u64)>::empty(), identity) == Seq::<
            (u64, u64),
        >::empty());
        if x.0 != identity {
            assert(seq![x] + Seq::<(u64, u64)>::empty() =~= Seq::<(u64, u64)>::empty().push(x));
        }
    } else {
        assert(s.push(x)[0] == s[0]);
        assert(s.push(x).drop_first() =~= s.drop_first().push(x));
        lemma_without_delegate_push(s.drop_first(), x, identity);
        if s[0].0 != identity && x.0 != identity {
            assert(seq![s[0]] + spec_without_delegate(s.drop_first(), identity).push(x) =~= (seq![
                s[0],
            ] + spec_without_delegate(s.drop_first(), identity)).push(x));
        }
    }
}

/// What survives an unregistration: no entry carries the identity, every
/// kept entry is one of the originals, and distinctness is preserved.
pub proof fn lemma_without_delegate_props(delegates: Seq<(u64, u64)>, identity: u64)
    ensures
        forall|k: int|
            0 <= k < spec_without_delegate(delegates, identity).len() ==> (
            #[trigger] spec_without_delegate(delegates, identity)[k].0) != identity,
        forall|k: int|
            0 <= k < spec_without_delegate(delegates, identity).len() ==> exists|j: int|
                0 <= j < delegates.len() && #[trigger] spec_without_delegate(
                    delegates,
                    identity,
                )[k] == delegates[j],
    decreases delegates.len(),
{
    let r = spec_without_delegate(delegates, identity);
    if delegates.len() == 0 {
    } else {
        lemma_without_delegate_props(delegates.drop_first(), identity);
        let rest = spec_without_delegate(delegates.drop_first(), identity);
        assert forall|k: int| 0 <= k < r.len() implies exists|j: int|
            0 <= j < delegates.len() && #[trigger] r[k] == delegates[j] by {
            if delegates[0].0 != identity {
                if k == 0 {
                    assert(r[0] == delegates[0]);
                } else {
                    assert(r[k] == rest[k - 1]);
                    let j0 = choose|j0: int|
                        0 <= j0 < delegates.drop_first().len() && rest[k - 1]
                            == delegates.drop_first()[j0];
                    assert(r[k] == delegates[j0 + 1]);
                }
            } else {
                assert(r[k] == rest[k]);
                let j0 = choose|j0: int|
                    0 <= j0 < delegates.drop_first().len() && rest[k]
                        == delegates.drop_first()[j0];
                assert(r[k] == delegates[j0 + 1]);
            }
        }
    }
}

/// Unregistration preserves distinct identities.
pub proof fn lemma_without_delegate_wf(delegates: Seq<(u64, u64)>, identity: u64)
    requires
        forall|i: int, j: int|
            0 <= i < j < delegates.len() ==> (#[trigger] delegates[i].0) != (
            #[trigger] delegates[j].0),
    ensures
        forall|k: int, m: int|
            0 <= k < m < spec_without_delegate(delegates, identity).len() ==> (
            #[trigger] spec_without_delegate(delegates, identity)[k].0) != (
            #[trigger] spec_without_delegate(delegates, identity)[m].0),
    decreases delegates.len(),
{
    let r = spec_without_delegate(delegates, identity);
    if delegates.len() > 0 {
        let tail = delegates.drop_first();
        assert(forall|i: int, j: int|
            0 <= i < j < tail.len() ==> (#[trigger] tail[i].0) != (#[trigger] tail[j].0));
        lemma_without_delegate_wf(tail, identity);
        lemma_without_delegate_props(tail, identity);
        let rest = spec_without_delegate(tail, identity);
        assert forall|k: int, m: int| 0 <= k < m < r.len() implies (#[trigger] r[k].0) != (
        #[trigger] r[m].0) by {
            if delegates[0].0 != identity && k == 0 {
                assert(r[m] == rest[m - 1]);
                let j0 = choose|j0: int| 0 <= j0 < tail.len() && rest[m - 1] == tail[j0];
                assert(tail[j0] == delegates[j0 + 1]);
                assert(delegates[0].0 != delegates[j0 + 1].0);
            } else {
                let k0 = if delegates[0].0 != identity {
                    k - 1
                } else {
                    k
                };
                let m0 = if delegates[0].0 != identity {
                    m - 1
                } else {
                    m
                };
                assert(r[k] == rest[k0]);
                assert(r[m] == rest[m0]);
            }
        }
    }
}

/// Unregistering an absent identity changes nothing.
pub proof fn lemma_unregister_absent(delegates: Seq<(u64, u64)>, identity: u64)
    requires
        forall|k: int| 0 <= k < delegates.len() ==> (#[trigger] delegates[k].0) != identity,
    ensures
        spec_without_delegate(delegates, identity) == delegates,
    decreases delegates.len(),
{
    if delegates.len() == 0 {
        assert(spec_without_delegate(delegates, identity) =~= delegates);
    } else {
        let tail = delegates.drop_first();
        assert(forall|k: int| 0 <= k < tail.len() ==> (#[trigger] tail[k].0) != identity);
        lemma_unregister_absent(tail, identity);
        assert(seq![delegates[0]] + tail =~= delegates);
    }
}

impl SignalRegistry {
    pub fn new() -> (r: SignalRegistry)
        ensures
            signal_registry_wf(r),
            r.delegates@.len() == 0,
    {
        SignalRegistry { delegates: Vec::new() }
    }

    /// Unregister an identity: its entry is removed, every other entry
    /// stays; an absent identity is a no-op.
    pub fn unregister(&mut self, identity: u64)
        requires
            signal_registry_wf(*old(self)),
        ensures
            signal_registry_wf(*final(self)),
            final(self).delegates@ == spec_without_delegate(old(self).delegates@, identity),
    {
        let mut kept: Vec<(u64, u64)> = Vec::new();
        let mut i: usize = 0;
        while i < self.delegates.len()
            invariant
                i <= self.delegates@.len(),
                kept@ == spec_without_delegate(self.delegates@.subrange(0, i as int), identity),
            decreases self.delegates@.len() - i,
        {
            if self.delegates[i].0 != identity {
                kept.push(self.delegates[i]);
            }
            i = i + 1;
            proof {
                let prefix = self.delegates@.subrange(0, i - 1 as int);
                assert(self.delegates@.subrange(0, i as int) =~= prefix.push(
                    self.delegates@[i - 1],
                ));
                lemma_without_delegate_push(prefix, self.delegates@[i - 1], identity);
            }
        }
        proof {
            assert(self.delegates@.subrange(0, self.delegates@.len() as int)
                =~= self.delegates@);
        }
        self.delegates = kept;
        proof {
            lemma_without_delegate_wf(old(self).delegates@, identity);
        }
    }

    /// Register a delegate under an identity, overwriting any previous
    /// delegate of the same identity: the old entry (if any) is removed
    /// and the new one appended.
    pub fn register(&mut self, identity: u64, delegate: u64)
        requires
            signal_registry_wf(*old(self)),
        ensures
            signal_registry_wf(*final(self)),
            final(self).delegates@ == spec_without_delegate(
                old(self).delegates@,
                identity,
            ).push((identity, delegate)),
    {
        self.unregister(identity);
        proof {
            lemma_without_delegate_props(old(self).delegates@, identity);
        }
        self.delegates.push((identity, delegate));
    }
}

} // verus!
