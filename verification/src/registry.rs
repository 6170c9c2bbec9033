//! The registry of live subscribers: who is connected, under which identifier, and
//! the bounded queue that feeds each one's transport.

use tokio::sync::mpsc::error::TrySendError;
use tokio::sync::mpsc::{Receiver, Sender};
use vstd::prelude::*;
use vstd::set_lib::lemma_len_subset;

verus! {

/// Number of frames a subscriber's queue holds; a frame offered to a full queue is
/// dropped.
pub const OUTBOUND_CAPACITY: usize = 100;

/// The sending end of a bounded queue of `tokio::sync::mpsc`.
#[verifier::external_type_specification]
#[verifier::external_body]
#[verifier::reject_recursive_types(T)]
pub struct ExSender<T>(Sender<T>);

/// The receiving end of a bounded queue of `tokio::sync::mpsc`.
#[verifier::external_type_specification]
#[verifier::external_body]
#[verifier::reject_recursive_types(T)]
pub struct ExReceiver<T>(Receiver<T>);

/// The number of frames that the queue behind `outbound` was made to hold.
pub uninterp spec fn queue_limit(outbound: Sender<String>) -> nat;

/// Identifier of a subscriber, unique among the entries of one registry.
#[derive(Clone, Copy, Debug, PartialEq, Eq, Hash)]
pub struct SubscriberId(pub u128);

/// One registered subscriber.
pub struct Subscriber {
    pub id: SubscriberId,
    pub outbound: Sender<String>,
}

/// What became of one frame offered to one subscriber's queue.
#[derive(Clone, Copy, Debug, PartialEq, Eq)]
pub enum Outcome {
    /// The frame is in the queue.
    Queued,
    /// The queue was full; the frame was dropped.
    Full,
    /// The receiving end is gone; the frame was dropped.
    Closed,
}

/// The outcome of one broadcast for one subscriber.
#[derive(Clone, Copy, Debug, PartialEq, Eq)]
pub struct Delivery {
    pub id: SubscriberId,
    pub outcome: Outcome,
}

/// A fresh registration: the identifier and the receiving end of the queue.
pub struct Subscription {
    pub id: SubscriberId,
    pub inbox: Receiver<String>,
}

/// The subscribers of a relay, in the order in which they registered.
pub struct Registry {
    entries: Vec<Subscriber>,
}

/// No identifier occurs twice.
pub open spec fn distinct_ids(s: Seq<Subscriber>) -> bool {
    forall|i: int, j: int| 0 <= i < j < s.len() ==> (#[trigger] s[i]).id != (#[trigger] s[j]).id
}

/// Some entry of `s` has the identifier `id`.
pub open spec fn has_id(s: Seq<Subscriber>, id: SubscriberId) -> bool {
    exists|i: int| 0 <= i < s.len() && (#[trigger] s[i]).id == id
}

/// `report` has one entry for each subscriber of `s`, in the order of `s`, under the
/// subscriber's identifier.
pub open spec fn covers(report: Seq<Delivery>, s: Seq<Subscriber>) -> bool {
    &&& report.len() == s.len()
    &&& forall|i: int| 0 <= i < report.len() ==> (#[trigger] report[i]).id == s[i].id
}

/// The number of entries of `report` for the subscriber `id`.
pub open spec fn offers_to(report: Seq<Delivery>, id: SubscriberId) -> nat
    decreases report.len(),
{
    if report.len() == 0 {
        0
    } else if report.last().id == id {
        offers_to(report.drop_last(), id) + 1
    } else {
        offers_to(report.drop_last(), id)
    }
}

/// `s` without the entries that carry `id`, the others in their order.
pub open spec fn without(s: Seq<Subscriber>, id: SubscriberId) -> Seq<Subscriber>
    decreases s.len(),
{
    if s.len() == 0 {
        s
    } else if s.last().id == id {
        without(s.drop_last(), id)
    } else {
        without(s.drop_last(), id).push(s.last())
    }
}

/// The `k`-th identifier tried for a registration that starts from `candidate`: the
/// candidate itself, then its successors, wrapping round at the top of the range.
pub open spec fn probe(candidate: u128, k: nat) -> SubscriberId {
    SubscriberId(((candidate + k) % (u128::MAX + 1)) as u128)
}

/// `id` is the first identifier of the probe sequence of `candidate` that `s` does not
/// hold.
pub open spec fn first_free(s: Seq<Subscriber>, candidate: u128, id: SubscriberId) -> bool {
    exists|k: nat|
        {
            &&& k <= s.len()
            &&& id == #[trigger] probe(candidate, k)
            &&& !has_id(s, id)
            &&& forall|j: nat| j < k ==> has_id(s, #[trigger] probe(candidate, j))
        }
}

/// The set of the first `m` identifiers of a probe sequence.
spec fn probes(candidate: u128, m: nat) -> Set<SubscriberId>
    decreases m,
{
    if m == 0 {
        Set::empty()
    } else {
        probes(candidate, (m - 1) as nat).insert(probe(candidate, (m - 1) as nat))
    }
}

/// The first `m` identifiers of a probe sequence are `m` different ones.
proof fn lemma_probes(candidate: u128, m: nat)
    requires
        m <= 0x1_0000_0000_0000_0000,
    ensures
        probes(candidate, m).finite(),
        probes(candidate, m).len() == m,
        forall|v: SubscriberId| #[trigger]
            probes(candidate, m).contains(v) ==> exists|j: nat| j < m && v == probe(candidate, j),
    decreases m,
{
    if m > 0 {
        let prev = (m - 1) as nat;
        lemma_probes(candidate, prev);
        let last = probe(candidate, prev);
        if probes(candidate, prev).contains(last) {
            let j = choose|j: nat| j < prev && last == probe(candidate, j);
            assert(false);
        }
        assert forall|v: SubscriberId| #[trigger]
            probes(candidate, m).contains(v) implies exists|j: nat|
            j < m && v == probe(candidate, j) by {
            if v == last {
                assert(prev < m && v == probe(candidate, prev));
            } else {
                let j = choose|j: nat| j < prev && v == probe(candidate, j);
                assert(j < m && v == probe(candidate, j));
            }
        }
    }
}

/// The identifiers of `s`, as a set.
spec fn id_set(s: Seq<Subscriber>) -> Set<SubscriberId> {
    s.map_values(|e: Subscriber| e.id).to_set()
}

/// A registry cannot hold more distinct probes than it has entries.
proof fn lemma_probes_fit(s: Seq<Subscriber>, candidate: u128, m: nat)
    requires
        m <= 0x1_0000_0000_0000_0000,
        forall|j: nat| j < m ==> has_id(s, #[trigger] probe(candidate, j)),
    ensures
        m <= s.len(),
{
    let ids = s.map_values(|e: Subscriber| e.id);
    lemma_probes(candidate, m);
    assert forall|v: SubscriberId| probes(candidate, m).contains(v) implies id_set(s).contains(
        v,
    ) by {
        let j = choose|j: nat| j < m && v == probe(candidate, j);
        assert(has_id(s, probe(candidate, j)));
        let i = choose|i: int| 0 <= i < s.len() && (#[trigger] s[i]).id == v;
        assert(ids[i] == v);
    }
    ids.lemma_cardinality_of_set();
    lemma_len_subset(probes(candidate, m), id_set(s));
}

/// A broadcast makes exactly one offer to each registered subscriber, and none to
/// anybody else: the report of a broadcast over a registry with distinct identifiers
/// holds one entry for each identifier of the registry.
pub proof fn lemma_one_offer_each(report: Seq<Delivery>, s: Seq<Subscriber>, id: SubscriberId)
    requires
        distinct_ids(s),
        covers(report, s),
    ensures
        has_id(s, id) ==> offers_to(report, id) == 1,
        !has_id(s, id) ==> offers_to(report, id) == 0,
    decreases report.len(),
{
    if report.len() > 0 {
        let shorter = report.drop_last();
        let rest = s.drop_last();
        let last = s.len() - 1;
        assert(report[last].id == s[last].id);
        assert forall|i: int| 0 <= i < shorter.len() implies (#[trigger] shorter[i]).id
            == rest[i].id by {
            assert(shorter[i] == report[i]);
        }
        assert forall|i: int, j: int| 0 <= i < j < rest.len() implies (#[trigger] rest[i]).id != (
        #[trigger] rest[j]).id by {
            assert(rest[i] == s[i] && rest[j] == s[j]);
        }
        lemma_one_offer_each(shorter, rest, id);
        if s[last].id == id {
            if has_id(rest, id) {
                let i = choose|i: int| 0 <= i < rest.len() && (#[trigger] rest[i]).id == id;
                assert(rest[i] == s[i]);
                assert(s[i].id != s[last].id);
            }
        } else {
            if has_id(s, id) {
                let i = choose|i: int| 0 <= i < s.len() && (#[trigger] s[i]).id == id;
                assert(rest[i] == s[i]);
            }
            if has_id(rest, id) {
                let i = choose|i: int| 0 <= i < rest.len() && (#[trigger] rest[i]).id == id;
                assert(rest[i] == s[i]);
            }
        }
    } else {
        assert(!has_id(s, id));
    }
}

/// Removing an identifier that no entry carries changes nothing.
pub proof fn lemma_without_absent(s: Seq<Subscriber>, id: SubscriberId)
    requires
        !has_id(s, id),
    ensures
        without(s, id) == s,
    decreases s.len(),
{
    if s.len() > 0 {
        assert(s[s.len() - 1].id != id);
        let rest = s.drop_last();
        assert forall|i: int| 0 <= i < rest.len() implies (#[trigger] rest[i]).id != id by {
            assert(rest[i] == s[i]);
        }
        lemma_without_absent(rest, id);
        assert(rest.push(s.last()) =~= s);
    }
}

/// After a removal no entry carries the identifier.
pub proof fn lemma_without_clears(s: Seq<Subscriber>, id: SubscriberId)
    ensures
        !has_id(without(s, id), id),
    decreases s.len(),
{
    if s.len() > 0 {
        let rest = s.drop_last();
        lemma_without_clears(rest, id);
        let w = without(s, id);
        if has_id(w, id) {
            let i = choose|i: int| 0 <= i < w.len() && (#[trigger] w[i]).id == id;
            if i < without(rest, id).len() {
                assert(w[i] == without(rest, id)[i]);
            }
        }
    }
}

/// In a registry with distinct identifiers, removing the identifier of the entry at
/// `at` takes out that entry and no other.
proof fn lemma_without_at(s: Seq<Subscriber>, at: int)
    requires
        distinct_ids(s),
        0 <= at < s.len(),
    ensures
        without(s, s[at].id) == s.remove(at),
    decreases s.len(),
{
    let id = s[at].id;
    let rest = s.drop_last();
    if at == s.len() - 1 {
        assert forall|i: int| 0 <= i < rest.len() implies (#[trigger] rest[i]).id != id by {
            assert(rest[i] == s[i]);
        }
        lemma_without_absent(rest, id);
        assert(s.remove(at) =~= rest);
    } else {
        assert(rest[at] == s[at]);
        assert(distinct_ids(rest)) by {
            assert forall|i: int, j: int| 0 <= i < j < rest.len() implies (#[trigger] rest[i]).id
                != (#[trigger] rest[j]).id by {
                assert(rest[i] == s[i] && rest[j] == s[j]);
            }
        }
        lemma_without_at(rest, at);
        assert(s[s.len() - 1].id != id);
        assert(rest.remove(at).push(s.last()) =~= s.remove(at));
    }
}

/// Removal is idempotent: a second removal of the same identifier changes nothing, and
/// neither does the removal of an identifier that was never registered.
pub proof fn lemma_remove_idempotent(s: Seq<Subscriber>, id: SubscriberId)
    ensures
        without(without(s, id), id) == without(s, id),
        !has_id(s, id) ==> without(s, id) == s,
{
    lemma_without_clears(s, id);
    lemma_without_absent(without(s, id), id);
    if !has_id(s, id) {
        lemma_without_absent(s, id);
    }
}

/// Makes a bounded queue with `tokio::sync::mpsc::channel`, which panics on a capacity
/// of zero or above its semaphore's limit; the sending end keeps the capacity it was
/// made with.
#[verifier::external_body]
fn open_queue(capacity: usize) -> (ends: (Sender<String>, Receiver<String>))
    requires
        0 < capacity <= usize::MAX / 8,
    ensures
        queue_limit(ends.0) == capacity,
{
    tokio::sync::mpsc::channel(capacity)
}

/// Offers a frame to a queue with `Sender::try_send`, which never waits: the frame is
/// queued, or it is dropped because the queue is full or its receiving end is gone.
/// Which of the three happens depends on what the receiving side has done so far.
#[verifier::external_body]
fn offer(outbound: &Sender<String>, frame: String) -> (outcome: Outcome) {
    match outbound.try_send(frame) {
        Ok(()) => Outcome::Queued,
        Err(TrySendError::Full(_)) => Outcome::Full,
        Err(TrySendError::Closed(_)) => Outcome::Closed,
    }
}

/// Draws a random identifier with `uuid::Uuid::new_v4`, which takes its bits from
/// the operating system. Nothing is promised of the value: it may collide with one
/// that is in use.
#[verifier::external_body]
fn random_candidate() -> (candidate: u128) {
    uuid::Uuid::new_v4().as_u128()
}

impl View for Registry {
    type V = Seq<Subscriber>;

    /// The entries, in registration order.
    closed spec fn view(&self) -> Seq<Subscriber> {
        self.entries@
    }
}

impl Registry {
    /// The identifiers of a registry are distinct.
    #[verifier::type_invariant]
    spec fn inv(self) -> bool {
        distinct_ids(self.entries@)
    }

    /// A registry without subscribers.
    pub fn new() -> (r: Registry)
        ensures
            r@.len() == 0,
    {
        Registry { entries: Vec::new() }
    }

    /// The number of subscribers, whose identifiers are distinct.
    pub fn len(&self) -> (n: usize)
        ensures
            n == self@.len(),
            distinct_ids(self@),
    {
        proof {
            use_type_invariant(self);
        }
        self.entries.len()
    }

    /// Takes the entries out of the registry, which is left empty.
    fn take_entries(&mut self) -> (entries: Vec<Subscriber>)
        ensures
            entries@ == old(self)@,
            distinct_ids(entries@),
            final(self)@.len() == 0,
    {
        proof {
            use_type_invariant(&*self);
        }
        let mut taken = Registry::new();
        core::mem::swap(self, &mut taken);
        let Registry { entries } = taken;
        entries
    }

    /// The position of the entry that carries `id`.
    fn position(&self, id: SubscriberId) -> (at: Option<usize>)
        ensures
            at matches Some(i) ==> i < self@.len() && self@[i as int].id == id,
            at is None ==> !has_id(self@, id),
    {
        let mut i: usize = 0;
        while i < self.entries.len()
            invariant
                i <= self.entries@.len(),
                forall|j: int| 0 <= j < i ==> (#[trigger] self.entries@[j]).id != id,
            decreases self.entries@.len() - i,
        {
            if self.entries[i].id.0 == id.0 {
                return Some(i);
            }
            i = i + 1;
        }
        None
    }

    /// Whether `id` is registered.
    pub fn contains(&self, id: SubscriberId) -> (b: bool)
        ensures
            b == has_id(self@, id),
    {
        self.position(id).is_some()
    }

    /// The identifiers of the subscribers, in registration order.
    pub fn ids(&self) -> (ids: Vec<SubscriberId>)
        ensures
            ids@.len() == self@.len(),
            forall|i: int| 0 <= i < ids@.len() ==> ids@[i] == (#[trigger] self@[i]).id,
    {
        let mut ids: Vec<SubscriberId> = Vec::new();
        let mut i: usize = 0;
        while i < self.entries.len()
            invariant
                i <= self.entries@.len(),
                ids@.len() == i,
                forall|j: int| 0 <= j < i ==> ids@[j] == (#[trigger] self.entries@[j]).id,
            decreases self.entries@.len() - i,
        {
            ids.push(self.entries[i].id);
            i = i + 1;
        }
        ids
    }

    /// Registers `outbound` under the first identifier of the probe sequence of
    /// `candidate` that is not in use, and returns that identifier.
    pub fn register_with(&mut self, candidate: u128, outbound: Sender<String>) -> (id:
        SubscriberId)
        ensures
            first_free(old(self)@, candidate, id),
            !has_id(old(self)@, SubscriberId(candidate)) ==> id == SubscriberId(candidate),
            !has_id(old(self)@, id),
            final(self)@ == old(self)@.push((Subscriber { id, outbound })),
            distinct_ids(final(self)@),
    {
        proof {
            use_type_invariant(&*self);
        }
        let mut id = SubscriberId(candidate);
        let mut k: usize = 0;
        let ghost s = self.entries@;
        assert(s.len() == self.entries.len());
        loop
            invariant_except_break
                self.entries@ == s,
                s.len() <= usize::MAX,
                k <= s.len(),
                id == probe(candidate, k as nat),
                forall|j: nat| j < k ==> has_id(s, #[trigger] probe(candidate, j)),
            ensures
                self.entries@ == s,
                k <= s.len(),
                id == probe(candidate, k as nat),
                forall|j: nat| j < k ==> has_id(s, #[trigger] probe(candidate, j)),
                !has_id(s, id),
            decreases s.len() - k,
        {
            if !self.contains(id) {
                break;
            }
            proof {
                assert forall|j: nat| j < k + 1 implies has_id(s, #[trigger] probe(candidate, j)) by {
                    if j == k {
                    }
                }
                lemma_probes_fit(s, candidate, (k + 1) as nat);
            }
            id = SubscriberId(id.0.wrapping_add(1));
            k = k + 1;
        }
        proof {
            assert(first_free(s, candidate, id)) by {
                assert(id == probe(candidate, k as nat));
            }
            if !has_id(s, SubscriberId(candidate)) {
                assert(probe(candidate, 0) == SubscriberId(candidate));
                if k > 0 {
                    assert(has_id(s, probe(candidate, 0)));
                }
            }
            let grown = s.push(Subscriber { id, outbound });
            assert forall|i: int, j: int| 0 <= i < j < grown.len() implies (#[trigger] grown[i]).id
                != (#[trigger] grown[j]).id by {
                if j < s.len() {
                    assert(grown[i] == s[i] && grown[j] == s[j]);
                } else {
                    assert(grown[i] == s[i]);
                }
            }
        }
        let mut entries = self.take_entries();
        entries.push(Subscriber { id, outbound });
        *self = Registry { entries };
        id
    }

    /// Registers `outbound` under a fresh identifier and returns it. The identifier is
    /// drawn at random; should the draw be in use, the first free successor is taken.
    pub fn register(&mut self, outbound: Sender<String>) -> (id: SubscriberId)
        ensures
            !has_id(old(self)@, id),
            final(self)@ == old(self)@.push((Subscriber { id, outbound })),
            distinct_ids(final(self)@),
    {
        let candidate = random_candidate();
        self.register_with(candidate, outbound)
    }

    /// Opens a queue of `OUTBOUND_CAPACITY` frames, registers its sending end under a
    /// fresh identifier, and hands the identifier and the receiving end to the caller.
    pub fn subscribe(&mut self) -> (subscription: Subscription)
        ensures
            !has_id(old(self)@, subscription.id),
            final(self)@.len() == old(self)@.len() + 1,
            final(self)@.drop_last() == old(self)@,
            final(self)@.last().id == subscription.id,
            queue_limit(final(self)@.last().outbound) == OUTBOUND_CAPACITY,
            distinct_ids(final(self)@),
    {
        let (outbound, inbox) = open_queue(OUTBOUND_CAPACITY);
        let id = self.register(outbound);
        assert(self@.drop_last() =~= old(self)@);
        Subscription { id, inbox }
    }

    /// Removes the subscriber `id`, and says whether there was one. Removing an
    /// identifier that is not registered changes nothing.
    pub fn remove(&mut self, id: SubscriberId) -> (removed: bool)
        ensures
            removed == has_id(old(self)@, id),
            final(self)@ == without(old(self)@, id),
            !has_id(final(self)@, id),
            distinct_ids(final(self)@),
    {
        proof {
            use_type_invariant(&*self);
            lemma_without_clears(self@, id);
        }
        match self.position(id) {
            Some(at) => {
                proof {
                    lemma_without_at(self@, at as int);
                    let s = self@;
                    let r = s.remove(at as int);
                    assert forall|i: int, j: int| 0 <= i < j < r.len() implies (#[trigger] r[i]).id
                        != (#[trigger] r[j]).id by {
                        let a = if i < at { i } else { i + 1 };
                        let b = if j < at { j } else { j + 1 };
                        assert(r[i] == s[a] && r[j] == s[b]);
                    }
                }
                let mut entries = self.take_entries();
                let _ = entries.remove(at);
                *self = Registry { entries };
                true
            },
            None => {
                proof {
                    lemma_without_absent(self@, id);
                }
                false
            },
        }
    }

    /// Offers `frame` once to the queue of every subscriber, in registration order, and
    /// reports what became of each offer. A queue that is full or closed loses this
    /// frame only: the offers to the other subscribers are made all the same, and no
    /// subscriber is removed. The report names every subscriber, and none twice.
    pub fn broadcast(&self, frame: &str) -> (report: Vec<Delivery>)
        ensures
            covers(report@, self@),
            forall|i: int, j: int|
                0 <= i < j < report@.len() ==> (#[trigger] report@[i]).id != (
                #[trigger] report@[j]).id,
    {
        proof {
            use_type_invariant(self);
        }
        let mut report: Vec<Delivery> = Vec::new();
        let mut i: usize = 0;
        while i < self.entries.len()
            invariant
                i <= self.entries@.len(),
                report@.len() == i,
                forall|j: int| 0 <= j < i ==> (#[trigger] report@[j]).id == self.entries@[j].id,
            decreases self.entries@.len() - i,
        {
            let outcome = offer(&self.entries[i].outbound, frame.to_owned());
            report.push(Delivery { id: self.entries[i].id, outcome });
            i = i + 1;
        }
        assert forall|i: int, j: int| 0 <= i < j < report@.len() implies (#[trigger] report@[i]).id
            != (#[trigger] report@[j]).id by {
            assert(self@[i].id != self@[j].id);
        }
        report
    }
}

} // verus!
