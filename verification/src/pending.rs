//! The table of calls that wait for a response.
//!
//! Each call that awaits a response leaves the sending half of a one-shot
//! channel in the table, under the identifier of its request. A response is
//! handed to the sender that has waited longest under its identifier.
//! Identifiers should be unique among the calls in flight; where they are
//! not, the calls are served in the order in which they began to wait.
//!
//! What the table holds is described by a map from identifiers to queues of
//! senders, oldest first. Every change to the table is stated as a change to
//! that map, so a table is changed through `&mut`; callers that share one
//! between tasks put it behind a lock of their own.

use vstd::prelude::*;
use dashmap::DashMap;
use futures::channel::oneshot::Canceled;
use futures::channel::oneshot::Receiver;
use futures::channel::oneshot::Sender;
use serde_json::Value;
use std::collections::hash_map::RandomState;
use crate::id::IdView;
use crate::id::ResponseId;
use crate::response::ResponseMessage;

verus! {

/// The concurrent map of the `dashmap` crate; nothing inside it is visible
/// to the proofs.
#[verifier::external_type_specification]
#[verifier::external_body]
#[verifier::reject_recursive_types(K)]
#[verifier::reject_recursive_types(V)]
#[verifier::reject_recursive_types(S)]
pub struct ExDashMap<K, V, S>(DashMap<K, V, S>);

/// The sending half of a one-shot channel of the `futures` crate; it is
/// stored and handed on, never looked into.
#[verifier::external_type_specification]
#[verifier::external_body]
#[verifier::reject_recursive_types(T)]
pub struct ExSender<T>(Sender<T>);

/// The receiving half of a one-shot channel of the `futures` crate; it is
/// handed to the caller, never looked into.
#[verifier::external_type_specification]
#[verifier::external_body]
#[verifier::reject_recursive_types(T)]
pub struct ExReceiver<T>(Receiver<T>);

/// The error with which a receiver of the `futures` crate reports that its
/// sender is gone.
#[verifier::external_type_specification]
#[verifier::external_body]
pub struct ExCanceled(Canceled);

/// A response whose payload has not been given a type yet.
pub type Response = ResponseMessage<Value>;

/// The handle of a call that waits: the sender that completes it.
pub type Waiter = Sender<Response>;

/// What a call that waits is given: the receiver that its response arrives
/// on.
pub type Awaited = Receiver<Response>;

/// The map that the table keeps its waiters in.
pub type WaiterMap = DashMap<ResponseId, Vec<Waiter>, RandomState>;

/// The queues that a map of waiters holds: for each identifier in it, the
/// senders stored under that identifier, in the order of the stored vector.
pub uninterp spec fn waiting(
    table: WaiterMap,
) -> Map<IdView, Seq<Waiter>>;

/// `DashMap::new`: the new map holds no entry.
#[verifier::external_body]
fn table_new() -> (table: WaiterMap)
    ensures
        waiting(table) =~= Map::empty(),
{
    DashMap::new()
}

/// `DashMap::remove`: the entry under `id`, if there is one, leaves the map
/// and is returned, stored key and stored vector; no other entry changes.
#[verifier::external_body]
fn table_remove(
    table: &mut WaiterMap,
    id: &ResponseId,
) -> (entry: Option<(ResponseId, Vec<Waiter>)>)
    ensures
        waiting(*final(table)) == waiting(*old(table)).remove(id@),
        match entry {
            Some(pair) => waiting(*old(table)).contains_key(id@) && pair.0@ == id@ && pair.1@
                == waiting(*old(table))[id@],
            None => !waiting(*old(table)).contains_key(id@),
        },
{
    table.remove(id)
}

/// `DashMap::insert`: afterwards the map holds `queue` under `id`, and no
/// other entry has changed. The vector that was stored under `id` before, if
/// there was one, is returned.
#[verifier::external_body]
fn table_insert(
    table: &mut WaiterMap,
    id: ResponseId,
    queue: Vec<Waiter>,
) -> (before: Option<Vec<Waiter>>)
    ensures
        waiting(*final(table)) == waiting(*old(table)).insert(id@, queue@),
        match before {
            Some(stored) => waiting(*old(table)).contains_key(id@) && stored@ == waiting(
                *old(table),
            )[id@],
            None => !waiting(*old(table)).contains_key(id@),
        },
{
    table.insert(id, queue)
}

/// `DashMap::iter`, each entry reduced to its identifier and the length of
/// its vector. Every entry of the map is listed once; the order in which
/// they come is not fixed.
#[verifier::external_body]
fn table_counts(
    table: &WaiterMap,
) -> (counts: Vec<(ResponseId, usize)>)
    ensures
        lists_counts(counts@, waiting(*table)),
{
    table.iter().map(|entry| (entry.key().clone(), entry.value().len())).collect()
}

/// `futures::channel::oneshot::channel`: a fresh pair of a sender and the
/// receiver that it completes.
#[verifier::external_body]
fn channel() -> (halves: (Waiter, Awaited)) {
    futures::channel::oneshot::channel()
}

/// `Sender::send`: hands `response` to the receiver of `waiter`. Where the
/// receiver was dropped before, the response comes back unchanged.
#[verifier::external_body]
fn send(waiter: Waiter, response: Response) -> (sent: Result<
    (),
    Response,
>)
    ensures
        sent matches Err(back) ==> back == response,
{
    waiter.send(response)
}

/// Whether `counts` lists every identifier of `table` exactly once, each
/// with the length of its queue, and nothing else.
pub open spec fn lists_counts<W>(
    counts: Seq<(ResponseId, usize)>,
    table: Map<IdView, Seq<W>>,
) -> bool {
    &&& forall|i: int|
        0 <= i < counts.len() ==> table.contains_key((#[trigger] counts[i]).0@) && counts[i].1
            == table[counts[i].0@].len()
    &&& forall|i: int, j: int|
        0 <= i < j < counts.len() ==> (#[trigger] counts[i]).0@ != (#[trigger] counts[j]).0@
    &&& forall|id: IdView| #[trigger]
        table.contains_key(id) ==> exists|i: int|
            0 <= i < counts.len() && (#[trigger] counts[i]).0@ == id
}

/// The table after `waiter` has begun to wait under `id`: it stands behind
/// every sender that waits under `id` already.
pub open spec fn enqueue<W>(table: Map<IdView, Seq<W>>, id: IdView, waiter: W) -> Map<
    IdView,
    Seq<W>,
> {
    if table.contains_key(id) {
        table.insert(id, table[id].push(waiter))
    } else {
        table.insert(id, seq![waiter])
    }
}

/// Whether a response with the identifier `id` finds a waiter in `table`.
/// The `null` identifier never does.
pub open spec fn routable<W>(table: Map<IdView, Seq<W>>, id: IdView) -> bool {
    id != IdView::Null && table.contains_key(id)
}

/// The table after a response with the identifier `id` has arrived: the
/// oldest waiter under `id` has left, and with the last waiter the entry
/// itself. A response that finds no waiter changes nothing.
pub open spec fn after_response<W>(table: Map<IdView, Seq<W>>, id: IdView) -> Map<IdView, Seq<W>> {
    if !routable(table, id) {
        table
    } else if table[id].len() <= 1 {
        table.remove(id)
    } else {
        table.insert(id, table[id].drop_first())
    }
}

/// Whether no entry of `table` has an empty queue.
pub open spec fn no_empty_queue<W>(table: Map<IdView, Seq<W>>) -> bool {
    forall|id: IdView| #[trigger] table.contains_key(id) ==> table[id].len() > 0
}

/// Where a response went when it was matched against the table.
#[derive(Debug)]
pub enum Routed {
    /// The response belongs to `waiter`, the sender that had waited longest
    /// under its identifier, and has yet to be sent.
    Deliver { waiter: Waiter, response: Response },
    /// The response carries the `null` identifier and belongs to nobody.
    NullId(Response),
    /// Nobody waits under the identifier of the response.
    UnknownId(Response),
}

/// What became of a response that was registered.
#[derive(Debug)]
pub enum Registered {
    /// The response was handed to the caller that had waited longest for it.
    Delivered,
    /// The caller that had waited longest had stopped listening; the
    /// response comes back.
    Abandoned(Response),
    /// The response carries the `null` identifier and was not matched.
    NullId(Response),
    /// Nobody waits under the identifier of the response.
    UnknownId(Response),
}

/// The calls that wait for a response, keyed by the identifier of their
/// request.
pub struct PendingClientRequests {
    table: WaiterMap,
}

impl View for PendingClientRequests {
    type V = Map<IdView, Seq<Waiter>>;

    closed spec fn view(&self) -> Map<IdView, Seq<Waiter>> {
        waiting(self.table)
    }
}

impl PendingClientRequests {
    /// Whether the table is well formed: an identifier under which nobody
    /// waits has no entry.
    pub open spec fn wf(&self) -> bool {
        no_empty_queue(self@)
    }

    /// A table in which nobody waits.
    pub fn new() -> (pending: Self)
        ensures
            pending.wf(),
            pending@ == Map::<IdView, Seq<Waiter>>::empty(),
    {
        PendingClientRequests { table: table_new() }
    }

    /// Lets `waiter` wait for the response to the request `id`, behind every
    /// sender that waits for it already.
    pub fn enlist(&mut self, id: ResponseId, waiter: Waiter)
        requires
            old(self).wf(),
        ensures
            final(self).wf(),
            final(self)@ == enqueue(old(self)@, id@, waiter),
    {
        let mut queue = match table_remove(&mut self.table, &id) {
            Some(entry) => entry.1,
            None => Vec::new(),
        };
        queue.push(waiter);
        let _ = table_insert(&mut self.table, id, queue);
        assert(self@ =~= enqueue(old(self)@, id@, waiter));
    }

    /// Marks the request `id` as pending and returns the receiver on which
    /// its response will arrive. Several calls may wait for one identifier;
    /// they are served in the order in which they began to wait.
    pub fn await_response(&mut self, id: ResponseId) -> (receiver: Awaited)
        requires
            old(self).wf(),
        ensures
            final(self).wf(),
            exists|waiter: Waiter|
                final(self)@ == #[trigger] enqueue(old(self)@, id@, waiter),
    {
        let (waiter, receiver) = channel();
        self.enlist(id, waiter);
        receiver
    }

    /// Matches `response` against the table and takes out the sender that
    /// has waited longest under its identifier, without sending anything.
    pub fn route(&mut self, response: Response) -> (routed: Routed)
        requires
            old(self).wf(),
        ensures
            final(self).wf(),
            final(self)@ == after_response(old(self)@, response@.id),
            match routed {
                Routed::Deliver { waiter, response: carried } => routable(
                    old(self)@,
                    response@.id,
                ) && waiter == old(self)@[response@.id].first() && carried == response,
                Routed::NullId(carried) => response@.id == IdView::Null && carried == response,
                Routed::UnknownId(carried) => response@.id != IdView::Null
                    && !old(self)@.contains_key(response@.id) && carried == response,
            },
    {
        if response.id().is_null() {
            return Routed::NullId(response);
        }
        match table_remove(&mut self.table, response.id()) {
            None => Routed::UnknownId(response),
            Some(entry) => {
                let (id, mut queue) = entry;
                let waiter = queue.remove(0);
                if queue.len() > 0 {
                    let _ = table_insert(&mut self.table, id, queue);
                }
                assert(self@ =~= after_response(old(self)@, response@.id));
                Routed::Deliver { waiter, response }
            },
        }
    }

    /// Hands `response` to the caller that has waited longest for its
    /// identifier. A response with the `null` identifier, or with an
    /// identifier under which nobody waits, changes nothing and comes back.
    /// With the last waiter under an identifier its entry leaves the table.
    pub fn register_response(&mut self, response: Response) -> (outcome: Registered)
        requires
            old(self).wf(),
        ensures
            final(self).wf(),
            final(self)@ == after_response(old(self)@, response@.id),
            !routable(old(self)@, response@.id) ==> final(self)@ == old(self)@,
            routable(old(self)@, response@.id) && old(self)@[response@.id].len() == 1
                ==> !final(self)@.contains_key(response@.id),
            match outcome {
                Registered::Delivered => routable(old(self)@, response@.id),
                Registered::Abandoned(back) => routable(old(self)@, response@.id) && back
                    == response,
                Registered::NullId(back) => response@.id == IdView::Null && back == response,
                Registered::UnknownId(back) => response@.id != IdView::Null
                    && !old(self)@.contains_key(response@.id) && back == response,
            },
    {
        match self.route(response) {
            Routed::NullId(back) => Registered::NullId(back),
            Routed::UnknownId(back) => Registered::UnknownId(back),
            Routed::Deliver { waiter, response } => match send(waiter, response) {
                Ok(()) => Registered::Delivered,
                Err(back) => Registered::Abandoned(back),
            },
        }
    }

    /// Every identifier under which somebody waits, with the number of its
    /// waiters. The order of the list is not fixed.
    pub fn waiter_counts(&self) -> (counts: Vec<(ResponseId, usize)>)
        ensures
            lists_counts(counts@, self@),
    {
        table_counts(&self.table)
    }
}

/// The table after `n` responses with the identifier `id` have arrived, one
/// after the other.
pub open spec fn after_responses<W>(table: Map<IdView, Seq<W>>, id: IdView, n: nat) -> Map<
    IdView,
    Seq<W>,
>
    decreases n,
{
    if n == 0 {
        table
    } else {
        after_response(after_responses(table, id, (n - 1) as nat), id)
    }
}

/// Responses reach the callers that wait under one identifier in the order
/// in which those began to wait: after `n` responses, the next one goes to
/// the caller at place `n` of the queue, whatever the responses carry. The
/// queues under other identifiers are as they were.
pub proof fn responses_follow_waiting_order<W>(table: Map<IdView, Seq<W>>, id: IdView, n: nat)
    requires
        no_empty_queue(table),
        id != IdView::Null,
        table.contains_key(id),
        n < table[id].len(),
    ensures
        routable(after_responses(table, id, n), id),
        after_responses(table, id, n)[id] == table[id].skip(n as int),
        after_responses(table, id, n)[id].first() == table[id][n as int],
        after_responses(table, id, n).remove(id) == table.remove(id),
    decreases n,
{
    if n == 0 {
        assert(table[id].skip(0) =~= table[id]);
    } else {
        let before = after_responses(table, id, (n - 1) as nat);
        responses_follow_waiting_order(table, id, (n - 1) as nat);
        assert(before[id].len() > 1);
        assert(before[id].drop_first() =~= table[id].skip(n as int));
        assert(after_response(before, id).remove(id) =~= before.remove(id));
    }
}

/// Once every caller that waited under an identifier has had its response,
/// the identifier has no entry in the table any more.
pub proof fn entry_leaves_with_last_waiter<W>(table: Map<IdView, Seq<W>>, id: IdView)
    requires
        no_empty_queue(table),
        id != IdView::Null,
        table.contains_key(id),
    ensures
        !after_responses(table, id, table[id].len()).contains_key(id),
        after_responses(table, id, table[id].len()) == table.remove(id),
{
    let last = (table[id].len() - 1) as nat;
    responses_follow_waiting_order(table, id, last);
    let before = after_responses(table, id, last);
    assert(before[id].len() == 1);
}

/// A caller that waits alone under its identifier gets the next response
/// with that identifier, and the table is then as it was before the caller
/// began to wait.
pub proof fn lone_waiter_is_served<W>(table: Map<IdView, Seq<W>>, id: IdView, waiter: W)
    requires
        id != IdView::Null,
        !table.contains_key(id),
    ensures
        routable(enqueue(table, id, waiter), id),
        enqueue(table, id, waiter)[id].first() == waiter,
        after_response(enqueue(table, id, waiter), id) == table,
{
    assert(after_response(enqueue(table, id, waiter), id) =~= table);
}

/// Of two callers that wait under one identifier, the one that began to wait
/// first gets the first response and the other the second, whatever the
/// responses carry; after that the table is as it was before the two began
/// to wait.
pub proof fn two_waiters_are_served_in_order<W>(
    table: Map<IdView, Seq<W>>,
    id: IdView,
    first: W,
    second: W,
)
    requires
        id != IdView::Null,
        !table.contains_key(id),
    ensures
        ({
            let both = enqueue(enqueue(table, id, first), id, second);
            let one = after_response(both, id);
            &&& routable(both, id)
            &&& both[id].first() == first
            &&& routable(one, id)
            &&& one[id].first() == second
            &&& after_response(one, id) == table
        }),
{
    let both = enqueue(enqueue(table, id, first), id, second);
    let one = after_response(both, id);
    assert(both[id] =~= seq![first, second]);
    assert(one[id] =~= seq![second]);
    assert(after_response(one, id) =~= table);
}

/// A response with the `null` identifier, or with an identifier under which
/// nobody waits, leaves the table as it is.
pub proof fn stray_response_changes_nothing<W>(table: Map<IdView, Seq<W>>, id: IdView)
    requires
        id == IdView::Null || !table.contains_key(id),
    ensures
        after_response(table, id) == table,
{
}

} // verus!
