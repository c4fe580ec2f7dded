//! The bulk dispatch engine: a batch of requests is admitted to a bounded
//! number of senders, every outcome is recorded under the index of its
//! request, and the report is read back in the order of the requests once
//! all of them are in.
//!
//! The engine decides; it does not send. Whoever drives it asks for the next
//! request to start, sends it by whatever means it has, and hands the
//! outcome back under the index it was given.

use vstd::prelude::*;
use vstd::set_lib::lemma_len_subset;
use vstd::set_lib::lemma_subset_equality;
use crate::send::Report;
use crate::send::SendResponse;
use crate::send::SendTemplateItem;

verus! {

/// The number of requests of one batch that may be with the transport at
/// the same time.
pub const PAR_SENDERS: usize = 16;

/// Trusted: `dashmap::DashMap`, a concurrent hash map. The engine keeps the
/// outcomes of a batch in one, keyed by the index of the request.
#[verifier::external_type_specification]
#[verifier::external_body]
#[verifier::reject_recursive_types(K)]
#[verifier::reject_recursive_types(V)]
#[verifier::reject_recursive_types(S)]
pub struct ExDashMap<K, V, S>(dashmap::DashMap<K, V, S>);

/// What the map holds: under each index that has an entry, the report that
/// was stored there last.
pub uninterp spec fn recorded(slots: dashmap::DashMap<usize, SendResponse>) -> Map<usize, Report>;

/// No report under any index.
pub open spec fn no_reports() -> Map<usize, Report> {
    Map::empty()
}

/// Trusted: `DashMap::new`, a map without entries.
#[verifier::external_body]
fn empty_slots() -> (slots: dashmap::DashMap<usize, SendResponse>)
    ensures
        recorded(slots) == no_reports(),
{
    dashmap::DashMap::new()
}

/// Trusted: `DashMap::contains_key`, whether the map has an entry under
/// the index.
#[verifier::external_body]
fn has_slot(slots: &dashmap::DashMap<usize, SendResponse>, index: usize) -> (held: bool)
    ensures
        held == recorded(*slots).contains_key(index),
{
    slots.contains_key(&index)
}

/// Trusted: `DashMap::insert`, after which the map holds the response under
/// the index and every other entry as before.
#[verifier::external_body]
fn put_slot(slots: &mut dashmap::DashMap<usize, SendResponse>, index: usize, response: SendResponse)
    ensures
        recorded(*final(slots)) == recorded(*old(slots)).insert(index, response@),
{
    slots.insert(index, response);
}

/// Trusted: `DashMap::remove`, which takes the entry under the index out of
/// the map and hands its value over, if there is one; every other entry
/// stays as it was.
#[verifier::external_body]
fn take_slot(slots: &mut dashmap::DashMap<usize, SendResponse>, index: usize) -> (taken: Option<
    SendResponse,
>)
    ensures
        taken is Some <==> recorded(*old(slots)).contains_key(index),
        taken matches Some(response) ==> response@ == recorded(*old(slots))[index],
        recorded(*final(slots)) == recorded(*old(slots)).remove(index),
{
    slots.remove(&index).map(|entry| entry.1)
}

/// The indices below `n`.
pub open spec fn indices(n: nat) -> Set<usize> {
    Set::new(|i: usize| i < n)
}

/// There are `n` indices below `n`.
pub proof fn lemma_indices_len(n: nat)
    requires
        n <= usize::MAX,
    ensures
        indices(n).finite(),
        indices(n).len() == n,
    decreases n,
{
    if n == 0 {
        assert(indices(n) =~= Set::empty());
    } else {
        lemma_indices_len((n - 1) as nat);
        assert(indices(n) =~= indices((n - 1) as nat).insert((n - 1) as usize));
    }
}

/// The state of a batch: its requests in the order given, the budget of
/// concurrent sends, how many requests have been admitted, and the reports
/// recorded so far, each under the index of its request.
pub struct Batch {
    pub requests: Seq<SendTemplateItem>,
    pub budget: nat,
    pub admitted: nat,
    pub results: Map<usize, Report>,
}

impl Batch {
    /// The number of requests in the batch.
    pub open spec fn total(self) -> nat {
        self.requests.len()
    }

    /// The number of requests that have been admitted and whose outcome is
    /// not recorded yet.
    pub open spec fn in_flight(self) -> int {
        self.admitted - self.results.dom().len()
    }

    /// What holds of every state that a batch goes through: requests are
    /// admitted in the order given; only admitted requests have a report;
    /// and no more requests are in flight than the budget allows.
    pub open spec fn wf(self) -> bool {
        &&& self.total() <= usize::MAX
        &&& self.admitted <= self.total()
        &&& self.results.dom().finite()
        &&& self.results.dom().subset_of(indices(self.admitted))
        &&& self.in_flight() <= self.budget
    }

    /// A batch as it is accepted: nothing admitted, nothing recorded.
    pub open spec fn opened(requests: Seq<SendTemplateItem>, budget: nat) -> Batch {
        Batch { requests, budget, admitted: 0, results: Map::empty() }
    }

    /// Whether the next request can be admitted: there is one, and the
    /// budget is not used up.
    pub open spec fn can_launch(self) -> bool {
        self.admitted < self.total() && self.in_flight() < self.budget
    }

    /// The batch after the next request has been admitted.
    pub open spec fn launch(self) -> Batch {
        Batch { admitted: self.admitted + 1, ..self }
    }

    /// Whether the request at `index` is in flight.
    pub open spec fn awaits(self, index: usize) -> bool {
        index < self.admitted && !self.results.contains_key(index)
    }

    /// The batch after `report` has been recorded for the request at
    /// `index`.
    pub open spec fn record(self, index: usize, report: Report) -> Batch {
        Batch { results: self.results.insert(index, report), ..self }
    }

    /// Whether every request of the batch has its report.
    pub open spec fn complete(self) -> bool {
        self.results.dom().len() == self.total()
    }

    /// The reports of the batch in the order of its requests.
    pub open spec fn report(self) -> Seq<Report> {
        Seq::new(self.total(), |i: int| self.results[i as usize])
    }
}

/// A batch that has just been accepted is in order, with nothing in flight.
pub proof fn lemma_opened_in_order(requests: Seq<SendTemplateItem>, budget: nat)
    requires
        requests.len() <= usize::MAX,
    ensures
        Batch::opened(requests, budget).wf(),
        Batch::opened(requests, budget).in_flight() == 0,
        Batch::opened(requests, budget).complete() <==> requests.len() == 0,
{
    let batch = Batch::opened(requests, budget);
    assert(batch.results.dom() =~= Set::empty());
}

/// Fewer reports are recorded than requests admitted while a request is in
/// flight, and never more.
pub proof fn lemma_recorded_below_admitted(batch: Batch)
    requires
        batch.wf(),
    ensures
        batch.in_flight() >= 0,
        forall|index: usize| batch.awaits(index) ==> batch.in_flight() > 0,
{
    lemma_indices_len(batch.admitted);
    lemma_len_subset(batch.results.dom(), indices(batch.admitted));
    assert forall|index: usize| batch.awaits(index) implies batch.in_flight() > 0 by {
        let more = batch.results.dom().insert(index);
        assert(more.subset_of(indices(batch.admitted)));
        lemma_len_subset(more, indices(batch.admitted));
    }
}

/// Admission respects the budget: after a request has been admitted, the
/// batch is in order, and one more request is in flight, which is still
/// within the budget.
pub proof fn lemma_launch_within_budget(batch: Batch)
    requires
        batch.wf(),
        batch.can_launch(),
    ensures
        batch.launch().wf(),
        batch.launch().in_flight() == batch.in_flight() + 1,
        batch.launch().in_flight() <= batch.budget,
        batch.launch().awaits(batch.admitted as usize),
{
    let after = batch.launch();
    assert(after.results.dom().subset_of(indices(after.admitted)));
    assert(!batch.results.contains_key(batch.admitted as usize)) by {
        if batch.results.contains_key(batch.admitted as usize) {
            assert(indices(batch.admitted).contains(batch.admitted as usize));
        }
    }
}

/// Recording frees a slot and touches nothing else: after the outcome of a
/// request in flight has been recorded, the batch is in order, one request
/// fewer is in flight, the report stands under the index of its request,
/// and the report of every other request is what it was.
pub proof fn lemma_record_isolated(batch: Batch, index: usize, report: Report)
    requires
        batch.wf(),
        batch.awaits(index),
    ensures
        batch.record(index, report).wf(),
        batch.record(index, report).in_flight() == batch.in_flight() - 1,
        batch.record(index, report).results[index] == report,
        forall|other: usize|
            other != index ==> batch.record(index, report).results.contains_key(other)
                == batch.results.contains_key(other),
        forall|other: usize|
            other != index ==> batch.record(index, report).results[other]
                == batch.results[other],
{
    let after = batch.record(index, report);
    assert(after.results.dom() =~= batch.results.dom().insert(index));
    assert(after.results.dom().subset_of(indices(after.admitted)));
    lemma_recorded_below_admitted(batch);
}

/// What is recorded for one request has no bearing on the report of any
/// other: whichever of two outcomes is recorded at `index`, every other
/// index reads the same afterwards.
pub proof fn lemma_outcome_of_one_leaves_others(
    batch: Batch,
    index: usize,
    this: Report,
    that: Report,
    other: usize,
)
    requires
        other != index,
    ensures
        batch.record(index, this).results.contains_key(other) == batch.record(
            index,
            that,
        ).results.contains_key(other),
        batch.record(index, this).results[other] == batch.record(index, that).results[other],
{
}

/// The barrier: in a complete batch every request has been admitted, every
/// index has its report, and nothing is in flight.
pub proof fn lemma_complete_has_all(batch: Batch)
    requires
        batch.wf(),
        batch.complete(),
    ensures
        batch.admitted == batch.total(),
        batch.in_flight() == 0,
        !batch.can_launch(),
        forall|index: usize| index < batch.total() ==> batch.results.contains_key(index),
{
    lemma_recorded_below_admitted(batch);
    lemma_indices_len(batch.admitted);
    lemma_subset_equality(batch.results.dom(), indices(batch.admitted));
    assert forall|index: usize| index < batch.total() implies batch.results.contains_key(
        index,
    ) by {
        assert(indices(batch.admitted).contains(index));
    }
}

/// No batch gets stuck: while a batch with a budget of at least one is not
/// complete, either the next request can be admitted or a request is in
/// flight, whose outcome will free a slot.
pub proof fn lemma_incomplete_can_proceed(batch: Batch)
    requires
        batch.wf(),
        batch.budget >= 1,
        !batch.complete(),
    ensures
        batch.can_launch() || batch.in_flight() > 0,
{
    lemma_recorded_below_admitted(batch);
}

/// The report has one entry for each request, in the order of the
/// requests: where every report was made from the request at its own
/// index, the report of the batch is the requests mapped one by one.
pub proof fn lemma_report_follows_requests(
    batch: Batch,
    outcome: spec_fn(SendTemplateItem) -> Report,
)
    requires
        batch.wf(),
        batch.complete(),
        forall|index: usize|
            index < batch.total() ==> batch.results[index] == outcome(
                #[trigger] batch.requests[index as int],
            ),
    ensures
        batch.report().len() == batch.requests.len(),
        batch.report() == batch.requests.map_values(outcome),
{
    assert(batch.report() =~= batch.requests.map_values(outcome)) by {
        assert forall|i: int| 0 <= i < batch.total() implies batch.report()[i]
            == batch.requests.map_values(outcome)[i] by {
            assert(batch.results[i as usize] == outcome(batch.requests[(i as usize) as int]));
        }
    }
}

/// The views of a vector of responses, element by element.
pub open spec fn reports(responses: Seq<SendResponse>) -> Seq<Report> {
    Seq::new(responses.len(), |i: int| responses[i]@)
}

/// The engine of one batch.
pub struct BulkDispatch {
    queue: Vec<SendTemplateItem>,
    total: usize,
    budget: usize,
    next: usize,
    done: usize,
    slots: dashmap::DashMap<usize, SendResponse>,
    requests: Ghost<Seq<SendTemplateItem>>,
}

impl View for BulkDispatch {
    type V = Batch;

    closed spec fn view(&self) -> Batch {
        Batch {
            requests: self.requests@,
            budget: self.budget as nat,
            admitted: self.next as nat,
            results: recorded(self.slots),
        }
    }
}

impl BulkDispatch {
    /// The engine's own books agree with the state of the batch.
    pub closed spec fn kept(&self) -> bool {
        &&& self.total == self.requests@.len()
        &&& self.done == recorded(self.slots).dom().len()
        &&& self.queue@.len() == self.total - self.next
        &&& forall|k: int|
            0 <= k < self.queue@.len() ==> self.queue@[k] == self.requests@[self.total - 1 - k]
    }

    /// The batch is in order and the engine's books agree with it.
    pub open spec fn wf(&self) -> bool {
        self@.wf() && self.kept()
    }

    /// Accepts a batch under the given budget. Nothing is admitted yet.
    /// Under a budget of zero nothing ever is.
    pub fn new(items: Vec<SendTemplateItem>, budget: usize) -> (engine: BulkDispatch)
        ensures
            engine.wf(),
            engine@ == Batch::opened(items@, budget as nat),
    {
        let ghost requests = items@;
        let total = items.len();
        let mut items = items;
        let mut queue: Vec<SendTemplateItem> = Vec::new();
        while items.len() > 0
            invariant
                items@.len() + queue@.len() == total,
                total == requests.len(),
                items@ =~= requests.take(items@.len() as int),
                forall|k: int| 0 <= k < queue@.len() ==> queue@[k] == requests[total - 1 - k],
            decreases items@.len(),
        {
            let item = items.pop().unwrap();
            queue.push(item);
        }
        let engine = BulkDispatch {
            queue,
            total,
            budget,
            next: 0,
            done: 0,
            slots: empty_slots(),
            requests: Ghost(requests),
        };
        proof {
            lemma_opened_in_order(requests, budget as nat);
            assert(recorded(engine.slots).dom() =~= Set::empty());
        }
        engine
    }

    /// The number of requests in the batch.
    pub fn total(&self) -> (n: usize)
        requires
            self.wf(),
        ensures
            n == self@.total(),
    {
        self.total
    }

    /// The budget of the batch.
    pub fn budget(&self) -> (n: usize)
        ensures
            n == self@.budget,
    {
        self.budget
    }

    /// The number of requests in flight.
    pub fn in_flight(&self) -> (n: usize)
        requires
            self.wf(),
        ensures
            n == self@.in_flight(),
            n <= self@.budget,
    {
        proof {
            lemma_recorded_below_admitted(self@);
        }
        self.next - self.done
    }

    /// Whether every request of the batch has its report.
    pub fn is_complete(&self) -> (complete: bool)
        requires
            self.wf(),
        ensures
            complete == self@.complete(),
    {
        self.done == self.total
    }

    /// Launches the next request, if there is one and the budget allows it,
    /// and hands it out with its index. Requests are admitted in the order
    /// in which the batch holds them, each one once.
    pub fn launch(&mut self) -> (started: Option<(usize, SendTemplateItem)>)
        requires
            old(self).wf(),
        ensures
            final(self).wf(),
            old(self)@.can_launch() ==> (started matches Some(job) && job.0 == old(self)@.admitted
                && job.1 == old(self)@.requests[job.0 as int] && final(self)@ == old(
                self,
            )@.launch()),
            !old(self)@.can_launch() ==> started is None && final(self)@ == old(self)@,
    {
        proof {
            lemma_recorded_below_admitted(self@);
        }
        if self.next < self.total && self.next - self.done < self.budget {
            proof {
                lemma_launch_within_budget(self@);
            }
            let index = self.next;
            let item = self.queue.pop().unwrap();
            self.next = self.next + 1;
            Some((index, item))
        } else {
            None
        }
    }

    /// Records the outcome of the request at `index`. The outcome is taken
    /// only for a request that is in flight: one that was admitted and has
    /// no report yet. Otherwise nothing changes, and the answer is `false`.
    pub fn record(&mut self, index: usize, response: SendResponse) -> (taken: bool)
        requires
            old(self).wf(),
        ensures
            final(self).wf(),
            taken == old(self)@.awaits(index),
            taken ==> final(self)@ == old(self)@.record(index, response@),
            !taken ==> final(self)@ == old(self)@,
    {
        if index < self.next && !has_slot(&self.slots, index) {
            proof {
                assert(self@.awaits(index));
                lemma_record_isolated(self@, index, response@);
                lemma_recorded_below_admitted(self@);
                assert(recorded(self.slots).insert(index, response@).dom() =~= recorded(
                    self.slots,
                ).dom().insert(index));
            }
            put_slot(&mut self.slots, index, response);
            self.done = self.done + 1;
            true
        } else {
            false
        }
    }

    /// Reads the reports back in the order of the requests. There is no
    /// report while the batch is not complete.
    pub fn collect(self) -> (out: Option<Vec<SendResponse>>)
        requires
            self.wf(),
        ensures
            out is Some <==> self@.complete(),
            out matches Some(responses) ==> reports(responses@) == self@.report(),
            out matches Some(responses) ==> responses@.len() == self@.total(),
            out matches Some(responses) ==> forall|i: int|
                0 <= i < responses@.len() ==> (#[trigger] responses@[i])@
                    == self@.results[i as usize],
    {
        if self.done != self.total {
            return None;
        }
        let ghost batch = self@;
        proof {
            lemma_complete_has_all(batch);
        }
        let total = self.total;
        let mut slots = self.slots;
        let mut responses: Vec<SendResponse> = Vec::new();
        let mut i: usize = 0;
        while i < total
            invariant
                i <= total,
                total == batch.total(),
                responses@.len() == i,
                forall|k: int| 0 <= k < i ==> responses@[k]@ == batch.results[k as usize],
                forall|k: usize| i <= k < total ==> #[trigger] recorded(slots).contains_key(k),
                forall|k: usize|
                    i <= k < total ==> #[trigger] recorded(slots)[k] == batch.results[k],
            decreases total - i,
        {
            let ghost before = recorded(slots);
            assert(before.contains_key(i));
            match take_slot(&mut slots, i) {
                Some(response) => {
                    responses.push(response);
                },
                None => {
                    vstd::pervasive::unreached::<()>();
                },
            }
            proof {
                assert forall|k: usize| i < k < total implies #[trigger] recorded(
                    slots,
                ).contains_key(k) by {
                    assert(before.contains_key(k));
                }
                assert forall|k: usize| i < k < total implies #[trigger] recorded(slots)[k]
                    == batch.results[k] by {
                    assert(before.contains_key(k));
                    assert(before[k] == batch.results[k]);
                }
            }
            i = i + 1;
        }
        assert(reports(responses@) =~= batch.report());
        Some(responses)
    }
}

/// Accepts a batch of requests under the service's budget of concurrent
/// sends. The caller drives the engine: it starts what [`BulkDispatch::launch`]
/// hands out, records every outcome, and collects the report at the end.
pub fn send_mail_bulk_route(items: Vec<SendTemplateItem>) -> (engine: BulkDispatch)
    ensures
        engine.wf(),
        engine@ == Batch::opened(items@, PAR_SENDERS as nat),
{
    BulkDispatch::new(items, PAR_SENDERS)
}

} // verus!
