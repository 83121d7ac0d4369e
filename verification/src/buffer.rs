use vstd::prelude::*;

use crate::models::download::Download;
use crate::models::visit::Visit;
use crossbeam::queue::SegQueue;
use vstd::multiset::Multiset;

verus! {

broadcast use vstd::multiset::group_multiset_axioms;

/// Declares crossbeam's lock-free unbounded queue to the verifier. A value
/// of it is opaque here; `queued_visits` and `queued_downloads` name what
/// one holds.
#[verifier::external_type_specification]
#[verifier::external_body]
#[verifier::reject_recursive_types(T)]
pub struct ExSegQueue<T>(SegQueue<T>);

/// What a visit queue holds. The queue is first-in first-out, but the core
/// relies on no ordering, so its content is a multiset.
pub uninterp spec fn queued_visits(q: SegQueue<Visit>) -> Multiset<Visit>;

/// What a download queue holds, as a multiset.
pub uninterp spec fn queued_downloads(q: SegQueue<Download>) -> Multiset<Download>;

/// Relies on SegQueue::new: creates a new, empty unbounded queue.
#[verifier::external_body]
fn visit_queue_new() -> (q: SegQueue<Visit>)
    ensures
        queued_visits(q) == Multiset::<Visit>::empty(),
{
    SegQueue::new()
}

/// Relies on SegQueue::push: appends one element to the queue.
#[verifier::external_body]
fn visit_queue_push(q: &mut SegQueue<Visit>, visit: Visit)
    ensures
        queued_visits(*final(q)) == queued_visits(*old(q)).insert(visit),
{
    q.push(visit)
}

/// Relies on SegQueue::pop: removes and returns one element, or returns
/// None exactly when the queue is empty (the queue is borrowed exclusively
/// here, so no concurrent push can intervene).
#[verifier::external_body]
fn visit_queue_pop(q: &mut SegQueue<Visit>) -> (r: Option<Visit>)
    ensures
        match r {
            Some(visit) => queued_visits(*old(q)).count(visit) > 0 && queued_visits(*final(q))
                == queued_visits(*old(q)).remove(visit),
            None => queued_visits(*old(q)) == Multiset::<Visit>::empty() && queued_visits(
                *final(q),
            ) == queued_visits(*old(q)),
        },
{
    q.pop()
}

/// Relies on SegQueue::len: returns the number of elements in the queue.
#[verifier::external_body]
fn visit_queue_len(q: &SegQueue<Visit>) -> (n: usize)
    ensures
        n == queued_visits(*q).len(),
{
    q.len()
}

/// Relies on SegQueue::new: creates a new, empty unbounded queue.
#[verifier::external_body]
fn download_queue_new() -> (q: SegQueue<Download>)
    ensures
        queued_downloads(q) == Multiset::<Download>::empty(),
{
    SegQueue::new()
}

/// Relies on SegQueue::push: appends one element to the queue.
#[verifier::external_body]
fn download_queue_push(q: &mut SegQueue<Download>, download: Download)
    ensures
        queued_downloads(*final(q)) == queued_downloads(*old(q)).insert(download),
{
    q.push(download)
}

/// Relies on SegQueue::pop: removes and returns one element, or returns
/// None exactly when the queue is empty (the queue is borrowed exclusively
/// here, so no concurrent push can intervene).
#[verifier::external_body]
fn download_queue_pop(q: &mut SegQueue<Download>) -> (r: Option<Download>)
    ensures
        match r {
            Some(download) => queued_downloads(*old(q)).count(download) > 0 && queued_downloads(
                *final(q),
            ) == queued_downloads(*old(q)).remove(download),
            None => queued_downloads(*old(q)) == Multiset::<Download>::empty() && queued_downloads(
                *final(q),
            ) == queued_downloads(*old(q)),
        },
{
    q.pop()
}

/// Relies on SegQueue::len: returns the number of elements in the queue.
#[verifier::external_body]
fn download_queue_len(q: &SegQueue<Download>) -> (n: usize)
    ensures
        n == queued_downloads(*q).len(),
{
    q.len()
}

/// The visits' write buffer: an unbounded multi-producer queue of pending
/// records. Push always succeeds; drain_all claims everything present.
pub struct VisitBuffer {
    queue: SegQueue<Visit>,
}

impl View for VisitBuffer {
    type V = Multiset<Visit>;

    closed spec fn view(&self) -> Multiset<Visit> {
        queued_visits(self.queue)
    }
}

impl VisitBuffer {
    /// A new buffer holds nothing.
    pub fn new() -> (b: VisitBuffer)
        ensures
            b@ == Multiset::<Visit>::empty(),
    {
        VisitBuffer { queue: visit_queue_new() }
    }

    /// Adds one pending record. Pushing never fails and never drops
    /// anything already buffered.
    pub fn push(&mut self, visit: Visit)
        ensures
            final(self)@ == old(self)@.insert(visit),
    {
        visit_queue_push(&mut self.queue, visit)
    }

    /// How many records are pending.
    pub fn len(&self) -> (n: usize)
        ensures
            n == self@.len(),
    {
        visit_queue_len(&self.queue)
    }

    /// Claims every pending record: the buffer is empty afterwards and the
    /// returned batch holds exactly what was buffered.
    pub fn drain_all(&mut self) -> (batch: Vec<Visit>)
        ensures
            final(self)@ == Multiset::<Visit>::empty(),
            batch@.to_multiset() == old(self)@,
    {
        let mut batch: Vec<Visit> = Vec::new();
        proof {
            assert(batch@.to_multiset() =~= Multiset::<Visit>::empty()) by {
                batch@.to_multiset_ensures();
            }
        }
        loop
            invariant
                batch@.to_multiset().add(self@) == old(self)@,
            ensures
                self@ == Multiset::<Visit>::empty(),
                batch@.to_multiset().add(self@) == old(self)@,
            decreases self@.len(),
        {
            let ghost pending_before = self@;
            let ghost batch_before = batch@;
            match visit_queue_pop(&mut self.queue) {
                Some(visit) => {
                    batch.push(visit);
                    proof {
                        broadcast use vstd::seq_lib::group_to_multiset_ensures;

                        assert(batch@.to_multiset() =~= batch_before.to_multiset().insert(visit));
                        assert(batch@.to_multiset().add(self@) =~= batch_before.to_multiset().add(
                            pending_before,
                        ));
                        assert(Multiset::singleton(visit).subset_of(pending_before));
                        assert(self@.len() < pending_before.len());
                    }
                },
                None => {
                    break ;
                },
            }
        }
        batch
    }
}

/// The downloads' write buffer, the visits' counterpart.
pub struct DownloadBuffer {
    queue: SegQueue<Download>,
}

impl View for DownloadBuffer {
    type V = Multiset<Download>;

    closed spec fn view(&self) -> Multiset<Download> {
        queued_downloads(self.queue)
    }
}

impl DownloadBuffer {
    /// A new buffer holds nothing.
    pub fn new() -> (b: DownloadBuffer)
        ensures
            b@ == Multiset::<Download>::empty(),
    {
        DownloadBuffer { queue: download_queue_new() }
    }

    /// Adds one pending record. Pushing never fails and never drops
    /// anything already buffered.
    pub fn push(&mut self, download: Download)
        ensures
            final(self)@ == old(self)@.insert(download),
    {
        download_queue_push(&mut self.queue, download)
    }

    /// How many records are pending.
    pub fn len(&self) -> (n: usize)
        ensures
            n == self@.len(),
    {
        download_queue_len(&self.queue)
    }

    /// Claims every pending record: the buffer is empty afterwards and the
    /// returned batch holds exactly what was buffered.
    pub fn drain_all(&mut self) -> (batch: Vec<Download>)
        ensures
            final(self)@ == Multiset::<Download>::empty(),
            batch@.to_multiset() == old(self)@,
    {
        let mut batch: Vec<Download> = Vec::new();
        proof {
            assert(batch@.to_multiset() =~= Multiset::<Download>::empty()) by {
                batch@.to_multiset_ensures();
            }
        }
        loop
            invariant
                batch@.to_multiset().add(self@) == old(self)@,
            ensures
                self@ == Multiset::<Download>::empty(),
                batch@.to_multiset().add(self@) == old(self)@,
            decreases self@.len(),
        {
            let ghost pending_before = self@;
            let ghost batch_before = batch@;
            match download_queue_pop(&mut self.queue) {
                Some(download) => {
                    batch.push(download);
                    proof {
                        broadcast use vstd::seq_lib::group_to_multiset_ensures;

                        assert(batch@.to_multiset() =~= batch_before.to_multiset().insert(
                            download,
                        ));
                        assert(batch@.to_multiset().add(self@) =~= batch_before.to_multiset().add(
                            pending_before,
                        ));
                        assert(Multiset::singleton(download).subset_of(pending_before));
                        assert(self@.len() < pending_before.len());
                    }
                },
                None => {
                    break ;
                },
            }
        }
        batch
    }
}

} // verus!
