use vstd::prelude::*;

use crate::buffer::DownloadBuffer;
use crate::buffer::VisitBuffer;
use crate::connector::DataConnector;
use crate::error::AriadneErrors;
use crate::models::download::Download;
use crate::models::visit::Visit;
use vstd::multiset::Multiset;

verus! {

broadcast use vstd::multiset::group_multiset_axioms, vstd::seq_lib::group_to_multiset_ensures;

/// The write-back buffer in front of a storage sink: one pending queue per
/// event kind, the sink they are flushed to, and the single initialized
/// flag that makes the sink's one-time setup single-flight.
pub struct CacheData<S> {
    implementation: S,
    pending_visits: VisitBuffer,
    pending_downloads: DownloadBuffer,
    initialized: bool,
}

/// How one tick settled one event kind.
#[derive(Debug, Clone, Copy, PartialEq, Eq, Structural)]
pub enum FlushOutcome {
    /// Nothing was pending: the sink was not called for this kind.
    Skipped,
    /// A batch of this many records was submitted and accepted.
    Flushed(usize),
    /// A batch of this many records was submitted and refused; every record
    /// of it went back into the kind's buffer for a later retry.
    RolledBack(usize),
}

/// What one tick did, per kind: the observability signal the scheduler's
/// caller logs.
#[derive(Debug, Clone, Copy, PartialEq, Eq, Structural)]
pub struct TickReport {
    pub visits: FlushOutcome,
    pub downloads: FlushOutcome,
}

impl<S: DataConnector> CacheData<S> {
    /// The sink the buffers flush to.
    pub closed spec fn sink(&self) -> S {
        self.implementation
    }

    /// The pending visits, as a multiset: insertion order is irrelevant to
    /// the downstream store.
    pub closed spec fn buffered_visits(&self) -> Multiset<Visit> {
        self.pending_visits@
    }

    /// The pending downloads, as a multiset.
    pub closed spec fn buffered_downloads(&self) -> Multiset<Download> {
        self.pending_downloads@
    }

    /// Whether some tick has already completed the sink's one-time setup.
    pub closed spec fn is_initialized(&self) -> bool {
        self.initialized
    }

    /// A fresh cache: empty buffers in front of the given sink, with the
    /// setup still to run.
    pub fn new(implementation: S) -> (db: CacheData<S>)
        ensures
            db.sink() == implementation,
            db.buffered_visits() == Multiset::<Visit>::empty(),
            db.buffered_downloads() == Multiset::<Download>::empty(),
            !db.is_initialized(),
    {
        CacheData {
            implementation,
            pending_visits: VisitBuffer::new(),
            pending_downloads: DownloadBuffer::new(),
            initialized: false,
        }
    }

    /// Accepts one visit: fire and forget. It never fails, never blocks on
    /// a flush, and leaves everything but the visit buffer untouched.
    pub fn insert_visit(&mut self, visit: Visit) -> (r: Result<(), AriadneErrors>)
        ensures
            r is Ok,
            final(self).buffered_visits() == old(self).buffered_visits().insert(visit),
            final(self).buffered_downloads() == old(self).buffered_downloads(),
            final(self).sink() == old(self).sink(),
            final(self).is_initialized() == old(self).is_initialized(),
    {
        self.pending_visits.push(visit);
        Ok(())
    }

    /// Accepts one download: fire and forget, the visits' counterpart.
    pub fn insert_download(&mut self, download: Download) -> (r: Result<(), AriadneErrors>)
        ensures
            r is Ok,
            final(self).buffered_downloads() == old(self).buffered_downloads().insert(download),
            final(self).buffered_visits() == old(self).buffered_visits(),
            final(self).sink() == old(self).sink(),
            final(self).is_initialized() == old(self).is_initialized(),
    {
        self.pending_downloads.push(download);
        Ok(())
    }

    /// Reads the sink, for inspecting what a test's store received.
    pub fn sink_ref(&self) -> (r: &S)
        ensures
            *r == self.sink(),
    {
        &self.implementation
    }

    /// How many visits are pending.
    pub fn pending_visit_count(&self) -> (n: usize)
        ensures
            n == self.buffered_visits().len(),
    {
        self.pending_visits.len()
    }

    /// How many downloads are pending.
    pub fn pending_download_count(&self) -> (n: usize)
        ensures
            n == self.buffered_downloads().len(),
    {
        self.pending_downloads.len()
    }
}

/// Everything the cache accounts for in one kind: still pending, or already
/// stored by the sink. No tick may shrink it — that is the no-loss
/// guarantee.
pub open spec fn accounted_visits<S: DataConnector>(db: CacheData<S>) -> Multiset<Visit> {
    db.buffered_visits().add(db.sink().stored_visits())
}

/// The downloads' counterpart of `accounted_visits`.
pub open spec fn accounted_downloads<S: DataConnector>(db: CacheData<S>) -> Multiset<Download> {
    db.buffered_downloads().add(db.sink().stored_downloads())
}

/// One operation's initialization discipline, which every tick keeps: an
/// engine that is initialized stays initialized, and its sink's one-time
/// setup is never invoked again.
pub open spec fn preserves_initialization<S: DataConnector>(
    pre: CacheData<S>,
    post: CacheData<S>,
) -> bool {
    pre.is_initialized() ==> post.is_initialized() && post.sink().init_calls()
        == pre.sink().init_calls()
}

/// The no-loss law. Every operation of the core conserves the accounted
/// visits (`sync` and `insert_visit` say so in their contracts), and
/// conservation composes: over any run of the engine — states chained by
/// pushes and ticks in any order, flush failures included — a record once
/// accounted for is still accounted for when the run ends, present in the
/// pending buffer or in the store.
pub proof fn lemma_no_loss_visits<S: DataConnector>(
    states: Seq<CacheData<S>>,
    i: int,
    visit: Visit,
)
    requires
        0 <= i < states.len(),
        forall|j: int|
            0 <= j < states.len() - 1 ==> #[trigger] accounted_visits(states[j]).subset_of(
                accounted_visits(states[j + 1]),
            ),
        accounted_visits(states[i]).count(visit) > 0,
    ensures
        accounted_visits(states.last()).count(visit) > 0,
    decreases states.len() - i,
{
    if i < states.len() - 1 {
        assert(accounted_visits(states[i]).subset_of(accounted_visits(states[i + 1])));
        lemma_no_loss_visits(states, i + 1, visit);
    }
}

/// The no-loss law for downloads, the visits' counterpart.
pub proof fn lemma_no_loss_downloads<S: DataConnector>(
    states: Seq<CacheData<S>>,
    i: int,
    download: Download,
)
    requires
        0 <= i < states.len(),
        forall|j: int|
            0 <= j < states.len() - 1 ==> #[trigger] accounted_downloads(states[j]).subset_of(
                accounted_downloads(states[j + 1]),
            ),
        accounted_downloads(states[i]).count(download) > 0,
    ensures
        accounted_downloads(states.last()).count(download) > 0,
    decreases states.len() - i,
{
    if i < states.len() - 1 {
        assert(accounted_downloads(states[i]).subset_of(accounted_downloads(states[i + 1])));
        lemma_no_loss_downloads(states, i + 1, download);
    }
}

/// The single-initialization law. Every tick preserves initialization
/// (`sync` says so in its contract), so over any run of ticks the sink's
/// one-time setup is never invoked again after the first tick that
/// completes it: from then on the call count stays what it was.
pub proof fn lemma_single_initialization<S: DataConnector>(states: Seq<CacheData<S>>, i: int)
    requires
        0 <= i < states.len(),
        forall|j: int|
            0 <= j < states.len() - 1 ==> #[trigger] preserves_initialization(
                states[j],
                states[j + 1],
            ),
        states[i].is_initialized(),
    ensures
        states.last().is_initialized(),
        states.last().sink().init_calls() == states[i].sink().init_calls(),
    decreases states.len() - i,
{
    if i < states.len() - 1 {
        assert(preserves_initialization(states[i], states[i + 1]));
        lemma_single_initialization(states, i + 1);
    }
}

/// A failed one-time setup aborts the tick before any buffer is drained:
/// the one extra `initialize` call is the only trace it leaves.
pub open spec fn tick_aborted<S: DataConnector>(pre: CacheData<S>, post: CacheData<S>) -> bool {
    &&& !pre.is_initialized()
    &&& !post.is_initialized()
    &&& post.sink().init_calls() == pre.sink().init_calls() + 1
    &&& post.buffered_visits() == pre.buffered_visits()
    &&& post.buffered_downloads() == pre.buffered_downloads()
    &&& post.sink().stored_visits() == pre.sink().stored_visits()
    &&& post.sink().stored_downloads() == pre.sink().stored_downloads()
    &&& post.sink().visit_calls() == pre.sink().visit_calls()
    &&& post.sink().download_calls() == pre.sink().download_calls()
}

/// How one completed tick settles the visits, independently of how the
/// downloads fared. An empty buffer means the sink is not called at all;
/// otherwise exactly one batch holding everything that was pending is
/// submitted, and it is either stored whole or re-queued whole.
pub open spec fn visits_settled<S: DataConnector>(
    pre: CacheData<S>,
    post: CacheData<S>,
    outcome: FlushOutcome,
) -> bool {
    if pre.buffered_visits().len() == 0 {
        &&& outcome == FlushOutcome::Skipped
        &&& post.sink().visit_calls() == pre.sink().visit_calls()
        &&& post.sink().stored_visits() == pre.sink().stored_visits()
        &&& post.buffered_visits() == pre.buffered_visits()
    } else {
        &&& post.sink().visit_calls() == pre.sink().visit_calls().push(pre.buffered_visits())
        &&& match outcome {
            FlushOutcome::Skipped => false,
            FlushOutcome::Flushed(count) => {
                &&& count == pre.buffered_visits().len()
                &&& post.buffered_visits() == Multiset::<Visit>::empty()
                &&& post.sink().stored_visits() == pre.sink().stored_visits().add(
                    pre.buffered_visits(),
                )
            },
            FlushOutcome::RolledBack(count) => {
                &&& count == pre.buffered_visits().len()
                &&& post.buffered_visits() == pre.buffered_visits()
                &&& pre.sink().stored_visits().subset_of(post.sink().stored_visits())
                &&& post.sink().stored_visits().subset_of(
                    pre.sink().stored_visits().add(pre.buffered_visits()),
                )
            },
        }
    }
}

/// The downloads' counterpart of `visits_settled`.
pub open spec fn downloads_settled<S: DataConnector>(
    pre: CacheData<S>,
    post: CacheData<S>,
    outcome: FlushOutcome,
) -> bool {
    if pre.buffered_downloads().len() == 0 {
        &&& outcome == FlushOutcome::Skipped
        &&& post.sink().download_calls() == pre.sink().download_calls()
        &&& post.sink().stored_downloads() == pre.sink().stored_downloads()
        &&& post.buffered_downloads() == pre.buffered_downloads()
    } else {
        &&& post.sink().download_calls() == pre.sink().download_calls().push(
            pre.buffered_downloads(),
        )
        &&& match outcome {
            FlushOutcome::Skipped => false,
            FlushOutcome::Flushed(count) => {
                &&& count == pre.buffered_downloads().len()
                &&& post.buffered_downloads() == Multiset::<Download>::empty()
                &&& post.sink().stored_downloads() == pre.sink().stored_downloads().add(
                    pre.buffered_downloads(),
                )
            },
            FlushOutcome::RolledBack(count) => {
                &&& count == pre.buffered_downloads().len()
                &&& post.buffered_downloads() == pre.buffered_downloads()
                &&& pre.sink().stored_downloads().subset_of(post.sink().stored_downloads())
                &&& post.sink().stored_downloads().subset_of(
                    pre.sink().stored_downloads().add(pre.buffered_downloads()),
                )
            },
        }
    }
}

/// Pushes every record of a failed batch back into its buffer, in any
/// order: the batch is re-queued whole, never a subset.
fn rollback_visits(buffer: &mut VisitBuffer, batch: Vec<Visit>)
    ensures
        final(buffer)@ == old(buffer)@.add(batch@.to_multiset()),
{
    let mut rest = batch;
    loop
        invariant
            buffer@.add(rest@.to_multiset()) == old(buffer)@.add(batch@.to_multiset()),
        ensures
            buffer@ == old(buffer)@.add(batch@.to_multiset()),
        decreases rest@.len(),
    {
        let ghost rest_before = rest@;
        let ghost buffer_before = buffer@;
        match rest.pop() {
            Some(visit) => {
                buffer.push(visit);
                proof {
                    assert(rest_before =~= rest@.push(visit));
                    assert(rest_before.to_multiset() =~= rest@.to_multiset().insert(visit));
                    assert(buffer@.add(rest@.to_multiset()) =~= buffer_before.add(
                        rest_before.to_multiset(),
                    ));
                }
            },
            None => {
                proof {
                    assert(rest@.to_multiset() =~= Multiset::<Visit>::empty());
                    assert(buffer@.add(rest@.to_multiset()) =~= buffer@);
                }
                break ;
            },
        }
    }
}

/// The downloads' counterpart of `rollback_visits`.
fn rollback_downloads(buffer: &mut DownloadBuffer, batch: Vec<Download>)
    ensures
        final(buffer)@ == old(buffer)@.add(batch@.to_multiset()),
{
    let mut rest = batch;
    loop
        invariant
            buffer@.add(rest@.to_multiset()) == old(buffer)@.add(batch@.to_multiset()),
        ensures
            buffer@ == old(buffer)@.add(batch@.to_multiset()),
        decreases rest@.len(),
    {
        let ghost rest_before = rest@;
        let ghost buffer_before = buffer@;
        match rest.pop() {
            Some(download) => {
                buffer.push(download);
                proof {
                    assert(rest_before =~= rest@.push(download));
                    assert(rest_before.to_multiset() =~= rest@.to_multiset().insert(download));
                    assert(buffer@.add(rest@.to_multiset()) =~= buffer_before.add(
                        rest_before.to_multiset(),
                    ));
                }
            },
            None => {
                proof {
                    assert(rest@.to_multiset() =~= Multiset::<Download>::empty());
                    assert(buffer@.add(rest@.to_multiset()) =~= buffer@);
                }
                break ;
            },
        }
    }
}

/// One scheduler tick. In order: the sink's one-time setup, run only by the
/// first tick to observe it missing, aborting the tick when it fails; then,
/// independently for each kind, drain the kind's buffer and, unless it was
/// empty, submit the batch, rolling it back whole into the buffer when the
/// sink refuses it. A flush failure is contained in the report and never
/// raised to the caller; whatever happens, no record is lost.
pub fn sync<S: DataConnector>(db: &mut CacheData<S>) -> (r: Result<TickReport, AriadneErrors>)
    ensures
        preserves_initialization(*old(db), *final(db)),
        final(db).sink().init_calls() <= old(db).sink().init_calls() + 1,
        r is Ok ==> final(db).is_initialized(),
        !old(db).is_initialized() ==> final(db).sink().init_calls() == old(db).sink().init_calls()
            + 1,
        r is Err ==> tick_aborted(*old(db), *final(db)),
        r matches Ok(report) ==> visits_settled(*old(db), *final(db), report.visits),
        r matches Ok(report) ==> downloads_settled(*old(db), *final(db), report.downloads),
        accounted_visits(*old(db)).subset_of(accounted_visits(*final(db))),
        accounted_downloads(*old(db)).subset_of(accounted_downloads(*final(db))),
{
    if !db.initialized {
        match db.implementation.initialize() {
            Ok(_) => {
                db.initialized = true;
            },
            Err(e) => {
                return Err(e);
            },
        }
    }
    let visits = db.pending_visits.drain_all();
    let visits_outcome: FlushOutcome;
    if visits.len() == 0 {
        proof {
            assert(old(db).buffered_visits() =~= Multiset::<Visit>::empty());
        }
        visits_outcome = FlushOutcome::Skipped;
    } else {
        match db.implementation.insert_mass_visits(&visits) {
            Ok(_) => {
                visits_outcome = FlushOutcome::Flushed(visits.len());
            },
            Err(_) => {
                let count = visits.len();
                rollback_visits(&mut db.pending_visits, visits);
                proof {
                    assert(db.buffered_visits() =~= old(db).buffered_visits());
                }
                visits_outcome = FlushOutcome::RolledBack(count);
            },
        }
    }
    let downloads = db.pending_downloads.drain_all();
    let downloads_outcome: FlushOutcome;
    if downloads.len() == 0 {
        proof {
            assert(old(db).buffered_downloads() =~= Multiset::<Download>::empty());
        }
        downloads_outcome = FlushOutcome::Skipped;
    } else {
        match db.implementation.insert_mass_downloads(&downloads) {
            Ok(_) => {
                downloads_outcome = FlushOutcome::Flushed(downloads.len());
            },
            Err(_) => {
                let count = downloads.len();
                rollback_downloads(&mut db.pending_downloads, downloads);
                proof {
                    assert(db.buffered_downloads() =~= old(db).buffered_downloads());
                }
                downloads_outcome = FlushOutcome::RolledBack(count);
            },
        }
    }
    Ok(TickReport { visits: visits_outcome, downloads: downloads_outcome })
}

} // verus!
