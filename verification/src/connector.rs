pub mod cache_data;
pub mod memory;

use vstd::prelude::*;

use crate::error::AriadneErrors;
use crate::models::download::Download;
use crate::models::visit::Visit;
use vstd::multiset::Multiset;

verus! {

/// Statically checks that a value's type can move between threads.
pub fn test_send<S>(ty: &S) where S: Send {
}

/// The narrow storage-sink capability set the core depends on. A connector
/// is described by five abstractions: what it durably stores, per kind; the
/// batches it has been handed, per kind; and how often its one-time setup
/// was invoked. Its errors are opaque to the core beyond success or
/// failure.
pub trait DataConnector: Sized {
    /// The records of each kind the store durably holds. Stored copies are
    /// counted with multiplicity: a batch that failed midway and was
    /// retried may be counted twice, which the core tolerates. A connector
    /// the verifier never reads (the production driver) may leave these
    /// descriptions at their unspecified defaults; a verified connector
    /// gives them meaning.
    open spec fn stored_visits(&self) -> Multiset<Visit> {
        arbitrary()
    }

    open spec fn stored_downloads(&self) -> Multiset<Download> {
        arbitrary()
    }

    /// Every batch of each kind ever submitted through `insert_mass_visits`
    /// or `insert_mass_downloads`, in order, whether it succeeded or not.
    open spec fn visit_calls(&self) -> Seq<Multiset<Visit>> {
        arbitrary()
    }

    open spec fn download_calls(&self) -> Seq<Multiset<Download>> {
        arbitrary()
    }

    /// How often `initialize` was invoked.
    open spec fn init_calls(&self) -> nat {
        arbitrary()
    }

    /// One-time store setup (schema creation). It stores and submits
    /// nothing; whether it succeeds is the connector's own affair.
    fn initialize(&mut self) -> (r: Result<(), AriadneErrors>)
        ensures
            final(self).init_calls() == old(self).init_calls() + 1,
            final(self).stored_visits() == old(self).stored_visits(),
            final(self).stored_downloads() == old(self).stored_downloads(),
            final(self).visit_calls() == old(self).visit_calls(),
            final(self).download_calls() == old(self).download_calls(),
    ;

    /// Submits one non-empty batch of visits. On success the whole batch is
    /// stored. On failure the store may still have kept any part of the
    /// batch (a batch insert is not atomic), but never loses what it
    /// already held, and never touches the other kind.
    fn insert_mass_visits(&mut self, visits: &Vec<Visit>) -> (r: Result<(), AriadneErrors>)
        requires
            visits@.len() > 0,
        ensures
            final(self).visit_calls() == old(self).visit_calls().push(visits@.to_multiset()),
            final(self).download_calls() == old(self).download_calls(),
            final(self).stored_downloads() == old(self).stored_downloads(),
            final(self).init_calls() == old(self).init_calls(),
            r is Ok ==> final(self).stored_visits() == old(self).stored_visits().add(
                visits@.to_multiset(),
            ),
            r is Err ==> old(self).stored_visits().subset_of(final(self).stored_visits())
                && final(self).stored_visits().subset_of(
                old(self).stored_visits().add(visits@.to_multiset()),
            ),
    ;

    /// Submits one non-empty batch of downloads; the visits' counterpart.
    fn insert_mass_downloads(&mut self, downloads: &Vec<Download>) -> (r: Result<
        (),
        AriadneErrors,
    >)
        requires
            downloads@.len() > 0,
        ensures
            final(self).download_calls() == old(self).download_calls().push(
                downloads@.to_multiset(),
            ),
            final(self).visit_calls() == old(self).visit_calls(),
            final(self).stored_visits() == old(self).stored_visits(),
            final(self).init_calls() == old(self).init_calls(),
            r is Ok ==> final(self).stored_downloads() == old(self).stored_downloads().add(
                downloads@.to_multiset(),
            ),
            r is Err ==> old(self).stored_downloads().subset_of(final(self).stored_downloads())
                && final(self).stored_downloads().subset_of(
                old(self).stored_downloads().add(downloads@.to_multiset()),
            ),
    ;
}

} // verus!
