use vstd::prelude::*;

use crate::connector::DataConnector;
use crate::error::AriadneErrors;
use crate::models::download::Download;
use crate::models::visit::Visit;
use vstd::multiset::Multiset;

verus! {

broadcast use vstd::multiset::group_multiset_axioms, vstd::seq_lib::group_to_multiset_ensures;

/// An in-memory connector: it records every batch it is handed and keeps
/// accepted records in plain vectors. Failures are injected through the
/// counters, which make the next so many calls of a capability fail;
/// `commit_on_failure` makes a failing insert keep its batch anyway, the
/// way a non-atomic store can partially commit a batch it reports as
/// failed.
pub struct MemoryConnector {
    /// Every visit the store accepted, with multiplicity.
    pub visits: Vec<Visit>,
    /// Every download the store accepted, with multiplicity.
    pub downloads: Vec<Download>,
    /// Every visit batch ever submitted, in order, failed ones included.
    pub visit_batches: Vec<Vec<Visit>>,
    /// Every download batch ever submitted, in order, failed ones included.
    pub download_batches: Vec<Vec<Download>>,
    /// One entry per `initialize` call: whether that call succeeded.
    pub initializations: Vec<bool>,
    /// How many upcoming `initialize` calls fail.
    pub init_failures: u64,
    /// How many upcoming visit inserts fail.
    pub visit_failures: u64,
    /// How many upcoming download inserts fail.
    pub download_failures: u64,
    /// Whether a failing insert nevertheless keeps its batch.
    pub commit_on_failure: bool,
}

/// A field-for-field copy of a batch, equal to the original.
fn copy_visits(src: &Vec<Visit>) -> (r: Vec<Visit>)
    ensures
        r@ == src@,
{
    let mut r: Vec<Visit> = Vec::new();
    let mut i: usize = 0;
    while i < src.len()
        invariant
            i <= src@.len(),
            r@ == src@.subrange(0, i as int),
        decreases src@.len() - i,
    {
        r.push(src[i].duplicate());
        i = i + 1;
        proof {
            assert(r@ =~= src@.subrange(0, i as int));
        }
    }
    proof {
        assert(src@.subrange(0, src@.len() as int) =~= src@);
    }
    r
}

/// A field-for-field copy of a batch, equal to the original.
fn copy_downloads(src: &Vec<Download>) -> (r: Vec<Download>)
    ensures
        r@ == src@,
{
    let mut r: Vec<Download> = Vec::new();
    let mut i: usize = 0;
    while i < src.len()
        invariant
            i <= src@.len(),
            r@ == src@.subrange(0, i as int),
        decreases src@.len() - i,
    {
        r.push(src[i].duplicate());
        i = i + 1;
        proof {
            assert(r@ =~= src@.subrange(0, i as int));
        }
    }
    proof {
        assert(src@.subrange(0, src@.len() as int) =~= src@);
    }
    r
}

impl MemoryConnector {
    /// A fresh store: nothing recorded, nothing failing.
    pub fn new() -> (c: MemoryConnector)
        ensures
            c.stored_visits() == Multiset::<Visit>::empty(),
            c.stored_downloads() == Multiset::<Download>::empty(),
            c.visit_calls() == Seq::<Multiset<Visit>>::empty(),
            c.download_calls() == Seq::<Multiset<Download>>::empty(),
            c.init_calls() == 0,
            c.init_failures == 0,
            c.visit_failures == 0,
            c.download_failures == 0,
            !c.commit_on_failure,
    {
        let c = MemoryConnector {
            visits: Vec::new(),
            downloads: Vec::new(),
            visit_batches: Vec::new(),
            download_batches: Vec::new(),
            initializations: Vec::new(),
            init_failures: 0,
            visit_failures: 0,
            download_failures: 0,
            commit_on_failure: false,
        };
        proof {
            assert(c.stored_visits() =~= Multiset::<Visit>::empty());
            assert(c.stored_downloads() =~= Multiset::<Download>::empty());
            assert(c.visit_calls() =~= Seq::<Multiset<Visit>>::empty());
            assert(c.download_calls() =~= Seq::<Multiset<Download>>::empty());
        }
        c
    }

    /// How many batches of visits this store was handed.
    pub fn visit_batch_count(&self) -> (n: usize)
        ensures
            n == self.visit_calls().len(),
    {
        self.visit_batches.len()
    }

    /// How many batches of downloads this store was handed.
    pub fn download_batch_count(&self) -> (n: usize)
        ensures
            n == self.download_calls().len(),
    {
        self.download_batches.len()
    }

    /// How many visits the store holds, duplicates counted.
    pub fn stored_visit_count(&self) -> (n: usize)
        ensures
            n == self.stored_visits().len(),
    {
        self.visits.len()
    }

    /// How many downloads the store holds, duplicates counted.
    pub fn stored_download_count(&self) -> (n: usize)
        ensures
            n == self.stored_downloads().len(),
    {
        self.downloads.len()
    }

    /// How often `initialize` was called.
    pub fn initialize_count(&self) -> (n: usize)
        ensures
            n == self.init_calls(),
    {
        self.initializations.len()
    }
}

impl DataConnector for MemoryConnector {
    open spec fn stored_visits(&self) -> Multiset<Visit> {
        self.visits@.to_multiset()
    }

    open spec fn stored_downloads(&self) -> Multiset<Download> {
        self.downloads@.to_multiset()
    }

    open spec fn visit_calls(&self) -> Seq<Multiset<Visit>> {
        self.visit_batches@.map_values(|b: Vec<Visit>| b@.to_multiset())
    }

    open spec fn download_calls(&self) -> Seq<Multiset<Download>> {
        self.download_batches@.map_values(|b: Vec<Download>| b@.to_multiset())
    }

    open spec fn init_calls(&self) -> nat {
        self.initializations@.len()
    }

    fn initialize(&mut self) -> (r: Result<(), AriadneErrors>)
        ensures
            r is Ok <==> old(self).init_failures == 0,
            old(self).init_failures > 0 ==> final(self).init_failures == old(self).init_failures
                - 1,
            old(self).init_failures == 0 ==> final(self).init_failures == 0,
    {
        if self.init_failures > 0 {
            self.init_failures = self.init_failures - 1;
            self.initializations.push(false);
            Err(AriadneErrors::Database)
        } else {
            self.initializations.push(true);
            Ok(())
        }
    }

    fn insert_mass_visits(&mut self, visits: &Vec<Visit>) -> (r: Result<(), AriadneErrors>)
        ensures
            r is Ok <==> old(self).visit_failures == 0,
            old(self).visit_failures > 0 ==> final(self).visit_failures == old(self).visit_failures
                - 1,
            old(self).visit_failures == 0 ==> final(self).visit_failures == 0,
            r is Err ==> final(self).stored_visits() == if old(self).commit_on_failure {
                old(self).stored_visits().add(visits@.to_multiset())
            } else {
                old(self).stored_visits()
            },
    {
        let ghost batches0 = self.visit_batches@;
        let record = copy_visits(visits);
        self.visit_batches.push(record);
        proof {
            let to_batch = |b: Vec<Visit>| b@.to_multiset();
            assert(self.visit_batches@.map_values(to_batch) =~= batches0.map_values(
                to_batch,
            ).push(visits@.to_multiset()));
        }
        if self.visit_failures > 0 {
            self.visit_failures = self.visit_failures - 1;
            if self.commit_on_failure {
                let ghost stored0 = self.visits@;
                let mut kept = copy_visits(visits);
                self.visits.append(&mut kept);
                proof {
                    vstd::seq_lib::lemma_multiset_commutative(stored0, visits@);
                }
            }
            Err(AriadneErrors::Database)
        } else {
            let ghost stored0 = self.visits@;
            let mut kept = copy_visits(visits);
            self.visits.append(&mut kept);
            proof {
                vstd::seq_lib::lemma_multiset_commutative(stored0, visits@);
            }
            Ok(())
        }
    }

    fn insert_mass_downloads(&mut self, downloads: &Vec<Download>) -> (r: Result<
        (),
        AriadneErrors,
    >)
        ensures
            r is Ok <==> old(self).download_failures == 0,
            old(self).download_failures > 0 ==> final(self).download_failures == old(
                self,
            ).download_failures - 1,
            old(self).download_failures == 0 ==> final(self).download_failures == 0,
            r is Err ==> final(self).stored_downloads() == if old(self).commit_on_failure {
                old(self).stored_downloads().add(downloads@.to_multiset())
            } else {
                old(self).stored_downloads()
            },
    {
        let ghost batches0 = self.download_batches@;
        let record = copy_downloads(downloads);
        self.download_batches.push(record);
        proof {
            let to_batch = |b: Vec<Download>| b@.to_multiset();
            assert(self.download_batches@.map_values(to_batch) =~= batches0.map_values(
                to_batch,
            ).push(downloads@.to_multiset()));
        }
        if self.download_failures > 0 {
            self.download_failures = self.download_failures - 1;
            if self.commit_on_failure {
                let ghost stored0 = self.downloads@;
                let mut kept = copy_downloads(downloads);
                self.downloads.append(&mut kept);
                proof {
                    vstd::seq_lib::lemma_multiset_commutative(stored0, downloads@);
                }
            }
            Err(AriadneErrors::Database)
        } else {
            let ghost stored0 = self.downloads@;
            let mut kept = copy_downloads(downloads);
            self.downloads.append(&mut kept);
            proof {
                vstd::seq_lib::lemma_multiset_commutative(stored0, downloads@);
            }
            Ok(())
        }
    }
}

} // verus!
