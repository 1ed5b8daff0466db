//! The registry of rebuild jobs: at most one live job per destination, and a
//! bounded history of the jobs that have ended.
use vstd::prelude::*;

use crate::rebuild_error::RebuildError;
use crate::rebuild_stats::HistoryRecord;

verus! {

/// What a registry holds: the live jobs by destination, and the history.
pub struct RegistryView<J> {
    /// The destination URIs of the live jobs, in the order of their arrival.
    pub uris: Seq<Seq<char>>,
    /// The live jobs, each at the index of its destination.
    pub jobs: Seq<J>,
    /// The records of the jobs that have ended, oldest first.
    pub history: Seq<HistoryRecord>,
    /// The largest number of records that are kept.
    pub depth: nat,
}

impl<J> RegistryView<J> {
    /// The invariant of a registry: one job for each destination, no
    /// destination twice, and no more records than the depth allows.
    pub open spec fn wf(self) -> bool {
        &&& self.uris.len() == self.jobs.len()
        &&& forall|i: int, j: int|
            0 <= i < self.uris.len() && 0 <= j < self.uris.len() && i != j ==> self.uris[i]
                != self.uris[j]
        &&& self.history.len() <= self.depth
    }

    /// Whether a live job exists for the destination `uri`.
    pub open spec fn contains(self, uri: Seq<char>) -> bool {
        exists|i: int| 0 <= i < self.uris.len() && #[trigger] self.uris[i] == uri
    }

    /// Whether `job` is the live job for the destination `uri`.
    pub open spec fn holds(self, uri: Seq<char>, job: J) -> bool {
        exists|i: int|
            0 <= i < self.uris.len() && i < self.jobs.len() && #[trigger] self.uris[i] == uri
                && self.jobs[i] == job
    }

    /// What an insertion for the destination `uri` answers: `AlreadyExists`
    /// when a live job exists for it.
    pub open spec fn insert_result(self, uri: Seq<char>) -> Result<(), RebuildError> {
        if self.contains(uri) {
            Err(RebuildError::AlreadyExists)
        } else {
            Ok(())
        }
    }

    /// The registry after an insertion of `job` for the destination `uri`:
    /// unchanged when a live job exists for it.
    pub open spec fn inserted(self, uri: Seq<char>, job: J) -> RegistryView<J> {
        if self.contains(uri) {
            self
        } else {
            RegistryView { uris: self.uris.push(uri), jobs: self.jobs.push(job), ..self }
        }
    }

    /// The registry without the live job at index `i`.
    pub open spec fn without(self, i: int) -> RegistryView<J> {
        RegistryView { uris: self.uris.remove(i), jobs: self.jobs.remove(i), ..self }
    }

    /// The registry after the record `rec` has entered the history: when the
    /// history is full, its oldest record leaves.
    pub open spec fn recorded(self, rec: HistoryRecord) -> RegistryView<J> {
        if self.depth == 0 {
            self
        } else if self.history.len() < self.depth {
            RegistryView { history: self.history.push(rec), ..self }
        } else {
            RegistryView {
                history: self.history.subrange(1, self.history.len() as int).push(rec),
                ..self
            }
        }
    }
}

/// The registry of the rebuild jobs of a process, by destination URI.
pub struct Registry<J> {
    uris: Vec<String>,
    jobs: Vec<J>,
    history: Vec<HistoryRecord>,
    depth: usize,
}

impl<J> View for Registry<J> {
    type V = RegistryView<J>;

    closed spec fn view(&self) -> RegistryView<J> {
        RegistryView {
            uris: Seq::new(self.uris@.len(), |i: int| self.uris@[i]@),
            jobs: self.jobs@,
            history: self.history@,
            depth: self.depth as nat,
        }
    }
}

impl<J> Registry<J> {
    /// The invariant of the registry.
    pub open spec fn wf(&self) -> bool {
        self@.wf()
    }

    /// An empty registry that keeps the records of the last `depth` jobs.
    pub fn new(depth: usize) -> (r: Self)
        ensures
            r.wf(),
            r@.uris.len() == 0,
            r@.jobs.len() == 0,
            r@.history.len() == 0,
            r@.depth == depth,
    {
        Registry { uris: Vec::new(), jobs: Vec::new(), history: Vec::new(), depth }
    }

    /// Number of live jobs.
    pub fn len(&self) -> (r: usize)
        ensures
            r == self@.jobs.len(),
    {
        self.jobs.len()
    }

    /// Index of the live job for the destination `dst_uri`.
    fn find(&self, dst_uri: &String) -> (r: Option<usize>)
        requires
            self.wf(),
        ensures
            match r {
                Some(i) => i < self@.uris.len() && self@.uris[i as int] == dst_uri@,
                None => !self@.contains(dst_uri@),
            },
    {
        let mut i: usize = 0;
        while i < self.uris.len()
            invariant
                i <= self.uris@.len(),
                forall|j: int| 0 <= j < i ==> #[trigger] self@.uris[j] != dst_uri@,
            decreases self.uris@.len() - i,
        {
            if self.uris[i] == *dst_uri {
                return Some(i);
            }
            i += 1;
        }
        None
    }

    /// Whether a live job exists for the destination `dst_uri`.
    pub fn contains(&self, dst_uri: &String) -> (r: bool)
        requires
            self.wf(),
        ensures
            r == self@.contains(dst_uri@),
    {
        self.find(dst_uri).is_some()
    }

    /// The live job for the destination `dst_uri`, if there is one.
    pub fn lookup(&self, dst_uri: &String) -> (r: Option<&J>)
        requires
            self.wf(),
        ensures
            match r {
                Some(job) => self@.holds(dst_uri@, *job),
                None => !self@.contains(dst_uri@),
            },
    {
        match self.find(dst_uri) {
            Some(i) => {
                assert(self@.uris[i as int] == dst_uri@ && self@.jobs[i as int] == self.jobs@[i as int]);
                Some(&self.jobs[i])
            },
            None => None,
        }
    }

    /// Enters `job` as the live job for the destination `dst_uri`. Another
    /// live job for the same destination is an error: `AlreadyExists`, and the
    /// registry stays as it is.
    pub fn insert(&mut self, dst_uri: String, job: J) -> (r: Result<(), RebuildError>)
        requires
            old(self).wf(),
        ensures
            final(self).wf(),
            r == old(self)@.insert_result(dst_uri@),
            final(self)@ == old(self)@.inserted(dst_uri@, job),
    {
        if self.find(&dst_uri).is_some() {
            return Err(RebuildError::AlreadyExists);
        }
        self.uris.push(dst_uri);
        self.jobs.push(job);
        proof {
            assert(self@.uris =~= old(self)@.uris.push(dst_uri@));
            assert forall|i: int, j: int|
                0 <= i < self@.uris.len() && 0 <= j < self@.uris.len() && i != j implies self@.uris[i]
                != self@.uris[j] by {
                if i < old(self)@.uris.len() {
                    assert(old(self)@.uris[i] == self@.uris[i]);
                }
                if j < old(self)@.uris.len() {
                    assert(old(self)@.uris[j] == self@.uris[j]);
                }
            }
        }
        Ok(())
    }

    /// Takes the live job for the destination `dst_uri` out of the registry.
    pub fn remove(&mut self, dst_uri: &String) -> (r: Option<J>)
        requires
            old(self).wf(),
        ensures
            final(self).wf(),
            !final(self)@.contains(dst_uri@),
            match r {
                Some(job) => exists|i: int|
                    0 <= i < old(self)@.uris.len() && #[trigger] old(self)@.uris[i] == dst_uri@
                        && old(self)@.jobs[i] == job && final(self)@ == old(self)@.without(i),
                None => !old(self)@.contains(dst_uri@) && final(self)@ == old(self)@,
            },
    {
        match self.find(dst_uri) {
            Some(i) => {
                self.uris.remove(i);
                let job = self.jobs.remove(i);
                proof {
                    let before = old(self)@;
                    assert(self@.uris =~= before.uris.remove(i as int));
                    assert(self@ == before.without(i as int));
                    assert forall|a: int, b: int|
                        0 <= a < self@.uris.len() && 0 <= b < self@.uris.len() && a
                            != b implies self@.uris[a] != self@.uris[b] by {
                        let a0 = if a < i { a } else { a + 1 };
                        let b0 = if b < i { b } else { b + 1 };
                        assert(self@.uris[a] == before.uris[a0]);
                        assert(self@.uris[b] == before.uris[b0]);
                    }
                    assert forall|a: int| 0 <= a < self@.uris.len() implies #[trigger] self@.uris[a]
                        != dst_uri@ by {
                        let a0 = if a < i { a } else { a + 1 };
                        assert(self@.uris[a] == before.uris[a0]);
                    }
                    assert(before.uris[i as int] == dst_uri@);
                }
                Some(job)
            },
            None => None,
        }
    }

    /// Enters the record of a job that has ended into the history. When the
    /// history is full, its oldest record leaves.
    pub fn record(&mut self, rec: HistoryRecord)
        requires
            old(self).wf(),
        ensures
            final(self).wf(),
            final(self)@ == old(self)@.recorded(rec),
    {
        if self.depth == 0 {
            return ;
        }
        if self.history.len() >= self.depth {
            assert(self.history@.remove(0) =~= self.history@.subrange(
                1,
                self.history@.len() as int,
            ));
            self.history.remove(0);
        }
        self.history.push(rec);
    }

    /// Ends the live job for the destination `dst_uri`: takes it out of the
    /// registry and enters `rec` into the history. Without a live job for the
    /// destination nothing changes.
    pub fn finish(&mut self, dst_uri: &String, rec: HistoryRecord) -> (r: Option<J>)
        requires
            old(self).wf(),
        ensures
            final(self).wf(),
            !final(self)@.contains(dst_uri@),
            match r {
                Some(job) => exists|i: int|
                    0 <= i < old(self)@.uris.len() && #[trigger] old(self)@.uris[i] == dst_uri@
                        && old(self)@.jobs[i] == job && final(self)@ == old(self)@.without(
                        i,
                    ).recorded(rec),
                None => !old(self)@.contains(dst_uri@) && final(self)@ == old(self)@,
            },
    {
        match self.remove(dst_uri) {
            Some(job) => {
                let ghost mid = self@;
                self.record(rec);
                proof {
                    assert(self@.uris == mid.uris);
                }
                Some(job)
            },
            None => None,
        }
    }

    /// The records of the jobs that have ended, oldest first.
    pub fn history(&self) -> (r: &Vec<HistoryRecord>)
        ensures
            r@ == self@.history,
    {
        &self.history
    }
}

/// Of two insertions for a destination without a live job, the first is
/// accepted and the second is refused with `AlreadyExists`; the live job is
/// the one of the first.
pub proof fn lemma_one_job_per_destination<J>(r: RegistryView<J>, uri: Seq<char>, a: J, b: J)
    requires
        r.wf(),
        !r.contains(uri),
    ensures
        r.insert_result(uri) == Ok::<(), RebuildError>(()),
        r.inserted(uri, a).wf(),
        r.inserted(uri, a).insert_result(uri) == Err::<(), RebuildError>(
            RebuildError::AlreadyExists,
        ),
        r.inserted(uri, a).inserted(uri, b) == r.inserted(uri, a),
        r.inserted(uri, a).holds(uri, a),
{
    let r1 = r.inserted(uri, a);
    assert(r1.uris[r.uris.len() as int] == uri);
    assert forall|i: int, j: int|
        0 <= i < r1.uris.len() && 0 <= j < r1.uris.len() && i != j implies r1.uris[i]
        != r1.uris[j] by {
        if i < r.uris.len() {
            assert(r.uris[i] == r1.uris[i]);
        }
        if j < r.uris.len() {
            assert(r.uris[j] == r1.uris[j]);
        }
    }
}

/// An insertion never disturbs the live jobs: whatever it answers, a
/// destination that had a live job still has it.
pub proof fn lemma_insert_keeps_jobs<J>(
    r: RegistryView<J>,
    uri: Seq<char>,
    job: J,
    other: Seq<char>,
    held: J,
)
    requires
        r.wf(),
        r.holds(other, held),
    ensures
        r.inserted(uri, job).holds(other, held),
{
    let i = choose|i: int|
        0 <= i < r.uris.len() && i < r.jobs.len() && #[trigger] r.uris[i] == other && r.jobs[i]
            == held;
    let r1 = r.inserted(uri, job);
    assert(r1.uris[i] == other && r1.jobs[i] == held);
}

/// Once the live job of a destination has left the registry, a new job for
/// that destination is accepted.
pub proof fn lemma_insert_after_removal<J>(r: RegistryView<J>, i: int)
    requires
        r.wf(),
        0 <= i < r.uris.len(),
    ensures
        r.without(i).wf(),
        r.without(i).insert_result(r.uris[i]) == Ok::<(), RebuildError>(()),
{
    let w = r.without(i);
    assert forall|a: int, b: int|
        0 <= a < w.uris.len() && 0 <= b < w.uris.len() && a != b implies w.uris[a]
        != w.uris[b] by {
        let a0 = if a < i { a } else { a + 1 };
        let b0 = if b < i { b } else { b + 1 };
        assert(w.uris[a] == r.uris[a0]);
        assert(w.uris[b] == r.uris[b0]);
    }
    assert forall|a: int| 0 <= a < w.uris.len() implies #[trigger] w.uris[a] != r.uris[i] by {
        let a0 = if a < i { a } else { a + 1 };
        assert(w.uris[a] == r.uris[a0]);
    }
}

/// The history never holds more records than its depth, and the newest record
/// is the last one.
pub proof fn lemma_history_bounded<J>(r: RegistryView<J>, rec: HistoryRecord)
    requires
        r.wf(),
    ensures
        r.recorded(rec).wf(),
        r.depth > 0 ==> r.recorded(rec).history.last() == rec,
        r.depth > 0 && r.history.len() == r.depth ==> r.recorded(rec).history.len() == r.depth,
{
}

} // verus!
