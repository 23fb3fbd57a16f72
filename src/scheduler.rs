use vstd::prelude::*;
use crate::record::{CacheEntry, ExtractionError};

verus! {

/// The decisions of the extraction stage.
///
/// The candidates are started in their order, never more than `limit` at a
/// time; each completion, success or failure, is reported back with
/// [`Scheduler::finish`]. Completions may come in any order. The first failure
/// ends the run: nothing more is started, later outcomes are ignored, and the
/// run yields that error and no records.
pub struct Scheduler {
    candidates: Vec<String>,
    limit: usize,
    started: usize,
    in_flight: usize,
    completed: usize,
    entries: Vec<CacheEntry>,
    failure: Option<ExtractionError>,
}

impl Scheduler {
    /// The candidate paths, in the order in which they are started.
    pub closed spec fn candidates(&self) -> Seq<Seq<char>> {
        self.candidates@.map_values(|p: String| p@)
    }

    /// The largest number of extractions in flight at once.
    pub closed spec fn limit(&self) -> nat {
        self.limit as nat
    }

    /// How many candidates have been started.
    pub closed spec fn started(&self) -> nat {
        self.started as nat
    }

    /// How many started extractions have not completed yet.
    pub closed spec fn in_flight(&self) -> nat {
        self.in_flight as nat
    }

    /// How many extractions have completed, successfully or not.
    pub closed spec fn completed(&self) -> nat {
        self.completed as nat
    }

    /// The records collected so far, in the order of completion.
    pub closed spec fn entries(&self) -> Seq<CacheEntry> {
        self.entries@
    }

    /// The failure that ended the run, if one did.
    pub closed spec fn failure(&self) -> Option<ExtractionError> {
        self.failure
    }

    /// The bookkeeping holds together: at least one extraction may run, no
    /// more than `limit` run at once, every started extraction is either in
    /// flight or completed, and before a failure each completion gave a record.
    pub closed spec fn wf(&self) -> bool {
        &&& self.limit >= 1
        &&& self.started <= self.candidates.len()
        &&& self.in_flight <= self.limit
        &&& self.completed + self.in_flight == self.started
        &&& self.entries.len() <= self.completed
        &&& self.failure is None ==> self.entries.len() == self.completed
    }

    /// Whether the run is over: it failed, or every candidate has completed.
    pub open spec fn done(&self) -> bool {
        self.failure() is Some || (self.started() == self.candidates().len() && self.in_flight()
            == 0)
    }

    /// A run that is over without a failure has collected one record for
    /// each candidate.
    pub proof fn lemma_successful_run_is_complete(&self)
        requires
            self.wf(),
            self.done(),
            self.failure() is None,
        ensures
            self.entries().len() == self.candidates().len(),
    {
    }

    /// At no point are more than `limit` extractions in flight.
    pub proof fn lemma_in_flight_bounded(&self)
        requires
            self.wf(),
        ensures
            self.in_flight() <= self.limit(),
            self.completed() + self.in_flight() == self.started(),
            self.started() <= self.candidates().len(),
    {
    }

    /// A scheduler for `candidates` that runs at most `limit` extractions at once.
    pub fn new(candidates: Vec<String>, limit: usize) -> (r: Scheduler)
        requires
            limit >= 1,
        ensures
            r.wf(),
            r.candidates() == candidates@.map_values(|p: String| p@),
            r.limit() == limit,
            r.started() == 0,
            r.in_flight() == 0,
            r.completed() == 0,
            r.entries() == Seq::<CacheEntry>::empty(),
            r.failure() is None,
    {
        Scheduler {
            candidates,
            limit,
            started: 0,
            in_flight: 0,
            completed: 0,
            entries: Vec::new(),
            failure: None,
        }
    }

    /// The number of candidates.
    pub fn total(&self) -> (r: usize)
        requires
            self.wf(),
        ensures
            r == self.candidates().len(),
    {
        self.candidates.len()
    }

    /// The number of completed extractions.
    pub fn completed_count(&self) -> (r: usize)
        requires
            self.wf(),
        ensures
            r == self.completed(),
    {
        self.completed
    }

    /// The number of extractions in flight.
    pub fn in_flight_count(&self) -> (r: usize)
        requires
            self.wf(),
        ensures
            r == self.in_flight(),
    {
        self.in_flight
    }

    /// Whether the run is over.
    pub fn is_done(&self) -> (r: bool)
        requires
            self.wf(),
        ensures
            r == self.done(),
    {
        self.failure.is_some() || (self.started == self.candidates.len() && self.in_flight == 0)
    }

    /// The next candidate to extract, if one may start now: the run has not
    /// failed, fewer than `limit` extractions are in flight and some candidate
    /// has not been started. Otherwise nothing changes.
    pub fn start_next(&mut self) -> (r: Option<String>)
        requires
            old(self).wf(),
        ensures
            final(self).wf(),
            final(self).candidates() == old(self).candidates(),
            final(self).limit() == old(self).limit(),
            final(self).completed() == old(self).completed(),
            final(self).entries() == old(self).entries(),
            final(self).failure() == old(self).failure(),
            if old(self).failure() is None && old(self).in_flight() < old(self).limit()
                && old(self).started() < old(self).candidates().len() {
                &&& r is Some
                &&& r->0@ == old(self).candidates()[old(self).started() as int]
                &&& final(self).started() == old(self).started() + 1
                &&& final(self).in_flight() == old(self).in_flight() + 1
            } else {
                &&& r is None
                &&& final(self).started() == old(self).started()
                &&& final(self).in_flight() == old(self).in_flight()
            },
    {
        if self.failure.is_none() && self.in_flight < self.limit && self.started
            < self.candidates.len() {
            let p = self.candidates[self.started].clone();
            self.started = self.started + 1;
            self.in_flight = self.in_flight + 1;
            Some(p)
        } else {
            None
        }
    }

    /// Records the outcome of one extraction in flight. Before any failure, a
    /// record is collected and an error ends the run; after one, the outcome
    /// is only counted.
    pub fn finish(&mut self, outcome: Result<CacheEntry, ExtractionError>)
        requires
            old(self).wf(),
            old(self).in_flight() > 0,
        ensures
            final(self).wf(),
            final(self).candidates() == old(self).candidates(),
            final(self).limit() == old(self).limit(),
            final(self).started() == old(self).started(),
            final(self).in_flight() == old(self).in_flight() - 1,
            final(self).completed() == old(self).completed() + 1,
            match (old(self).failure(), outcome) {
                (None, Ok(e)) => final(self).entries() == old(self).entries().push(e)
                    && final(self).failure() is None,
                (None, Err(e)) => final(self).entries() == old(self).entries()
                    && final(self).failure() == Some(e),
                (Some(_), _) => final(self).entries() == old(self).entries()
                    && final(self).failure() == old(self).failure(),
            },
    {
        self.in_flight = self.in_flight - 1;
        self.completed = self.completed + 1;
        if self.failure.is_none() {
            match outcome {
                Ok(e) => self.entries.push(e),
                Err(e) => self.failure = Some(e),
            }
        }
    }

    /// What the run yields: the first failure, or else every record collected.
    pub fn into_outcome(self) -> (r: Result<Vec<CacheEntry>, ExtractionError>)
        requires
            self.wf(),
        ensures
            match self.failure() {
                Some(e) => r == Err::<Vec<CacheEntry>, ExtractionError>(e),
                None => r is Ok && r->Ok_0@ == self.entries(),
            },
    {
        match self.failure {
            Some(e) => Err(e),
            None => Ok(self.entries),
        }
    }
}

} // verus!
