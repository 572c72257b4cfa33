//! The scheduling of a batch run: the files of a directory are submitted in
//! listing order with at most `MAX_IN_FLIGHT` submissions under way at once.
//! The caller performs each submission and reports its outcome.
use vstd::prelude::*;

verus! {

/// The most submissions a batch run has under way at once.
pub const MAX_IN_FLIGHT: usize = 5;

/// What a batch run does next.
#[derive(Debug, Clone, PartialEq, Eq)]
pub enum BatchStep {
    /// Start submitting this file.
    Start(String),
    /// Wait for a submission under way to finish.
    Wait,
    /// Every file has been submitted, successfully or not.
    Done,
}

/// The counts of a finished (or unfinished) batch run.
#[derive(Debug, Copy, Clone, PartialEq, Eq, Structural)]
pub struct Summary {
    pub submitted: usize,
    pub failed: usize,
}

/// The state of a batch run as plain values.
pub struct BatchView {
    /// The files, in the order in which they are started.
    pub files: Seq<Seq<char>>,
    /// How many of them have been started.
    pub started: nat,
    /// How many started submissions have not finished.
    pub in_flight: nat,
    pub submitted: nat,
    pub failed: nat,
}

impl BatchView {
    /// At most `MAX_IN_FLIGHT` under way; each started file is under way,
    /// submitted or failed.
    pub open spec fn wf(self) -> bool {
        &&& self.in_flight <= MAX_IN_FLIGHT
        &&& self.started <= self.files.len()
        &&& self.submitted + self.failed + self.in_flight == self.started
    }
}

/// The state of a batch run.
pub struct BatchScheduler {
    files: Vec<String>,
    started: usize,
    submitted: usize,
    failed: usize,
}

impl View for BatchScheduler {
    type V = BatchView;

    closed spec fn view(&self) -> BatchView {
        BatchView {
            files: self.files@.map_values(|f: String| f@),
            started: self.started as nat,
            in_flight: (self.started - self.submitted - self.failed) as nat,
            submitted: self.submitted as nat,
            failed: self.failed as nat,
        }
    }
}

impl BatchScheduler {
    #[verifier::type_invariant]
    closed spec fn inv(self) -> bool {
        &&& self.submitted + self.failed <= self.started
        &&& self.started <= self.files@.len()
        &&& self.started - self.submitted - self.failed <= MAX_IN_FLIGHT
    }

    /// A run over `files`, none started yet.
    pub fn new(files: Vec<String>) -> (r: BatchScheduler)
        ensures
            r@.files == files@.map_values(|f: String| f@),
            r@.started == 0,
            r@.in_flight == 0,
            r@.submitted == 0,
            r@.failed == 0,
    {
        BatchScheduler { files, started: 0, submitted: 0, failed: 0 }
    }

    /// How many submissions are under way.
    pub fn in_flight(&self) -> (r: usize)
        ensures
            r == self@.in_flight,
            r <= MAX_IN_FLIGHT,
    {
        proof {
            use_type_invariant(self);
        }
        self.started - self.submitted - self.failed
    }

    /// Decides what to do next: start the next file while fewer than
    /// `MAX_IN_FLIGHT` are under way, else wait while any is under way, else
    /// the run is done. Starting one never takes the count above the ceiling.
    pub fn next_step(&mut self) -> (r: BatchStep)
        ensures
            final(self)@.wf(),
            final(self)@.files == old(self)@.files,
            final(self)@.submitted == old(self)@.submitted,
            final(self)@.failed == old(self)@.failed,
            old(self)@.started < old(self)@.files.len() && old(self)@.in_flight < MAX_IN_FLIGHT ==> {
                &&& r matches BatchStep::Start(f)
                &&& f@ == old(self)@.files[old(self)@.started as int]
                &&& final(self)@.started == old(self)@.started + 1
                &&& final(self)@.in_flight == old(self)@.in_flight + 1
            },
            !(old(self)@.started < old(self)@.files.len() && old(self)@.in_flight < MAX_IN_FLIGHT)
                ==> {
                &&& final(self)@ == old(self)@
                &&& (r is Wait <==> old(self)@.in_flight > 0)
                &&& (r is Done <==> old(self)@.in_flight == 0)
            },
            r is Done ==> final(self)@.submitted + final(self)@.failed == final(self)@.files.len(),
            final(self)@.in_flight <= MAX_IN_FLIGHT,
    {
        proof {
            use_type_invariant(&*self);
        }
        let in_flight = self.started - self.submitted - self.failed;
        if self.started < self.files.len() && in_flight < MAX_IN_FLIGHT {
            let f = self.files[self.started].clone();
            self.started = self.started + 1;
            BatchStep::Start(f)
        } else if in_flight > 0 {
            BatchStep::Wait
        } else {
            BatchStep::Done
        }
    }

    /// Records that a submission under way finished, successfully or not.
    /// Where none is under way it changes nothing and returns `false`.
    pub fn complete(&mut self, success: bool) -> (r: bool)
        ensures
            r == (old(self)@.in_flight > 0),
            final(self)@.wf(),
            final(self)@.files == old(self)@.files,
            final(self)@.started == old(self)@.started,
            r ==> final(self)@.in_flight == old(self)@.in_flight - 1,
            r && success ==> final(self)@.submitted == old(self)@.submitted + 1
                && final(self)@.failed == old(self)@.failed,
            r && !success ==> final(self)@.failed == old(self)@.failed + 1
                && final(self)@.submitted == old(self)@.submitted,
            !r ==> final(self)@ == old(self)@,
    {
        proof {
            use_type_invariant(&*self);
        }
        if self.started - self.submitted - self.failed == 0 {
            return false;
        }
        if success {
            self.submitted = self.submitted + 1;
        } else {
            self.failed = self.failed + 1;
        }
        true
    }

    /// The counts so far.
    pub fn summary(&self) -> (r: Summary)
        ensures
            r.submitted == self@.submitted,
            r.failed == self@.failed,
    {
        Summary { submitted: self.submitted, failed: self.failed }
    }
}

} // verus!
