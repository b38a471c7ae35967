//! Driving a script: the host performs one step at a time and reports how it
//! went; the runner decides what comes next and what the command returns.

use crate::script::Step;
use vstd::prelude::*;

verus! {

/// What the host reports after performing a step.
#[derive(PartialEq, Eq, Debug)]
pub enum Outcome {
    /// The step was carried out.
    Done,
    /// The step read this text (from the clipboard).
    Text(String),
    /// The step failed with this message.
    Failed(String),
}

/// An outcome as a mathematical value.
pub enum OutcomeView {
    Done,
    Text(Seq<char>),
    Failed(Seq<char>),
}

impl View for Outcome {
    type V = OutcomeView;

    open spec fn view(&self) -> OutcomeView {
        match self {
            Outcome::Done => OutcomeView::Done,
            Outcome::Text(t) => OutcomeView::Text(t@),
            Outcome::Failed(e) => OutcomeView::Failed(e@),
        }
    }
}

/// The state of a run: its script, how many steps have been reported on,
/// the text read last, and the failure that ended it, if any.
pub struct RunView {
    pub steps: Seq<Step>,
    pub next: nat,
    pub read: Option<Seq<char>>,
    pub failure: Option<Seq<char>>,
}

/// A run of `steps` before anything was performed.
pub open spec fn start(steps: Seq<Step>) -> RunView {
    RunView { steps, next: 0, read: None, failure: None }
}

/// A run waits for a step to be performed while no step has failed and
/// steps remain.
pub open spec fn is_pending(r: RunView) -> bool {
    r.failure is None && r.next < r.steps.len()
}

/// A run after the host reported `o` on its pending step; a run that waits
/// for nothing ignores reports.
pub open spec fn absorb(r: RunView, o: OutcomeView) -> RunView {
    if !is_pending(r) {
        r
    } else {
        match o {
            OutcomeView::Done => RunView { next: r.next + 1, ..r },
            OutcomeView::Text(t) => RunView { next: r.next + 1, read: Some(t), ..r },
            OutcomeView::Failed(e) => RunView { next: r.next + 1, failure: Some(e), ..r },
        }
    }
}

/// A run of `steps` after the host reported `answers`, in order.
pub open spec fn replay(steps: Seq<Step>, answers: Seq<OutcomeView>) -> RunView
    decreases answers.len(),
{
    if answers.len() == 0 {
        start(steps)
    } else {
        absorb(replay(steps, answers.drop_last()), answers.last())
    }
}

/// What a finished run returns: the first failure's message, or else the
/// text read last (none when the script reads nothing).
pub open spec fn verdict(r: RunView) -> Result<Option<Seq<char>>, Seq<char>> {
    match r.failure {
        Some(e) => Err(e),
        None => Ok(r.read),
    }
}

/// A run never gets past its script, and takes at most one step per report.
pub proof fn lemma_replay_bounds(steps: Seq<Step>, answers: Seq<OutcomeView>)
    ensures
        replay(steps, answers).steps == steps,
        replay(steps, answers).next <= steps.len(),
        replay(steps, answers).next <= answers.len(),
    decreases answers.len(),
{
    if answers.len() > 0 {
        lemma_replay_bounds(steps, answers.drop_last());
    }
}

/// When the first step fails, the run stops there: nothing after it is
/// performed.
pub proof fn lemma_first_failure_stops(steps: Seq<Step>, answers: Seq<OutcomeView>)
    requires
        steps.len() > 0,
        answers.len() > 0,
        answers[0] is Failed,
    ensures
        replay(steps, answers).next == 1,
        replay(steps, answers).failure is Some,
    decreases answers.len(),
{
    if answers.len() == 1 {
        assert(answers.drop_last().len() == 0);
    } else {
        let shorter = answers.drop_last();
        assert(shorter[0] is Failed);
        lemma_first_failure_stops(steps, shorter);
    }
}

/// A script without steps ignores every report.
pub proof fn lemma_empty_script(answers: Seq<OutcomeView>)
    ensures
        replay(Seq::empty(), answers) == start(Seq::empty()),
    decreases answers.len(),
{
    if answers.len() > 0 {
        lemma_empty_script(answers.drop_last());
    }
}

/// The text of an optional string.
pub open spec fn opt_text(s: Option<String>) -> Option<Seq<char>> {
    match s {
        Some(t) => Some(t@),
        None => None,
    }
}

/// One command in progress.
pub struct Runner {
    steps: Vec<Step>,
    next: usize,
    read: Option<String>,
    failure: Option<String>,
}

impl View for Runner {
    type V = RunView;

    closed spec fn view(&self) -> RunView {
        RunView {
            steps: self.steps@,
            next: self.next as nat,
            read: opt_text(self.read),
            failure: opt_text(self.failure),
        }
    }
}

impl Runner {
    /// A run of `steps`, nothing performed yet.
    pub fn new(steps: Vec<Step>) -> (r: Runner)
        ensures
            r@ == start(steps@),
    {
        Runner { steps, next: 0, read: None, failure: None }
    }

    /// The step that the host is to perform now, if the run waits for one.
    pub fn pending(&self) -> (r: Option<&Step>)
        ensures
            r is Some == is_pending(self@),
            r is Some ==> *r->0 == self@.steps[self@.next as int],
    {
        if self.failure.is_none() && self.next < self.steps.len() {
            Some(&self.steps[self.next])
        } else {
            None
        }
    }

    /// Takes the host's report on the pending step.
    pub fn record(&mut self, o: Outcome)
        ensures
            final(self)@ == absorb(old(self)@, o@),
    {
        if self.failure.is_none() && self.next < self.steps.len() {
            match o {
                Outcome::Done => {},
                Outcome::Text(t) => {
                    self.read = Some(t);
                },
                Outcome::Failed(e) => {
                    self.failure = Some(e);
                },
            }
            self.next = self.next + 1;
        }
    }

    /// What the command returns, once the run waits for nothing.
    pub fn finish(self) -> (r: Result<Option<String>, String>)
        requires
            !is_pending(self@),
        ensures
            r matches Ok(t) ==> verdict(self@) == Ok::<Option<Seq<char>>, Seq<char>>(opt_text(t)),
            r matches Err(e) ==> verdict(self@) == Err::<Option<Seq<char>>, Seq<char>>(e@),
    {
        match self.failure {
            Some(e) => Err(e),
            None => Ok(self.read),
        }
    }
}

} // verus!
