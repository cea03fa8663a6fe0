//! The run: one listing after the other through the workflow, until enough
//! applications are in or the selection is used up; then the final counts,
//! and the session is closed.

use crate::model::{Action, Command, Event, RunState};
use crate::pacing::{Chance, Pacing};
use crate::selector::{is_selection, select_listings, RunConfig};
use crate::workflow::Workflow;
use crate::workflow_laws::{lemma_report_means_finished, lemma_step_descends};
use vstd::prelude::*;

verus! {

/// What the run is busy with.
#[derive(Clone, Copy, Debug, PartialEq, Eq, Structural)]
pub enum Phase {
    /// Nothing has happened yet.
    Ready,
    /// A listing is going through the workflow.
    Working(Workflow),
    /// A listing has just been reported and counted.
    Reported,
    /// The final counts have been handed out.
    Summarised,
    /// The session is being closed.
    Closing,
    /// The run is over.
    Halted,
}

/// A run, as the contracts see it.
pub struct RunView {
    pub max_applications: usize,
    /// The selected listings, in the order in which they are examined.
    pub candidates: Seq<usize>,
    pub state: RunState,
    pub phase: Phase,
}

impl RunView {
    pub open spec fn spec_new(max_applications: usize, candidates: Seq<usize>) -> RunView {
        RunView { max_applications, candidates, state: RunState::spec_fresh(), phase: Phase::Ready }
    }

    /// What holds of every run: no more applications than allowed, no more
    /// listings examined than selected, and a workflow under way belongs to
    /// the next listing of the selection.
    pub open spec fn wf(self) -> bool {
        &&& self.state.applied <= self.max_applications
        &&& self.state.applied <= self.state.examined
        &&& self.state.examined <= self.candidates.len()
        &&& self.candidates.len() <= usize::MAX
        &&& self.phase matches Phase::Working(w) ==> {
            &&& self.state.examined < self.candidates.len()
            &&& self.state.applied < self.max_applications
            &&& w.index == self.candidates[self.state.examined as int]
            &&& w.has_applied == (self.state.applied > 0)
            &&& !w.is_finished()
        }
    }

    /// How many listings the workflow has been begun for so far.
    pub open spec fn begun(self) -> nat {
        if self.phase is Working {
            (self.state.examined + 1) as nat
        } else {
            self.state.examined as nat
        }
    }

    /// The run may take another listing: the bound on applications is not
    /// reached and the selection is not used up.
    pub open spec fn may_continue(self) -> bool {
        self.state.applied < self.max_applications && self.state.examined < self.candidates.len()
    }

    pub open spec fn with_phase(self, phase: Phase) -> RunView {
        RunView { phase, ..self }
    }

    /// Begins the workflow for the next listing, or winds the run up.
    pub open spec fn next_candidate(self) -> (RunView, Action) {
        if self.may_continue() {
            let start = Workflow::spec_begin(
                self.candidates[self.state.examined as int],
                self.state.applied > 0,
            );
            (self.with_phase(Phase::Working(start.0)), start.1)
        } else {
            (self.with_phase(Phase::Summarised), Action::Summary(self.state))
        }
    }

    /// The chance that the next step leaves to a coin, if any.
    pub open spec fn spec_chance(self) -> Option<Chance> {
        match self.phase {
            Phase::Working(w) => w.spec_chance(),
            _ => None,
        }
    }

    /// The run and the action that follow when `event` comes in.
    ///
    /// While a listing is in the workflow, the run passes events on to it
    /// and its actions back. The workflow's report ends the listing: it is
    /// counted, whatever the outcome, and passed on to the caller. An error
    /// is an outcome like any other; it never stops the run. After the last
    /// listing the run hands out its counts, asks for the session to be
    /// closed, and halts, each whatever came of the step before.
    pub open spec fn spec_step(self, event: Event, coin: bool) -> (RunView, Action) {
        match self.phase {
            Phase::Ready => self.next_candidate(),
            Phase::Reported => self.next_candidate(),
            Phase::Working(w) => {
                let (next, action) = w.spec_step(event, coin);
                match action {
                    Action::Report(_, outcome) => (
                        RunView {
                            state: self.state.spec_record(outcome),
                            phase: Phase::Reported,
                            ..self
                        },
                        action,
                    ),
                    _ => (self.with_phase(Phase::Working(next)), action),
                }
            },
            Phase::Summarised => (self.with_phase(Phase::Closing), Action::Close),
            Phase::Closing => (self.with_phase(Phase::Halted), Action::Halt),
            Phase::Halted => (self, Action::Halt),
        }
    }

    /// The run after all of `inputs` have come in, in order. An input is an
    /// event and the coin that goes with it.
    pub open spec fn spec_run(self, inputs: Seq<(Event, bool)>) -> RunView
        decreases inputs.len(),
    {
        if inputs.len() == 0 {
            self
        } else {
            let last = inputs.last();
            self.spec_run(inputs.drop_last()).spec_step(last.0, last.1).0
        }
    }

    /// The action that answers the input at position `at`.
    pub open spec fn spec_answer(self, inputs: Seq<(Event, bool)>, at: int) -> Action
        recommends
            0 <= at < inputs.len(),
    {
        self.spec_run(inputs.take(at)).spec_step(inputs[at].0, inputs[at].1).1
    }

    /// The step on this input begins the workflow for a listing.
    pub open spec fn begins(self, event: Event, coin: bool) -> bool {
        !(self.phase is Working) && self.spec_step(event, coin).0.phase is Working
    }

    /// How many times the workflow is begun while `inputs` come in.
    pub open spec fn spec_begun_in(self, inputs: Seq<(Event, bool)>) -> nat
        decreases inputs.len(),
    {
        if inputs.len() == 0 {
            0
        } else {
            let last = inputs.last();
            let before = self.spec_run(inputs.drop_last());
            self.spec_begun_in(inputs.drop_last()) + if before.begins(last.0, last.1) {
                1nat
            } else {
                0nat
            }
        }
    }

    /// An upper bound on the inputs that the run still takes before it
    /// halts: twenty-eight for each listing not yet begun, the rank of the
    /// workflow under way, and three to wind up.
    pub open spec fn remaining(self) -> nat {
        let left = (self.candidates.len() - self.state.examined) as nat;
        match self.phase {
            Phase::Halted => 0,
            Phase::Closing => 1,
            Phase::Summarised => 2,
            Phase::Ready => 3 + 28 * left,
            Phase::Reported => 3 + 28 * left,
            Phase::Working(w) => (3 + 28 * (left - 1) + w.stage.rank()) as nat,
        }
    }

    /// `next` and `command` are what one step with drawn numbers may give:
    /// the step that `spec_step` describes for a coin that the pacing
    /// permits, with the numbers of its action drawn within the pacing.
    pub open spec fn advances(
        self,
        event: Event,
        coin: bool,
        pacing: Pacing,
        next: RunView,
        command: Command,
    ) -> bool {
        &&& pacing.permits(self.spec_chance(), coin)
        &&& next == self.spec_step(event, coin).0
        &&& pacing.realises(self.spec_step(event, coin).1, command)
    }
}

/// A run of the bot. It owns the counters; nothing else changes them.
pub struct Run {
    max_applications: usize,
    candidates: Vec<usize>,
    state: RunState,
    phase: Phase,
}

impl View for Run {
    type V = RunView;

    closed spec fn view(&self) -> RunView {
        RunView {
            max_applications: self.max_applications,
            candidates: self.candidates@,
            state: self.state,
            phase: self.phase,
        }
    }
}

impl Run {
    #[verifier::type_invariant]
    spec fn well_formed(self) -> bool {
        self@.wf()
    }

    /// A run over `candidates`, in that order, that stops once
    /// `config`'s bound on applications is reached.
    pub fn new(config: &RunConfig, candidates: Vec<usize>) -> (run: Run)
        ensures
            run@ == RunView::spec_new(config.max(), candidates@),
            run@.wf(),
    {
        let max_applications = config.max_applications();
        assert(candidates@.len() <= usize::MAX) by {
            assert(candidates@.len() == candidates.len());
        }
        Run { max_applications, candidates, state: RunState::fresh(), phase: Phase::Ready }
    }

    /// The counters as they stand.
    pub fn state(&self) -> (state: RunState)
        ensures
            state == self@.state,
            state.applied <= self@.max_applications,
            state.applied <= state.examined <= self@.candidates.len(),
    {
        proof {
            use_type_invariant(self);
        }
        self.state
    }

    pub fn phase(&self) -> (phase: Phase)
        ensures
            phase == self@.phase,
    {
        self.phase
    }

    pub fn max_applications(&self) -> (bound: usize)
        ensures
            bound == self@.max_applications,
    {
        self.max_applications
    }

    /// The selected listings, in the order in which they are examined.
    pub fn candidates(&self) -> (candidates: &Vec<usize>)
        ensures
            candidates@ == self@.candidates,
    {
        &self.candidates
    }

    /// Whether the run is over.
    pub fn halted(&self) -> (halted: bool)
        ensures
            halted == (self@.phase is Halted),
    {
        matches!(self.phase, Phase::Halted)
    }

    /// The chance that the next step leaves to a coin, if any.
    pub fn chance(&self) -> (chance: Option<Chance>)
        ensures
            chance == self@.spec_chance(),
    {
        match self.phase {
            Phase::Working(w) => w.chance(),
            _ => None,
        }
    }

    fn next_candidate(self) -> (next: (Run, Action))
        requires
            !(self@.phase is Working),
        ensures
            (next.0@, next.1) == self@.next_candidate(),
    {
        proof {
            use_type_invariant(&self);
        }
        if self.state.applied < self.max_applications && self.state.examined
            < self.candidates.len() {
            let (workflow, action) = Workflow::begin(
                self.candidates[self.state.examined],
                self.state.applied > 0,
            );
            (
                Run {
                    max_applications: self.max_applications,
                    candidates: self.candidates,
                    state: self.state,
                    phase: Phase::Working(workflow),
                },
                action,
            )
        } else {
            let summary = Action::Summary(self.state);
            (
                Run {
                    max_applications: self.max_applications,
                    candidates: self.candidates,
                    state: self.state,
                    phase: Phase::Summarised,
                },
                summary,
            )
        }
    }

    fn with_phase(self, phase: Phase) -> (run: Run)
        requires
            !(phase is Working),
        ensures
            run@ == self@.with_phase(phase),
    {
        proof {
            use_type_invariant(&self);
        }
        Run {
            max_applications: self.max_applications,
            candidates: self.candidates,
            state: self.state,
            phase,
        }
    }

    /// Takes one step: `event` is what came of the last action, `coin` the
    /// toss for the chance that `chance` names. The first step of a run
    /// takes any event.
    pub fn step(self, event: &Event, coin: bool) -> (next: (Run, Action))
        ensures
            (next.0@, next.1) == self@.spec_step(*event, coin),
            self@.wf(),
            next.0@.wf(),
    {
        proof {
            use_type_invariant(&self);
        }
        let next = match self.phase {
            Phase::Ready => self.next_candidate(),
            Phase::Reported => self.next_candidate(),
            Phase::Working(workflow) => {
                let (next, action) = workflow.step(event, coin);
                proof {
                    lemma_report_means_finished(workflow, *event, coin);
                    lemma_step_descends(workflow, *event, coin);
                }
                match action {
                    Action::Report(_, outcome) => {
                        let state = self.state.record(outcome);
                        (
                            Run {
                                max_applications: self.max_applications,
                                candidates: self.candidates,
                                state,
                                phase: Phase::Reported,
                            },
                            action,
                        )
                    },
                    _ => (
                        Run {
                            max_applications: self.max_applications,
                            candidates: self.candidates,
                            state: self.state,
                            phase: Phase::Working(next),
                        },
                        action,
                    ),
                }
            },
            Phase::Summarised => (self.with_phase(Phase::Closing), Action::Close),
            Phase::Closing => (self.with_phase(Phase::Halted), Action::Halt),
            Phase::Halted => (self, Action::Halt),
        };
        proof {
            use_type_invariant(&next.0);
        }
        next
    }

    /// Takes one step with the dice of `pacing`: tosses the coin where the
    /// step leaves something to chance, and draws the seconds of a wait and
    /// the pixels of a scroll. Which numbers come up is open; the result is
    /// one that `advances` admits.
    pub fn advance(self, event: &Event, pacing: &Pacing) -> (next: (Run, Command))
        ensures
            exists|coin: bool| #[trigger]
                self@.advances(*event, coin, *pacing, next.0@, next.1),
            self@.wf(),
            next.0@.wf(),
    {
        let ghost before = self@;
        let coin = pacing.toss(self.chance());
        let (run, action) = self.step(event, coin);
        let command = pacing.realise(action);
        let next = (run, command);
        assert(before.advances(*event, coin, *pacing, next.0@, next.1));
        next
    }
}

/// Sets a run up for a results page that shows `listing_count` listings:
/// makes the selection and puts it in a fresh run. `None` stands for a page
/// that could not be reached; the run then has nothing to examine and goes
/// straight to its summary and to closing the session.
pub fn launch(config: &RunConfig, listing_count: Option<usize>) -> (run: Run)
    ensures
        run@.max_applications == config.max(),
        run@.state == RunState::spec_fresh(),
        run@.phase == Phase::Ready,
        run@.wf(),
        match listing_count {
            Some(count) => is_selection(run@.candidates, count as nat, config.max() as nat),
            None => run@.candidates.len() == 0,
        },
{
    let candidates = match listing_count {
        Some(count) => select_listings(count, config),
        None => Vec::new(),
    };
    Run::new(config, candidates)
}

} // verus!
