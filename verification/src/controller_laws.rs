//! What holds of every run, whatever the page answers and however the
//! coins fall.

use crate::controller::{Phase, RunView};
use crate::modal::{has_token, lemma_next_is_multi_step, next_token};
use crate::model::{Action, Event, Outcome};
use crate::workflow::Stage;
use crate::workflow_laws::{
    lemma_report_means_finished, lemma_step_descends, lemma_step_keeps_outcome,
};
use vstd::prelude::*;

verus! {

/// One step keeps a run well formed and never takes anything back: the
/// selection and the bound stay, the counters only grow, and they grow by
/// one listing at a time, exactly when the step passes on a report.
pub proof fn lemma_run_step(r: RunView, event: Event, coin: bool)
    requires
        r.wf(),
    ensures
        ({
            let (next, action) = r.spec_step(event, coin);
            &&& next.wf()
            &&& next.max_applications == r.max_applications
            &&& next.candidates == r.candidates
            &&& next.begun() == r.begun() + if r.begins(event, coin) {
                1nat
            } else {
                0nat
            }
            &&& next.remaining() < r.remaining() || r.phase is Halted
            &&& r.phase is Halted ==> next == r
            &&& match action {
                Action::Report(index, outcome) => {
                    &&& r.phase matches Phase::Working(w)
                    &&& index == w.index
                    &&& index == r.candidates[r.state.examined as int]
                    &&& next.state == r.state.spec_record(outcome)
                    &&& next.state.examined == r.state.examined + 1
                    &&& next.state.applied == r.state.applied + if outcome is Applied {
                        1int
                    } else {
                        0int
                    }
                    &&& next.phase is Reported
                },
                _ => next.state == r.state && !(next.phase is Reported),
            }
        }),
{
    if let Phase::Working(w) = r.phase {
        lemma_report_means_finished(w, event, coin);
        lemma_step_descends(w, event, coin);
    }
}

/// Running over `inputs` is stepping on the first and running over the
/// rest.
pub proof fn lemma_run_first(r: RunView, inputs: Seq<(Event, bool)>)
    requires
        inputs.len() > 0,
    ensures
        r.spec_run(inputs) == r.spec_step(inputs[0].0, inputs[0].1).0.spec_run(
            inputs.drop_first(),
        ),
    decreases inputs.len(),
{
    let first = r.spec_step(inputs[0].0, inputs[0].1).0;
    if inputs.len() == 1 {
        assert(inputs.drop_last() =~= Seq::<(Event, bool)>::empty());
        assert(inputs.drop_first() =~= Seq::<(Event, bool)>::empty());
        assert(r.spec_run(inputs.drop_last()) == r);
        assert(first.spec_run(inputs.drop_first()) == first);
    } else {
        lemma_run_first(r, inputs.drop_last());
        assert(inputs.drop_last().drop_first() =~= inputs.drop_first().drop_last());
        assert(inputs.drop_last()[0] == inputs[0]);
        assert(inputs.drop_first().last() == inputs.last());
    }
}

/// The answer to a later input is the answer that the run gives after its
/// first step.
pub proof fn lemma_answer_first(r: RunView, inputs: Seq<(Event, bool)>, at: int)
    requires
        0 < at < inputs.len(),
    ensures
        r.spec_answer(inputs, at) == r.spec_step(inputs[0].0, inputs[0].1).0.spec_answer(
            inputs.drop_first(),
            at - 1,
        ),
{
    lemma_run_first(r, inputs.take(at));
    assert(inputs.take(at).drop_first() =~= inputs.drop_first().take(at - 1));
    assert(inputs.take(at)[0] == inputs[0]);
    assert(inputs.drop_first()[at - 1] == inputs[at]);
}

/// The run never oversteps its bounds. Whatever comes in, it stays well
/// formed: the applications submitted never exceed the bound, and the
/// workflow is begun for no more listings than were selected. The number of
/// workflows begun along the way is counted input by input and is the
/// growth of `begun`.
pub proof fn law_run_stays_in_bounds(r: RunView, inputs: Seq<(Event, bool)>)
    requires
        r.wf(),
    ensures
        r.spec_run(inputs).wf(),
        r.spec_run(inputs).max_applications == r.max_applications,
        r.spec_run(inputs).candidates == r.candidates,
        r.spec_run(inputs).state.applied <= r.max_applications,
        r.spec_run(inputs).state.examined >= r.state.examined,
        r.spec_run(inputs).state.applied >= r.state.applied,
        r.begun() + r.spec_begun_in(inputs) == r.spec_run(inputs).begun(),
        r.begun() + r.spec_begun_in(inputs) <= r.candidates.len(),
    decreases inputs.len(),
{
    if inputs.len() > 0 {
        law_run_stays_in_bounds(r, inputs.drop_last());
        let last = inputs.last();
        lemma_run_step(r.spec_run(inputs.drop_last()), last.0, last.1);
    }
}

/// A run from scratch begins the workflow at most once for each selected
/// listing and never submits more applications than its bound.
pub proof fn law_fresh_run_stays_in_bounds(
    max_applications: usize,
    candidates: Seq<usize>,
    inputs: Seq<(Event, bool)>,
)
    requires
        candidates.len() <= usize::MAX,
    ensures
        ({
            let fresh = RunView::spec_new(max_applications, candidates);
            &&& fresh.spec_begun_in(inputs) <= candidates.len()
            &&& fresh.spec_run(inputs).state.applied <= max_applications
            &&& fresh.spec_run(inputs).state.examined <= fresh.spec_begun_in(inputs)
        }),
{
    law_run_stays_in_bounds(RunView::spec_new(max_applications, candidates), inputs);
}

/// Every run halts: each input brings it closer, and after as many inputs
/// as `remaining` counts it is over. A run from scratch takes at most three
/// inputs and twenty-eight for each selected listing.
pub proof fn law_run_halts(r: RunView, inputs: Seq<(Event, bool)>)
    requires
        r.wf(),
    ensures
        r.spec_run(inputs).remaining() + inputs.len() <= r.remaining() || r.spec_run(
            inputs,
        ).phase is Halted,
        inputs.len() >= r.remaining() ==> r.spec_run(inputs).phase is Halted,
    decreases inputs.len(),
{
    if inputs.len() > 0 {
        law_run_halts(r, inputs.drop_last());
        law_run_stays_in_bounds(r, inputs.drop_last());
        let last = inputs.last();
        lemma_run_step(r.spec_run(inputs.drop_last()), last.0, last.1);
    }
    law_run_stays_in_bounds(r, inputs);
    let end = r.spec_run(inputs);
    if let Phase::Working(w) = end.phase {
        lemma_step_descends(w, Event::Done, false);
    }
}

/// A run that is winding up has said so: once the counts are handed out
/// a `Summary` lies behind, and once the session is closing or the run has
/// halted a `Close` lies behind.
pub proof fn lemma_winding_up(r: RunView, inputs: Seq<(Event, bool)>, at: int)
    requires
        r.wf(),
        !(r.phase is Summarised || r.phase is Closing || r.phase is Halted),
        0 <= at <= inputs.len(),
    ensures
        r.spec_run(inputs.take(at)).phase is Summarised ==> exists|earlier: int|
            0 <= earlier < at && #[trigger] r.spec_answer(inputs, earlier) is Summary,
        r.spec_run(inputs.take(at)).phase is Closing || r.spec_run(inputs.take(at)).phase
            is Halted ==> exists|earlier: int|
            0 <= earlier < at && #[trigger] r.spec_answer(inputs, earlier) == Action::Close,
    decreases at,
{
    if at == 0 {
        assert(inputs.take(0) =~= Seq::<(Event, bool)>::empty());
    } else {
        lemma_winding_up(r, inputs, at - 1);
        assert(inputs.take(at).drop_last() =~= inputs.take(at - 1));
        assert(inputs.take(at).last() == inputs[at - 1]);
        let earlier_run = r.spec_run(inputs.take(at - 1));
        let now = r.spec_run(inputs.take(at));
        law_run_stays_in_bounds(r, inputs.take(at - 1));
        lemma_run_step(earlier_run, inputs[at - 1].0, inputs[at - 1].1);
        if now.phase is Summarised && !(earlier_run.phase is Summarised) {
            assert(r.spec_answer(inputs, at - 1) is Summary);
        }
        if now.phase is Closing {
            assert(r.spec_answer(inputs, at - 1) == Action::Close);
        }
        if now.phase is Halted && (earlier_run.phase is Closing || earlier_run.phase is Halted) {
            let behind = choose|earlier: int|
                0 <= earlier < at - 1 && #[trigger] r.spec_answer(inputs, earlier)
                    == Action::Close;
            assert(0 <= behind < at && r.spec_answer(inputs, behind) == Action::Close);
        }
    }
}

/// The session is closed on every way out. A run never says `Halt`
/// without having said `Close` before, and it never says `Close` without
/// having handed out its counts before.
pub proof fn law_session_is_closed(r: RunView, inputs: Seq<(Event, bool)>, at: int)
    requires
        r.wf(),
        !(r.phase is Summarised || r.phase is Closing || r.phase is Halted),
        0 <= at < inputs.len(),
    ensures
        r.spec_answer(inputs, at) == Action::Halt ==> exists|earlier: int|
            0 <= earlier < at && #[trigger] r.spec_answer(inputs, earlier) == Action::Close,
        r.spec_answer(inputs, at) == Action::Close ==> exists|earlier: int|
            0 <= earlier < at && #[trigger] r.spec_answer(inputs, earlier) is Summary,
{
    lemma_winding_up(r, inputs, at);
    law_run_stays_in_bounds(r, inputs.take(at));
    lemma_run_step(r.spec_run(inputs.take(at)), inputs[at].0, inputs[at].1);
}

/// The listings are taken in the order of the selection: a report names
/// the listing that stands in the selection at the number of listings
/// examined before it.
pub proof fn law_listings_are_taken_in_order(r: RunView, inputs: Seq<(Event, bool)>, at: int)
    requires
        r.wf(),
        0 <= at < inputs.len(),
        r.spec_answer(inputs, at) is Report,
    ensures
        r.spec_run(inputs.take(at)).state.examined < r.candidates.len(),
        r.spec_answer(inputs, at)->Report_0 == r.candidates[r.spec_run(
            inputs.take(at),
        ).state.examined as int],
        r.spec_run(inputs.take(at + 1)).state.examined == r.spec_run(
            inputs.take(at),
        ).state.examined + 1,
{
    law_run_stays_in_bounds(r, inputs.take(at));
    lemma_run_step(r.spec_run(inputs.take(at)), inputs[at].0, inputs[at].1);
    assert(inputs.take(at + 1).drop_last() =~= inputs.take(at));
    assert(inputs.take(at + 1).last() == inputs[at]);
}

/// How a run stands to a listing whose outcome was settled in the run
/// `origin`: still at work on it with nothing counted, or through with it
/// and the outcome counted, or further on.
pub open spec fn follows_listing(origin: RunView, outcome: Outcome, r: RunView) -> bool {
    &&& r.wf()
    &&& r.candidates == origin.candidates
    &&& r.max_applications == origin.max_applications
    &&& r.state.examined >= origin.state.examined
    &&& r.state.examined == origin.state.examined ==> {
        &&& r.state == origin.state
        &&& r.phase matches Phase::Working(w)
        &&& w.stage.settled() == Some(outcome)
    }
    &&& r.state.examined == origin.state.examined + 1 ==> r.state.applied
        == origin.state.spec_record(outcome).applied
}

/// One step of a run that follows a listing follows it still, and a
/// report of that listing names the settled outcome.
pub proof fn lemma_follows_step(
    origin: RunView,
    outcome: Outcome,
    r: RunView,
    event: Event,
    coin: bool,
)
    requires
        origin.wf(),
        follows_listing(origin, outcome, r),
    ensures
        follows_listing(origin, outcome, r.spec_step(event, coin).0),
        r.state.examined == origin.state.examined && r.spec_step(event, coin).1 is Report
            ==> r.spec_step(event, coin).1 == Action::Report(
            origin.candidates[origin.state.examined as int],
            outcome,
        ),
{
    lemma_run_step(r, event, coin);
    if r.state.examined == origin.state.examined {
        let w = r.phase->Working_0;
        lemma_step_keeps_outcome(w, event, coin, outcome);
        lemma_report_means_finished(w, event, coin);
    }
}

/// A listing whose outcome is settled is counted as that outcome, once.
/// While the run is at work on the listing the counters stand still; the
/// report that ends it names the settled outcome; and until the listing
/// after it has been reported, the applications stand at what counting that
/// outcome gives. After as many inputs as the workflow's rank the listing
/// has been reported.
pub proof fn law_settled_listing_is_counted(
    r: RunView,
    outcome: Outcome,
    inputs: Seq<(Event, bool)>,
)
    requires
        r.wf(),
        r.phase matches Phase::Working(w) && w.stage.settled() == Some(outcome),
    ensures
        follows_listing(r, outcome, r.spec_run(inputs)),
        forall|at: int|
            0 <= at < inputs.len() && r.spec_run(inputs.take(at)).state.examined
                == r.state.examined && (#[trigger] r.spec_answer(inputs, at)) is Report
                ==> r.spec_answer(inputs, at) == Action::Report(
                r.candidates[r.state.examined as int],
                outcome,
            ),
        inputs.len() >= r.phase->Working_0.stage.rank() ==> r.spec_run(inputs).state.examined
            > r.state.examined,
{
    lemma_follows_run(r, outcome, inputs);
    assert forall|at: int|
        0 <= at < inputs.len() && r.spec_run(inputs.take(at)).state.examined == r.state.examined
            && (#[trigger] r.spec_answer(inputs, at)) is Report implies r.spec_answer(inputs, at)
        == Action::Report(r.candidates[r.state.examined as int], outcome) by {
        lemma_follows_run(r, outcome, inputs.take(at));
        lemma_follows_step(r, outcome, r.spec_run(inputs.take(at)), inputs[at].0, inputs[at].1);
    }
    lemma_listing_is_reported(r, inputs);
}

/// A run that follows a listing at the start follows it after any inputs.
pub proof fn lemma_follows_run(r: RunView, outcome: Outcome, inputs: Seq<(Event, bool)>)
    requires
        r.wf(),
        r.phase matches Phase::Working(w) && w.stage.settled() == Some(outcome),
    ensures
        follows_listing(r, outcome, r.spec_run(inputs)),
    decreases inputs.len(),
{
    if inputs.len() > 0 {
        lemma_follows_run(r, outcome, inputs.drop_last());
        let last = inputs.last();
        lemma_follows_step(r, outcome, r.spec_run(inputs.drop_last()), last.0, last.1);
    }
}

/// The listing under way is reported after as many inputs as its
/// workflow's rank; until then the counters stand still and each input
/// lowers the rank.
pub proof fn lemma_listing_is_reported(r: RunView, inputs: Seq<(Event, bool)>)
    requires
        r.wf(),
        r.phase is Working,
    ensures
        r.spec_run(inputs).state.examined > r.state.examined || {
            &&& r.spec_run(inputs).state == r.state
            &&& r.spec_run(inputs).phase matches Phase::Working(w)
            &&& w.stage.rank() + inputs.len() <= r.phase->Working_0.stage.rank()
            &&& w.index == r.phase->Working_0.index
        },
        inputs.len() >= r.phase->Working_0.stage.rank() ==> r.spec_run(inputs).state.examined
            > r.state.examined,
    decreases inputs.len(),
{
    if inputs.len() > 0 {
        lemma_listing_is_reported(r, inputs.drop_last());
        law_run_stays_in_bounds(r, inputs.drop_last());
        let before = r.spec_run(inputs.drop_last());
        let last = inputs.last();
        lemma_run_step(before, last.0, last.1);
        if let Phase::Working(w) = before.phase {
            lemma_step_descends(w, last.0, last.1);
            lemma_report_means_finished(w, last.0, last.1);
        }
    }
    law_run_stays_in_bounds(r, inputs);
    if let Phase::Working(w) = r.spec_run(inputs).phase {
        lemma_step_descends(w, Event::Done, false);
    }
}

/// A footer button whose text holds "Next" never adds to the
/// applications. From the moment the run reads such a text, whatever comes
/// in afterwards: the report that ends the listing says `SkippedMultiStep`,
/// it comes after twelve inputs at the latest, and the application counter
/// stands where it stood until the listing after this one has been
/// reported.
pub proof fn law_multi_step_adds_nothing(r: RunView, text: String, inputs: Seq<(Event, bool)>)
    requires
        r.wf(),
        r.phase matches Phase::Working(w) && w.stage == Stage::ReadingFooter,
        has_token(text@, next_token()),
        inputs.len() > 0,
        inputs[0].0 == Event::Text(text),
    ensures
        forall|upto: int|
            0 <= upto <= inputs.len() && (#[trigger] r.spec_run(inputs.take(upto))).state.examined
                <= r.state.examined + 1 ==> r.spec_run(inputs.take(upto)).state.applied
                == r.state.applied,
        forall|at: int|
            0 <= at < inputs.len() && r.spec_run(inputs.take(at)).state.examined
                == r.state.examined && (#[trigger] r.spec_answer(inputs, at)) is Report
                ==> r.spec_answer(inputs, at) == Action::Report(
                r.candidates[r.state.examined as int],
                Outcome::SkippedMultiStep,
            ),
        inputs.len() >= 12 ==> r.spec_run(inputs).state.examined > r.state.examined,
{
    let outcome = Outcome::SkippedMultiStep;
    let second = r.spec_step(inputs[0].0, inputs[0].1).0;
    let rest = inputs.drop_first();
    lemma_run_step(r, inputs[0].0, inputs[0].1);
    assert(second.phase matches Phase::Working(w) && w.stage == Stage::MultiSeekingDismiss);
    assert(second.state == r.state);
    lemma_run_first(r, inputs);
    law_settled_listing_is_counted(second, outcome, rest);
    assert(inputs.take(0) =~= Seq::<(Event, bool)>::empty());
    assert forall|upto: int|
        0 <= upto <= inputs.len() && (#[trigger] r.spec_run(inputs.take(upto))).state.examined
            <= r.state.examined + 1 implies r.spec_run(inputs.take(upto)).state.applied
        == r.state.applied by {
        if upto > 0 {
            lemma_run_first(r, inputs.take(upto));
            assert(inputs.take(upto).drop_first() =~= rest.take(upto - 1));
            lemma_follows_run(second, outcome, rest.take(upto - 1));
        }
    }
    assert forall|at: int|
        0 <= at < inputs.len() && r.spec_run(inputs.take(at)).state.examined == r.state.examined
            && (#[trigger] r.spec_answer(inputs, at)) is Report implies r.spec_answer(inputs, at)
        == Action::Report(r.candidates[r.state.examined as int], outcome) by {
        if at > 0 {
            lemma_answer_first(r, inputs, at);
            lemma_run_first(r, inputs.take(at));
            assert(inputs.take(at).drop_first() =~= rest.take(at - 1));
            assert(second.spec_answer(rest, at - 1) == r.spec_answer(inputs, at));
        }
    }
}

/// The same for a footer button that reads exactly "Next".
pub proof fn law_next_adds_nothing(r: RunView, text: String, inputs: Seq<(Event, bool)>)
    requires
        r.wf(),
        r.phase matches Phase::Working(w) && w.stage == Stage::ReadingFooter,
        text@ == next_token(),
        inputs.len() > 0,
        inputs[0].0 == Event::Text(text),
    ensures
        forall|upto: int|
            0 <= upto <= inputs.len() && (#[trigger] r.spec_run(inputs.take(upto))).state.examined
                <= r.state.examined + 1 ==> r.spec_run(inputs.take(upto)).state.applied
                == r.state.applied,
        forall|at: int|
            0 <= at < inputs.len() && r.spec_run(inputs.take(at)).state.examined
                == r.state.examined && (#[trigger] r.spec_answer(inputs, at)) is Report
                ==> r.spec_answer(inputs, at) == Action::Report(
                r.candidates[r.state.examined as int],
                Outcome::SkippedMultiStep,
            ),
        inputs.len() >= 12 ==> r.spec_run(inputs).state.examined > r.state.examined,
{
    lemma_next_is_multi_step(text@);
    law_multi_step_adds_nothing(r, text, inputs);
}

/// A footer button whose text does not hold "Next" adds exactly one
/// application, provided the click on it goes through. From the moment the
/// run reads such a text: the button is clicked; if that click is answered
/// with `Done`, the report that ends the listing says `Applied`, it comes
/// after twelve inputs at the latest, the application counter stands still
/// while the listing is at work, and stands one higher from its report
/// until the listing after this one has been reported.
pub proof fn law_single_step_adds_one(r: RunView, text: String, inputs: Seq<(Event, bool)>)
    requires
        r.wf(),
        r.phase matches Phase::Working(w) && w.stage == Stage::ReadingFooter,
        !has_token(text@, next_token()),
        inputs.len() > 1,
        inputs[0].0 == Event::Text(text),
        inputs[1].0 == Event::Done,
    ensures
        forall|upto: int|
            0 <= upto <= inputs.len() ==> {
                let then = #[trigger] r.spec_run(inputs.take(upto));
                &&& then.state.examined == r.state.examined ==> then.state.applied
                    == r.state.applied
                &&& then.state.examined == r.state.examined + 1 ==> then.state.applied
                    == r.state.applied + 1
            },
        forall|at: int|
            0 <= at < inputs.len() && r.spec_run(inputs.take(at)).state.examined
                == r.state.examined && (#[trigger] r.spec_answer(inputs, at)) is Report
                ==> r.spec_answer(inputs, at) == Action::Report(
                r.candidates[r.state.examined as int],
                Outcome::Applied,
            ),
        inputs.len() >= 12 ==> r.spec_run(inputs).state.examined > r.state.examined,
{
    let outcome = Outcome::Applied;
    let second = r.spec_step(inputs[0].0, inputs[0].1).0;
    let after_text = inputs.drop_first();
    let third = second.spec_step(after_text[0].0, after_text[0].1).0;
    let rest = after_text.drop_first();
    lemma_run_step(r, inputs[0].0, inputs[0].1);
    lemma_run_step(second, after_text[0].0, after_text[0].1);
    assert(second.phase matches Phase::Working(w) && w.stage == Stage::Submitting);
    assert(third.phase matches Phase::Working(w) && w.stage == Stage::SubmitSettling);
    assert(third.state == r.state);
    lemma_run_first(r, inputs);
    lemma_run_first(second, after_text);
    law_settled_listing_is_counted(third, outcome, rest);
    assert(inputs.take(0) =~= Seq::<(Event, bool)>::empty());
    assert(after_text.take(0) =~= Seq::<(Event, bool)>::empty());
    assert forall|upto: int| 0 <= upto <= inputs.len() implies {
        let then = #[trigger] r.spec_run(inputs.take(upto));
        &&& then.state.examined == r.state.examined ==> then.state.applied == r.state.applied
        &&& then.state.examined == r.state.examined + 1 ==> then.state.applied == r.state.applied
            + 1
    } by {
        if upto > 0 {
            lemma_run_first(r, inputs.take(upto));
            assert(inputs.take(upto).drop_first() =~= after_text.take(upto - 1));
            if upto > 1 {
                lemma_run_first(second, after_text.take(upto - 1));
                assert(after_text.take(upto - 1).drop_first() =~= rest.take(upto - 2));
                lemma_follows_run(third, outcome, rest.take(upto - 2));
            }
        }
    }
    assert forall|at: int|
        0 <= at < inputs.len() && r.spec_run(inputs.take(at)).state.examined == r.state.examined
            && (#[trigger] r.spec_answer(inputs, at)) is Report implies r.spec_answer(inputs, at)
        == Action::Report(r.candidates[r.state.examined as int], outcome) by {
        if at > 0 {
            lemma_answer_first(r, inputs, at);
            lemma_run_first(r, inputs.take(at));
            assert(inputs.take(at).drop_first() =~= after_text.take(at - 1));
            if at > 1 {
                lemma_answer_first(second, after_text, at - 1);
                lemma_run_first(second, after_text.take(at - 1));
                assert(after_text.take(at - 1).drop_first() =~= rest.take(at - 2));
                assert(third.spec_answer(rest, at - 2) == r.spec_answer(inputs, at));
            }
        }
    }
}

} // verus!
