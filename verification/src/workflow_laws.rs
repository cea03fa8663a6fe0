//! What holds of every run of the workflow, whatever the page answers.

use crate::modal::{has_token, lemma_next_is_multi_step, next_token};
use crate::model::{Action, Control, Element, Event, Group, ListingRef, Outcome};
use crate::workflow::{longest_workflow, Stage, Workflow};
use vstd::prelude::*;

verus! {

/// Each step brings an unfinished workflow closer to its report, and a
/// finished one stays as it is.
pub proof fn lemma_step_descends(w: Workflow, event: Event, coin: bool)
    ensures
        !w.is_finished() ==> w.spec_step(event, coin).0.stage.rank() < w.stage.rank(),
        w.is_finished() ==> w.spec_step(event, coin).0 == w,
        w.stage.rank() <= longest_workflow(),
        w.stage.rank() == 0 <==> w.is_finished(),
        w.spec_step(event, coin).0.index == w.index,
        w.spec_step(event, coin).0.has_applied == w.has_applied,
{
}

/// A step reports an outcome exactly when it leaves the workflow finished,
/// and then it reports the outcome that the workflow finished with.
pub proof fn lemma_report_means_finished(w: Workflow, event: Event, coin: bool)
    ensures
        w.spec_step(event, coin).1 is Report <==> w.spec_step(event, coin).0.is_finished(),
        w.spec_step(event, coin).0.is_finished() ==> w.spec_step(event, coin).1 == Action::Report(
            w.index,
            w.spec_step(event, coin).0.stage->Finished_0,
        ),
{
}

/// Once the outcome is settled, a step neither changes it nor reports
/// another, and the only things still clicked are the control that closes
/// a dialog and a discard button.
pub proof fn lemma_step_keeps_outcome(w: Workflow, event: Event, coin: bool, outcome: Outcome)
    requires
        w.stage.settled() == Some(outcome),
    ensures
        w.spec_step(event, coin).0.stage.settled() == Some(outcome),
        w.spec_step(event, coin).1 is Report ==> w.spec_step(event, coin).1 == Action::Report(
            w.index,
            outcome,
        ),
        w.spec_step(event, coin).1 matches Action::Click(element) ==> element
            == Element::Control(Control::DismissControl) || element is DiscardButton,
{
}

/// Where no chance is open, the coin makes no difference.
pub proof fn law_unasked_coin_changes_nothing(w: Workflow, event: Event, heads: bool, tails: bool)
    requires
        w.spec_chance() is None,
    ensures
        w.spec_step(event, heads) == w.spec_step(event, tails),
{
}

/// A discard button is clicked in one place only, right after the buttons
/// were counted: the second of two or more, the only one of one.
pub proof fn law_discard_click(w: Workflow, event: Event, coin: bool, choice: usize)
    requires
        w.spec_step(event, coin).1 == Action::Click(Element::DiscardButton(choice)),
    ensures
        w.stage == Stage::QueryingDiscard,
        event matches Event::Count(count) && (if count >= 2 {
            choice == 1
        } else {
            count == 1 && choice == 0
        }),
        w.spec_step(event, coin).0.stage == Stage::Discarding,
{
}

/// A listing is clicked in one place only, right after the listings were
/// fetched again, and only if the workflow's index lies among them.
pub proof fn law_listing_is_found_again_before_its_click(w: Workflow, event: Event, coin: bool)
    requires
        w.spec_step(event, coin).1 matches Action::Click(Element::Listing(_)),
    ensures
        w.stage == Stage::Resolving,
        event matches Event::Count(count) && w.index < count && w.spec_step(event, coin).1
            == Action::Click(
            Element::Listing(ListingRef { index: w.index, snapshot_len: count }),
        ),
{
}

/// Running over `inputs` is stepping on the first and running over the
/// rest.
pub proof fn lemma_run_first(w: Workflow, inputs: Seq<(Event, bool)>)
    requires
        inputs.len() > 0,
    ensures
        w.spec_run(inputs) == w.spec_step(inputs[0].0, inputs[0].1).0.spec_run(
            inputs.drop_first(),
        ),
    decreases inputs.len(),
{
    let first = w.spec_step(inputs[0].0, inputs[0].1).0;
    if inputs.len() == 1 {
        assert(inputs.drop_last() =~= Seq::<(Event, bool)>::empty());
        assert(inputs.drop_first() =~= Seq::<(Event, bool)>::empty());
        assert(w.spec_run(inputs.drop_last()) == w);
        assert(first.spec_run(inputs.drop_first()) == first);
    } else {
        lemma_run_first(w, inputs.drop_last());
        assert(inputs.drop_last().drop_first() =~= inputs.drop_first().drop_last());
        assert(inputs.drop_last()[0] == inputs[0]);
        assert(inputs.drop_first().last() == inputs.last());
    }
}

/// The answer to a later input is the answer that the workflow gives after
/// its first step.
pub proof fn lemma_answer_first(w: Workflow, inputs: Seq<(Event, bool)>, at: int)
    requires
        0 < at < inputs.len(),
    ensures
        w.spec_answer(inputs, at) == w.spec_step(inputs[0].0, inputs[0].1).0.spec_answer(
            inputs.drop_first(),
            at - 1,
        ),
{
    lemma_run_first(w, inputs.take(at));
    assert(inputs.take(at).drop_first() =~= inputs.drop_first().take(at - 1));
    assert(inputs.take(at)[0] == inputs[0]);
    assert(inputs.drop_first()[at - 1] == inputs[at]);
}

/// Each input that comes in lowers the rank by at least one, down to zero.
pub proof fn lemma_run_descends(w: Workflow, inputs: Seq<(Event, bool)>)
    ensures
        w.spec_run(inputs).stage.rank() + inputs.len() <= w.stage.rank() || w.spec_run(
            inputs,
        ).is_finished(),
        w.spec_run(inputs).index == w.index,
        w.spec_run(inputs).has_applied == w.has_applied,
    decreases inputs.len(),
{
    if inputs.len() > 0 {
        lemma_run_descends(w, inputs.drop_last());
        let last = inputs.last();
        lemma_step_descends(w.spec_run(inputs.drop_last()), last.0, last.1);
    } else {
        lemma_step_descends(w, Event::Done, false);
    }
}

/// A settled outcome stays settled through any run.
pub proof fn lemma_run_keeps_outcome(w: Workflow, inputs: Seq<(Event, bool)>, outcome: Outcome)
    requires
        w.stage.settled() == Some(outcome),
    ensures
        w.spec_run(inputs).stage.settled() == Some(outcome),
    decreases inputs.len(),
{
    if inputs.len() > 0 {
        lemma_run_keeps_outcome(w, inputs.drop_last(), outcome);
        let last = inputs.last();
        lemma_step_keeps_outcome(w.spec_run(inputs.drop_last()), last.0, last.1, outcome);
    }
}

/// Every workflow comes to an end: whatever the page answers, after as
/// many inputs as the stage's rank the outcome has been reported. No
/// workflow takes more than `longest_workflow()` inputs.
pub proof fn law_workflow_finishes(w: Workflow, inputs: Seq<(Event, bool)>)
    requires
        inputs.len() >= w.stage.rank(),
    ensures
        w.spec_run(inputs).is_finished(),
        w.stage.rank() <= longest_workflow(),
{
    lemma_run_descends(w, inputs);
    lemma_step_descends(w.spec_run(inputs), Event::Done, false);
    lemma_step_descends(w, Event::Done, false);
}

/// Once the outcome is settled, every report of the run names it, and a
/// run that is long enough ends with it.
pub proof fn law_settled_outcome_is_reported(
    w: Workflow,
    inputs: Seq<(Event, bool)>,
    outcome: Outcome,
)
    requires
        w.stage.settled() == Some(outcome),
    ensures
        forall|at: int|
            0 <= at < inputs.len() && (#[trigger] w.spec_answer(inputs, at)) is Report
                ==> w.spec_answer(inputs, at) == Action::Report(w.index, outcome),
        inputs.len() >= w.stage.rank() ==> w.spec_run(inputs).stage == Stage::Finished(outcome),
{
    assert forall|at: int|
        0 <= at < inputs.len() && (#[trigger] w.spec_answer(inputs, at)) is Report implies w.spec_answer(
        inputs,
        at,
    ) == Action::Report(w.index, outcome) by {
        let before = w.spec_run(inputs.take(at));
        lemma_run_keeps_outcome(w, inputs.take(at), outcome);
        lemma_run_descends(w, inputs.take(at));
        lemma_step_keeps_outcome(before, inputs[at].0, inputs[at].1, outcome);
    }
    lemma_run_keeps_outcome(w, inputs, outcome);
    if inputs.len() >= w.stage.rank() {
        law_workflow_finishes(w, inputs);
    }
}

/// A listing that is no longer on the page is skipped untouched. The
/// workflow begins by fetching the listings again; when its index is not
/// below their number, the very next answer is the report `SkippedStale`,
/// and so is every answer after it: nothing is ever clicked.
pub proof fn law_stale_listing_is_skipped(
    index: usize,
    has_applied: bool,
    count: usize,
    inputs: Seq<(Event, bool)>,
)
    requires
        count <= index,
        inputs.len() > 0,
        inputs[0].0 == Event::Count(count),
    ensures
        Workflow::spec_begin(index, has_applied).1 == Action::FindAll(Group::Listings),
        forall|at: int|
            0 <= at < inputs.len() ==> #[trigger] Workflow::spec_begin(
                index,
                has_applied,
            ).0.spec_answer(inputs, at) == Action::Report(index, Outcome::SkippedStale),
        Workflow::spec_begin(index, has_applied).0.spec_run(inputs).stage == Stage::Finished(
            Outcome::SkippedStale,
        ),
{
    let w = Workflow::spec_begin(index, has_applied).0;
    let skipped = w.spec_step(inputs[0].0, inputs[0].1).0;
    assert(skipped.stage == Stage::Finished(Outcome::SkippedStale));
    let rest = inputs.drop_first();
    assert forall|at: int| 0 <= at < inputs.len() implies #[trigger] w.spec_answer(inputs, at)
        == Action::Report(index, Outcome::SkippedStale) by {
        if at == 0 {
            assert(inputs.take(0) =~= Seq::<(Event, bool)>::empty());
        } else {
            lemma_answer_first(w, inputs, at);
            lemma_run_keeps_outcome(skipped, rest.take(at - 1), Outcome::SkippedStale);
            lemma_run_descends(skipped, rest.take(at - 1));
            let before = skipped.spec_run(rest.take(at - 1));
            lemma_step_descends(before, rest[at - 1].0, rest[at - 1].1);
            lemma_step_keeps_outcome(
                before,
                rest[at - 1].0,
                rest[at - 1].1,
                Outcome::SkippedStale,
            );
            lemma_report_means_finished(before, rest[at - 1].0, rest[at - 1].1);
        }
    }
    lemma_run_first(w, inputs);
    law_settled_outcome_is_reported(skipped, rest, Outcome::SkippedStale);
}

/// A footer button whose text holds "Next" means a form of several pages,
/// and such a listing is always skipped. From the moment the text is read,
/// whatever the page answers afterwards, no report names another outcome
/// than `SkippedMultiStep`, the submit button is never clicked, and after
/// twelve inputs at the latest the workflow has finished with that outcome.
pub proof fn law_multi_step_is_skipped(w: Workflow, text: String, inputs: Seq<(Event, bool)>)
    requires
        w.stage == Stage::ReadingFooter,
        has_token(text@, next_token()),
        inputs.len() > 0,
        inputs[0].0 == Event::Text(text),
    ensures
        forall|at: int|
            0 <= at < inputs.len() && (#[trigger] w.spec_answer(inputs, at)) is Report
                ==> w.spec_answer(inputs, at) == Action::Report(
                w.index,
                Outcome::SkippedMultiStep,
            ),
        forall|at: int|
            0 <= at < inputs.len() ==> #[trigger] w.spec_answer(inputs, at) != Action::Click(
                Element::Control(Control::FooterButton),
            ),
        inputs.len() >= 12 ==> w.spec_run(inputs).stage == Stage::Finished(
            Outcome::SkippedMultiStep,
        ),
{
    let backing_out = w.spec_step(inputs[0].0, inputs[0].1).0;
    let rest = inputs.drop_first();
    assert(backing_out.stage == Stage::MultiSeekingDismiss);
    law_settled_outcome_is_reported(backing_out, rest, Outcome::SkippedMultiStep);
    lemma_run_first(w, inputs);
    assert forall|at: int| 0 <= at < inputs.len() implies {
        &&& (#[trigger] w.spec_answer(inputs, at)) is Report ==> w.spec_answer(inputs, at)
            == Action::Report(w.index, Outcome::SkippedMultiStep)
        &&& w.spec_answer(inputs, at) != Action::Click(Element::Control(Control::FooterButton))
    } by {
        if at == 0 {
            assert(inputs.take(0) =~= Seq::<(Event, bool)>::empty());
        } else {
            lemma_answer_first(w, inputs, at);
            assert(backing_out.spec_answer(rest, at - 1) == w.spec_answer(inputs, at));
            let before = backing_out.spec_run(rest.take(at - 1));
            lemma_run_keeps_outcome(backing_out, rest.take(at - 1), Outcome::SkippedMultiStep);
            lemma_step_keeps_outcome(
                before,
                rest[at - 1].0,
                rest[at - 1].1,
                Outcome::SkippedMultiStep,
            );
        }
    }
}

/// A footer button that reads exactly "Next" leads to `SkippedMultiStep`:
/// the case of `law_multi_step_is_skipped` that gives the law its name.
pub proof fn law_next_is_skipped(w: Workflow, text: String, inputs: Seq<(Event, bool)>)
    requires
        w.stage == Stage::ReadingFooter,
        text@ == next_token(),
        inputs.len() > 0,
        inputs[0].0 == Event::Text(text),
    ensures
        forall|at: int|
            0 <= at < inputs.len() && (#[trigger] w.spec_answer(inputs, at)) is Report
                ==> w.spec_answer(inputs, at) == Action::Report(
                w.index,
                Outcome::SkippedMultiStep,
            ),
        inputs.len() >= 12 ==> w.spec_run(inputs).stage == Stage::Finished(
            Outcome::SkippedMultiStep,
        ),
{
    lemma_next_is_multi_step(text@);
    law_multi_step_is_skipped(w, text, inputs);
}

/// A footer button whose text does not hold "Next" submits the
/// application. The button is clicked as soon as its text is read; if that
/// click goes through, then whatever the page answers afterwards, no report
/// names another outcome than `Applied`, and after twelve inputs at the
/// latest the workflow has finished with it.
pub proof fn law_single_step_is_applied(w: Workflow, text: String, inputs: Seq<(Event, bool)>)
    requires
        w.stage == Stage::ReadingFooter,
        !has_token(text@, next_token()),
        inputs.len() > 1,
        inputs[0].0 == Event::Text(text),
        inputs[1].0 == Event::Done,
    ensures
        w.spec_answer(inputs, 0) == Action::Click(Element::Control(Control::FooterButton)),
        forall|at: int|
            0 <= at < inputs.len() && (#[trigger] w.spec_answer(inputs, at)) is Report
                ==> w.spec_answer(inputs, at) == Action::Report(w.index, Outcome::Applied),
        inputs.len() >= 12 ==> w.spec_run(inputs).stage == Stage::Finished(Outcome::Applied),
{
    let submitting = w.spec_step(inputs[0].0, inputs[0].1).0;
    let after_text = inputs.drop_first();
    let submitted = submitting.spec_step(after_text[0].0, after_text[0].1).0;
    let rest = after_text.drop_first();
    assert(inputs.take(0) =~= Seq::<(Event, bool)>::empty());
    assert(submitting.stage == Stage::Submitting);
    assert(submitted.stage == Stage::SubmitSettling);
    law_settled_outcome_is_reported(submitted, rest, Outcome::Applied);
    lemma_run_first(w, inputs);
    lemma_run_first(submitting, after_text);
    assert forall|at: int|
        0 <= at < inputs.len() && (#[trigger] w.spec_answer(inputs, at)) is Report implies w.spec_answer(
        inputs,
        at,
    ) == Action::Report(w.index, Outcome::Applied) by {
        if at == 0 {
        } else {
            lemma_answer_first(w, inputs, at);
            if at == 1 {
                assert(after_text.take(0) =~= Seq::<(Event, bool)>::empty());
            } else {
                lemma_answer_first(submitting, after_text, at - 1);
                assert(submitted.spec_answer(rest, at - 2) == w.spec_answer(inputs, at));
            }
        }
    }
}

/// When the query for discard buttons finds exactly two, the second is
/// clicked, and the first never is: not in answer to the count, and not in
/// answer to anything that comes after it.
pub proof fn law_second_discard_button(w: Workflow, inputs: Seq<(Event, bool)>)
    requires
        w.stage == Stage::QueryingDiscard,
        inputs.len() > 0,
        inputs[0].0 == Event::Count(2),
    ensures
        w.spec_answer(inputs, 0) == Action::Click(Element::DiscardButton(1)),
        forall|at: int|
            0 <= at < inputs.len() ==> #[trigger] w.spec_answer(inputs, at) != Action::Click(
                Element::DiscardButton(0),
            ),
{
    let discarding = w.spec_step(inputs[0].0, inputs[0].1).0;
    let rest = inputs.drop_first();
    assert(inputs.take(0) =~= Seq::<(Event, bool)>::empty());
    assert(discarding.stage == Stage::Discarding);
    assert forall|at: int| 0 <= at < inputs.len() implies #[trigger] w.spec_answer(inputs, at)
        != Action::Click(Element::DiscardButton(0)) by {
        if at > 0 {
            lemma_answer_first(w, inputs, at);
            let before = discarding.spec_run(rest.take(at - 1));
            lemma_run_descends(discarding, rest.take(at - 1));
            if before.spec_step(rest[at - 1].0, rest[at - 1].1).1 == Action::Click(
                Element::DiscardButton(0),
            ) {
                law_discard_click(before, rest[at - 1].0, rest[at - 1].1, 0);
            }
        }
    }
}

} // verus!
