//! The workflow for one listing: find it again, look at it, perhaps apply.
//!
//! The workflow is a state machine. Each step takes what came of the last
//! action and answers with the next one; the last action is a report of how
//! the listing ended. A stage is named after what it is waiting for.

use crate::modal::{classify_modal, discard_choice, spec_classify, spec_discard_choice};
use crate::model::{
    Action, Control, Element, Event, Fault, Group, ListingRef, ModalState, Outcome, Pause,
};
use crate::pacing::Chance;
use vstd::prelude::*;

verus! {

/// Where the workflow stands: the action whose result it is waiting for.
#[derive(Clone, Copy, Debug, PartialEq, Eq, Structural)]
pub enum Stage {
    /// Fetching the listings again to find this one among them.
    Resolving,
    /// Clicking a listing that is only looked at.
    ViewOpening,
    ViewLingering,
    ViewScrolling,
    /// Clicking a listing that may be applied to.
    Opening,
    OpenSettling,
    OpenScrolling,
    Reading,
    /// The detour over the company's page.
    SeekingCompany,
    CompanyOpening,
    CompanyLingering,
    CompanyScrolling,
    CompanyReading,
    Returning,
    ReturnSettling,
    /// Looking for the apply control and opening its dialog.
    SeekingApply,
    NoApplySettling,
    Triggering,
    ModalSettling,
    /// Telling what kind of dialog it is.
    SeekingFooter,
    ReadingFooter,
    /// Backing out of a form of several pages.
    MultiSeekingDismiss,
    MultiDismissing,
    MultiDismissSettling,
    QueryingDiscard,
    Discarding,
    MultiSettling,
    /// Submitting a one-click application.
    Submitting,
    SubmitSettling,
    /// Closing whatever dialog is still open; the outcome is decided.
    CleanupSeeking(Outcome),
    CleanupDismissing(Outcome),
    CleanupSettling(Outcome),
    /// The wait before the next listing.
    Cooling(Outcome),
    /// The outcome has been reported.
    Finished(Outcome),
}

impl Stage {
    /// An upper bound on the events that the workflow still takes before it
    /// has reported its outcome.
    pub open spec fn rank(self) -> nat {
        match self {
            Stage::Finished(_) => 0,
            Stage::Cooling(_) => 1,
            Stage::CleanupSettling(_) => 2,
            Stage::NoApplySettling => 2,
            Stage::ViewScrolling => 2,
            Stage::CleanupDismissing(_) => 3,
            Stage::ViewLingering => 3,
            Stage::CleanupSeeking(_) => 4,
            Stage::ViewOpening => 4,
            Stage::MultiSettling => 5,
            Stage::SubmitSettling => 5,
            Stage::Discarding => 6,
            Stage::Submitting => 6,
            Stage::QueryingDiscard => 7,
            Stage::MultiDismissSettling => 8,
            Stage::MultiDismissing => 9,
            Stage::MultiSeekingDismiss => 10,
            Stage::ReadingFooter => 11,
            Stage::SeekingFooter => 12,
            Stage::ModalSettling => 13,
            Stage::Triggering => 14,
            Stage::SeekingApply => 15,
            Stage::ReturnSettling => 16,
            Stage::Returning => 17,
            Stage::CompanyReading => 18,
            Stage::CompanyScrolling => 19,
            Stage::CompanyLingering => 20,
            Stage::CompanyOpening => 21,
            Stage::SeekingCompany => 22,
            Stage::Reading => 23,
            Stage::OpenScrolling => 24,
            Stage::OpenSettling => 25,
            Stage::Opening => 26,
            Stage::Resolving => 27,
        }
    }

    /// The outcome, from the stage on at which nothing can change it any
    /// more.
    pub open spec fn settled(self) -> Option<Outcome> {
        match self {
            Stage::NoApplySettling => Some(Outcome::SkippedNoApplyButton),
            Stage::MultiSeekingDismiss => Some(Outcome::SkippedMultiStep),
            Stage::MultiDismissing => Some(Outcome::SkippedMultiStep),
            Stage::MultiDismissSettling => Some(Outcome::SkippedMultiStep),
            Stage::QueryingDiscard => Some(Outcome::SkippedMultiStep),
            Stage::Discarding => Some(Outcome::SkippedMultiStep),
            Stage::MultiSettling => Some(Outcome::SkippedMultiStep),
            Stage::SubmitSettling => Some(Outcome::Applied),
            Stage::CleanupSeeking(outcome) => Some(outcome),
            Stage::CleanupDismissing(outcome) => Some(outcome),
            Stage::CleanupSettling(outcome) => Some(outcome),
            Stage::Cooling(outcome) => Some(outcome),
            Stage::Finished(outcome) => Some(outcome),
            _ => None,
        }
    }
}

/// The largest rank there is: no workflow takes more events than this.
pub open spec fn longest_workflow() -> nat {
    27
}

/// The workflow for the listing at `index`.
#[derive(Clone, Copy, Debug, PartialEq, Eq, Structural)]
pub struct Workflow {
    /// Where the listing stood on the results page when it was selected.
    pub index: usize,
    /// Whether the run has submitted an application before this listing.
    pub has_applied: bool,
    pub stage: Stage,
}

impl Workflow {
    pub open spec fn spec_begin(index: usize, has_applied: bool) -> (Workflow, Action) {
        (Workflow { index, has_applied, stage: Stage::Resolving }, Action::FindAll(Group::Listings))
    }

    pub open spec fn is_finished(self) -> bool {
        self.stage is Finished
    }

    /// The chance that the next step leaves to a coin, if any.
    pub open spec fn spec_chance(self) -> Option<Chance> {
        match self.stage {
            Stage::Resolving => Some(Chance::ViewOnly),
            Stage::Reading => Some(Chance::CompanyDetour),
            _ => None,
        }
    }

    pub open spec fn to(self, stage: Stage, action: Action) -> (Workflow, Action) {
        (Workflow { stage, ..self }, action)
    }

    /// The outcome is decided: wait out the cooldown, then report it.
    pub open spec fn cool(self, outcome: Outcome) -> (Workflow, Action) {
        self.to(Stage::Cooling(outcome), Action::Wait(Pause::Cooldown))
    }

    /// Something the listing cannot do without has failed.
    pub open spec fn fail(self, fault: Fault) -> (Workflow, Action) {
        self.cool(Outcome::Error(fault))
    }

    pub open spec fn seek_apply(self) -> (Workflow, Action) {
        self.to(Stage::SeekingApply, Action::FindOne(Control::ApplyControl))
    }

    /// The outcome is decided: close whatever dialog is still open.
    pub open spec fn clean_up(self, outcome: Outcome) -> (Workflow, Action) {
        self.to(Stage::CleanupSeeking(outcome), Action::FindOne(Control::DismissControl))
    }

    pub open spec fn settle_multi_step(self) -> (Workflow, Action) {
        self.to(Stage::MultiSettling, Action::Wait(Pause::MultiStepSettle))
    }

    /// The stage and action that follow when `event` comes in. `coin` is
    /// the toss for the chance that `spec_chance` names and is not looked at
    /// where it names none.
    ///
    /// An event that the stage did not ask for counts as a failure of what
    /// it did ask for. Waits cannot fail. A failure ends the listing in an
    /// error where the listing cannot go on without the action; inside the
    /// company detour and while dialogs are being closed it is passed over.
    pub open spec fn spec_step(self, event: Event, coin: bool) -> (Workflow, Action) {
        let dismiss = Element::Control(Control::DismissControl);
        match self.stage {
            Stage::Resolving => match event {
                Event::Count(count) => match ListingRef::spec_resolve(self.index, count) {
                    None => self.to(
                        Stage::Finished(Outcome::SkippedStale),
                        Action::Report(self.index, Outcome::SkippedStale),
                    ),
                    Some(listing) => if coin && self.has_applied {
                        self.to(Stage::ViewOpening, Action::Click(Element::Listing(listing)))
                    } else {
                        self.to(Stage::Opening, Action::Click(Element::Listing(listing)))
                    },
                },
                _ => self.fail(Fault::ListingsUnavailable),
            },
            Stage::ViewOpening => if event is Done {
                self.to(Stage::ViewLingering, Action::Wait(Pause::ViewLinger))
            } else {
                self.fail(Fault::ListingClickFailed)
            },
            Stage::ViewLingering => self.to(Stage::ViewScrolling, Action::Scroll),
            Stage::ViewScrolling => if event is Done {
                self.to(Stage::Cooling(Outcome::ViewedOnly), Action::Wait(Pause::ViewCooldown))
            } else {
                self.fail(Fault::ScrollFailed)
            },
            Stage::Opening => if event is Done {
                self.to(Stage::OpenSettling, Action::Wait(Pause::ListingOpen))
            } else {
                self.fail(Fault::ListingClickFailed)
            },
            Stage::OpenSettling => self.to(Stage::OpenScrolling, Action::Scroll),
            Stage::OpenScrolling => if event is Done {
                self.to(Stage::Reading, Action::Wait(Pause::ListingRead))
            } else {
                self.fail(Fault::ScrollFailed)
            },
            Stage::Reading => if coin {
                self.to(Stage::SeekingCompany, Action::FindOne(Control::CompanyLink))
            } else {
                self.seek_apply()
            },
            Stage::SeekingCompany => if event is Found {
                self.to(
                    Stage::CompanyOpening,
                    Action::Click(Element::Control(Control::CompanyLink)),
                )
            } else {
                self.seek_apply()
            },
            Stage::CompanyOpening => if event is Done {
                self.to(Stage::CompanyLingering, Action::Wait(Pause::CompanyLinger))
            } else {
                self.seek_apply()
            },
            Stage::CompanyLingering => self.to(Stage::CompanyScrolling, Action::Scroll),
            Stage::CompanyScrolling => self.to(
                Stage::CompanyReading,
                Action::Wait(Pause::CompanyRead),
            ),
            Stage::CompanyReading => self.to(Stage::Returning, Action::GoBack),
            Stage::Returning => self.to(Stage::ReturnSettling, Action::Wait(Pause::CompanyReturn)),
            Stage::ReturnSettling => self.seek_apply(),
            Stage::SeekingApply => if event is Found {
                self.to(Stage::Triggering, Action::Click(Element::Control(Control::ApplyControl)))
            } else {
                self.to(Stage::NoApplySettling, Action::Wait(Pause::NoApplySettle))
            },
            Stage::NoApplySettling => self.cool(Outcome::SkippedNoApplyButton),
            Stage::Triggering => if event is Done {
                self.to(Stage::ModalSettling, Action::Wait(Pause::ModalOpen))
            } else {
                self.fail(Fault::ApplyClickFailed)
            },
            Stage::ModalSettling => self.to(
                Stage::SeekingFooter,
                Action::FindOne(Control::FooterButton),
            ),
            Stage::SeekingFooter => if event is Found {
                self.to(Stage::ReadingFooter, Action::ReadText(Control::FooterButton))
            } else {
                self.clean_up(Outcome::Error(Fault::NoSubmitOrCloseControl))
            },
            Stage::ReadingFooter => match event {
                Event::Text(text) => match spec_classify(Some(text@)) {
                    ModalState::MultiStep => self.to(
                        Stage::MultiSeekingDismiss,
                        Action::FindOne(Control::DismissControl),
                    ),
                    ModalState::SingleStep(submit) => self.to(
                        Stage::Submitting,
                        Action::Click(submit),
                    ),
                    ModalState::NoFooterButton => self.clean_up(
                        Outcome::Error(Fault::NoSubmitOrCloseControl),
                    ),
                },
                _ => self.fail(Fault::FooterUnreadable),
            },
            Stage::MultiSeekingDismiss => if event is Found {
                self.to(Stage::MultiDismissing, Action::Click(dismiss))
            } else {
                self.settle_multi_step()
            },
            Stage::MultiDismissing => if event is Done {
                self.to(Stage::MultiDismissSettling, Action::Wait(Pause::DismissSettle))
            } else {
                self.settle_multi_step()
            },
            Stage::MultiDismissSettling => self.to(
                Stage::QueryingDiscard,
                Action::FindAll(Group::DiscardButtons),
            ),
            Stage::QueryingDiscard => match event {
                Event::Count(count) => match spec_discard_choice(count) {
                    Some(choice) => self.to(
                        Stage::Discarding,
                        Action::Click(Element::DiscardButton(choice)),
                    ),
                    None => self.settle_multi_step(),
                },
                _ => self.settle_multi_step(),
            },
            Stage::Discarding => self.settle_multi_step(),
            Stage::MultiSettling => self.clean_up(Outcome::SkippedMultiStep),
            Stage::Submitting => if event is Done {
                self.to(Stage::SubmitSettling, Action::Wait(Pause::SubmitSettle))
            } else {
                self.fail(Fault::SubmitClickFailed)
            },
            Stage::SubmitSettling => self.clean_up(Outcome::Applied),
            Stage::CleanupSeeking(outcome) => if event is Found {
                self.to(Stage::CleanupDismissing(outcome), Action::Click(dismiss))
            } else {
                self.cool(outcome)
            },
            Stage::CleanupDismissing(outcome) => if event is Done {
                self.to(Stage::CleanupSettling(outcome), Action::Wait(Pause::CloseSettle))
            } else {
                self.cool(outcome)
            },
            Stage::CleanupSettling(outcome) => self.cool(outcome),
            Stage::Cooling(outcome) => self.to(
                Stage::Finished(outcome),
                Action::Report(self.index, outcome),
            ),
            Stage::Finished(outcome) => (self, Action::Report(self.index, outcome)),
        }
    }

    /// The workflow after all of `inputs` have come in, in order. An
    /// input is an event and the coin that goes with it.
    pub open spec fn spec_run(self, inputs: Seq<(Event, bool)>) -> Workflow
        decreases inputs.len(),
    {
        if inputs.len() == 0 {
            self
        } else {
            let last = inputs.last();
            self.spec_run(inputs.drop_last()).spec_step(last.0, last.1).0
        }
    }

    /// The action that answers the input at position `at`.
    pub open spec fn spec_answer(self, inputs: Seq<(Event, bool)>, at: int) -> Action
        recommends
            0 <= at < inputs.len(),
    {
        self.spec_run(inputs.take(at)).spec_step(inputs[at].0, inputs[at].1).1
    }

    /// Begins the workflow for the listing that stood at `index` when the
    /// selection was made. `has_applied` tells whether the run has already
    /// submitted an application. The first action fetches the listings
    /// again: an index is never trusted across page changes.
    pub fn begin(index: usize, has_applied: bool) -> (start: (Workflow, Action))
        ensures
            start == Self::spec_begin(index, has_applied),
    {
        (Workflow { index, has_applied, stage: Stage::Resolving }, Action::FindAll(Group::Listings))
    }

    /// The outcome, once it has been reported.
    pub fn outcome(&self) -> (outcome: Option<Outcome>)
        ensures
            outcome is Some <==> self.is_finished(),
            outcome matches Some(o) ==> self.stage == Stage::Finished(o),
    {
        match self.stage {
            Stage::Finished(outcome) => Some(outcome),
            _ => None,
        }
    }

    /// The chance that the next step leaves to a coin, if any.
    pub fn chance(&self) -> (chance: Option<Chance>)
        ensures
            chance == self.spec_chance(),
    {
        match self.stage {
            Stage::Resolving => Some(Chance::ViewOnly),
            Stage::Reading => Some(Chance::CompanyDetour),
            _ => None,
        }
    }

    fn go(self, stage: Stage, action: Action) -> (next: (Workflow, Action))
        ensures
            next == self.to(stage, action),
    {
        (Workflow { index: self.index, has_applied: self.has_applied, stage }, action)
    }

    /// Takes one step: `event` is what came of the last action, `coin` the
    /// toss for the chance that `chance` names.
    pub fn step(self, event: &Event, coin: bool) -> (next: (Workflow, Action))
        ensures
            next == self.spec_step(*event, coin),
    {
        let dismiss = Element::Control(Control::DismissControl);
        let done = matches!(event, Event::Done);
        let found = matches!(event, Event::Found);
        let cooldown = Action::Wait(Pause::Cooldown);
        let settle = Action::Wait(Pause::MultiStepSettle);
        let seek_apply = Action::FindOne(Control::ApplyControl);
        let seek_dismiss = Action::FindOne(Control::DismissControl);
        let no_control = Outcome::Error(Fault::NoSubmitOrCloseControl);
        match self.stage {
            Stage::Resolving => match event {
                Event::Count(count) => match ListingRef::resolve(self.index, *count) {
                    None => self.go(
                        Stage::Finished(Outcome::SkippedStale),
                        Action::Report(self.index, Outcome::SkippedStale),
                    ),
                    Some(listing) => if coin && self.has_applied {
                        self.go(Stage::ViewOpening, Action::Click(Element::Listing(listing)))
                    } else {
                        self.go(Stage::Opening, Action::Click(Element::Listing(listing)))
                    },
                },
                _ => self.go(Stage::Cooling(Outcome::Error(Fault::ListingsUnavailable)), cooldown),
            },
            Stage::ViewOpening => if done {
                self.go(Stage::ViewLingering, Action::Wait(Pause::ViewLinger))
            } else {
                self.go(Stage::Cooling(Outcome::Error(Fault::ListingClickFailed)), cooldown)
            },
            Stage::ViewLingering => self.go(Stage::ViewScrolling, Action::Scroll),
            Stage::ViewScrolling => if done {
                self.go(Stage::Cooling(Outcome::ViewedOnly), Action::Wait(Pause::ViewCooldown))
            } else {
                self.go(Stage::Cooling(Outcome::Error(Fault::ScrollFailed)), cooldown)
            },
            Stage::Opening => if done {
                self.go(Stage::OpenSettling, Action::Wait(Pause::ListingOpen))
            } else {
                self.go(Stage::Cooling(Outcome::Error(Fault::ListingClickFailed)), cooldown)
            },
            Stage::OpenSettling => self.go(Stage::OpenScrolling, Action::Scroll),
            Stage::OpenScrolling => if done {
                self.go(Stage::Reading, Action::Wait(Pause::ListingRead))
            } else {
                self.go(Stage::Cooling(Outcome::Error(Fault::ScrollFailed)), cooldown)
            },
            Stage::Reading => if coin {
                self.go(Stage::SeekingCompany, Action::FindOne(Control::CompanyLink))
            } else {
                self.go(Stage::SeekingApply, seek_apply)
            },
            Stage::SeekingCompany => if found {
                self.go(
                    Stage::CompanyOpening,
                    Action::Click(Element::Control(Control::CompanyLink)),
                )
            } else {
                self.go(Stage::SeekingApply, seek_apply)
            },
            Stage::CompanyOpening => if done {
                self.go(Stage::CompanyLingering, Action::Wait(Pause::CompanyLinger))
            } else {
                self.go(Stage::SeekingApply, seek_apply)
            },
            Stage::CompanyLingering => self.go(Stage::CompanyScrolling, Action::Scroll),
            Stage::CompanyScrolling => self.go(
                Stage::CompanyReading,
                Action::Wait(Pause::CompanyRead),
            ),
            Stage::CompanyReading => self.go(Stage::Returning, Action::GoBack),
            Stage::Returning => self.go(Stage::ReturnSettling, Action::Wait(Pause::CompanyReturn)),
            Stage::ReturnSettling => self.go(Stage::SeekingApply, seek_apply),
            Stage::SeekingApply => if found {
                self.go(Stage::Triggering, Action::Click(Element::Control(Control::ApplyControl)))
            } else {
                self.go(Stage::NoApplySettling, Action::Wait(Pause::NoApplySettle))
            },
            Stage::NoApplySettling => self.go(
                Stage::Cooling(Outcome::SkippedNoApplyButton),
                cooldown,
            ),
            Stage::Triggering => if done {
                self.go(Stage::ModalSettling, Action::Wait(Pause::ModalOpen))
            } else {
                self.go(Stage::Cooling(Outcome::Error(Fault::ApplyClickFailed)), cooldown)
            },
            Stage::ModalSettling => self.go(
                Stage::SeekingFooter,
                Action::FindOne(Control::FooterButton),
            ),
            Stage::SeekingFooter => if found {
                self.go(Stage::ReadingFooter, Action::ReadText(Control::FooterButton))
            } else {
                self.go(Stage::CleanupSeeking(no_control), seek_dismiss)
            },
            Stage::ReadingFooter => match event {
                Event::Text(text) => match classify_modal(Some(text.as_str())) {
                    ModalState::MultiStep => self.go(Stage::MultiSeekingDismiss, seek_dismiss),
                    ModalState::SingleStep(submit) => self.go(
                        Stage::Submitting,
                        Action::Click(submit),
                    ),
                    ModalState::NoFooterButton => self.go(
                        Stage::CleanupSeeking(no_control),
                        seek_dismiss,
                    ),
                },
                _ => self.go(Stage::Cooling(Outcome::Error(Fault::FooterUnreadable)), cooldown),
            },
            Stage::MultiSeekingDismiss => if found {
                self.go(Stage::MultiDismissing, Action::Click(dismiss))
            } else {
                self.go(Stage::MultiSettling, settle)
            },
            Stage::MultiDismissing => if done {
                self.go(Stage::MultiDismissSettling, Action::Wait(Pause::DismissSettle))
            } else {
                self.go(Stage::MultiSettling, settle)
            },
            Stage::MultiDismissSettling => self.go(
                Stage::QueryingDiscard,
                Action::FindAll(Group::DiscardButtons),
            ),
            Stage::QueryingDiscard => match event {
                Event::Count(count) => match discard_choice(*count) {
                    Some(choice) => self.go(
                        Stage::Discarding,
                        Action::Click(Element::DiscardButton(choice)),
                    ),
                    None => self.go(Stage::MultiSettling, settle),
                },
                _ => self.go(Stage::MultiSettling, settle),
            },
            Stage::Discarding => self.go(Stage::MultiSettling, settle),
            Stage::MultiSettling => self.go(
                Stage::CleanupSeeking(Outcome::SkippedMultiStep),
                seek_dismiss,
            ),
            Stage::Submitting => if done {
                self.go(Stage::SubmitSettling, Action::Wait(Pause::SubmitSettle))
            } else {
                self.go(Stage::Cooling(Outcome::Error(Fault::SubmitClickFailed)), cooldown)
            },
            Stage::SubmitSettling => self.go(Stage::CleanupSeeking(Outcome::Applied), seek_dismiss),
            Stage::CleanupSeeking(outcome) => if found {
                self.go(Stage::CleanupDismissing(outcome), Action::Click(dismiss))
            } else {
                self.go(Stage::Cooling(outcome), cooldown)
            },
            Stage::CleanupDismissing(outcome) => if done {
                self.go(Stage::CleanupSettling(outcome), Action::Wait(Pause::CloseSettle))
            } else {
                self.go(Stage::Cooling(outcome), cooldown)
            },
            Stage::CleanupSettling(outcome) => self.go(Stage::Cooling(outcome), cooldown),
            Stage::Cooling(outcome) => self.go(
                Stage::Finished(outcome),
                Action::Report(self.index, outcome),
            ),
            Stage::Finished(outcome) => (self, Action::Report(self.index, outcome)),
        }
    }
}

} // verus!
