//! Getting to the results page: open it, sign in where the site asks for
//! it, take a first look, and count the listings.
//!
//! Like the workflow this is a state machine that hands out one action at a
//! time. Here nothing is passed over: without the page, or half signed in,
//! no listing can be handled, so a failed action ends the arrival.

use crate::model::{Action, Command, Control, Element, Event, Group, Keys, Pause};
use crate::pacing::Pacing;
use vstd::prelude::*;

verus! {

/// Where the arrival stands: the action whose result it is waiting for.
#[derive(Clone, Copy, Debug, PartialEq, Eq, Structural)]
pub enum ArrivalStage {
    Navigating,
    PageSettling,
    SeekingSignIn,
    ClickingSignIn,
    SignInSettling,
    SeekingUsername,
    TypingUsername,
    UsernameSettling,
    SeekingPassword,
    TypingPassword,
    PasswordSettling,
    SeekingPasswordAgain,
    Confirming,
    LoginSettling,
    Scrolling,
    Looking,
    Counting,
    /// The results page is up and shows this many listings.
    Arrived(usize),
    /// The results page could not be reached.
    Stranded,
}

impl ArrivalStage {
    /// An upper bound on the events that the arrival still takes.
    pub open spec fn rank(self) -> nat {
        match self {
            ArrivalStage::Arrived(_) => 0,
            ArrivalStage::Stranded => 0,
            ArrivalStage::Counting => 1,
            ArrivalStage::Looking => 2,
            ArrivalStage::Scrolling => 3,
            ArrivalStage::LoginSettling => 4,
            ArrivalStage::Confirming => 5,
            ArrivalStage::SeekingPasswordAgain => 6,
            ArrivalStage::PasswordSettling => 7,
            ArrivalStage::TypingPassword => 8,
            ArrivalStage::SeekingPassword => 9,
            ArrivalStage::UsernameSettling => 10,
            ArrivalStage::TypingUsername => 11,
            ArrivalStage::SeekingUsername => 12,
            ArrivalStage::SignInSettling => 13,
            ArrivalStage::ClickingSignIn => 14,
            ArrivalStage::SeekingSignIn => 15,
            ArrivalStage::PageSettling => 16,
            ArrivalStage::Navigating => 17,
        }
    }
}

/// The way to the results page.
#[derive(Clone, Copy, Debug, PartialEq, Eq, Structural)]
pub struct Arrival {
    pub stage: ArrivalStage,
}

impl Arrival {
    pub open spec fn spec_begin() -> (Arrival, Action) {
        (Arrival { stage: ArrivalStage::Navigating }, Action::Navigate)
    }

    /// The arrival has ended, one way or the other.
    pub open spec fn is_over(self) -> bool {
        self.stage is Arrived || self.stage is Stranded
    }

    /// The number of listings on the results page, once it is known.
    pub open spec fn spec_listing_count(self) -> Option<usize> {
        match self.stage {
            ArrivalStage::Arrived(count) => Some(count),
            _ => None,
        }
    }

    pub open spec fn to(stage: ArrivalStage, action: Action) -> (Arrival, Option<Action>) {
        (Arrival { stage }, Some(action))
    }

    pub open spec fn strand() -> (Arrival, Option<Action>) {
        (Arrival { stage: ArrivalStage::Stranded }, None)
    }

    /// The stage and action that follow when `event` comes in; no action
    /// once the arrival is over.
    ///
    /// The sign-in link and the username field may be missing: then the
    /// session is signed in already. Everything else has to succeed, and an
    /// event that the stage did not ask for counts as a failure.
    pub open spec fn spec_step(self, event: Event) -> (Arrival, Option<Action>) {
        let password = Control::PasswordField;
        match self.stage {
            ArrivalStage::Navigating => if event is Done {
                Self::to(ArrivalStage::PageSettling, Action::Wait(Pause::PageLoad))
            } else {
                Self::strand()
            },
            ArrivalStage::PageSettling => Self::to(
                ArrivalStage::SeekingSignIn,
                Action::FindOne(Control::SignInLink),
            ),
            ArrivalStage::SeekingSignIn => if event is Found {
                Self::to(
                    ArrivalStage::ClickingSignIn,
                    Action::Click(Element::Control(Control::SignInLink)),
                )
            } else {
                Self::to(ArrivalStage::SeekingUsername, Action::FindOne(Control::UsernameField))
            },
            ArrivalStage::ClickingSignIn => if event is Done {
                Self::to(ArrivalStage::SignInSettling, Action::Wait(Pause::SignInSettle))
            } else {
                Self::strand()
            },
            ArrivalStage::SignInSettling => Self::to(
                ArrivalStage::SeekingUsername,
                Action::FindOne(Control::UsernameField),
            ),
            ArrivalStage::SeekingUsername => if event is Found {
                Self::to(
                    ArrivalStage::TypingUsername,
                    Action::Type(Control::UsernameField, Keys::Username),
                )
            } else {
                Self::to(ArrivalStage::Scrolling, Action::Scroll)
            },
            ArrivalStage::TypingUsername => if event is Done {
                Self::to(ArrivalStage::UsernameSettling, Action::Wait(Pause::Keystroke))
            } else {
                Self::strand()
            },
            ArrivalStage::UsernameSettling => Self::to(
                ArrivalStage::SeekingPassword,
                Action::FindOne(password),
            ),
            ArrivalStage::SeekingPassword => if event is Found {
                Self::to(ArrivalStage::TypingPassword, Action::Type(password, Keys::Password))
            } else {
                Self::strand()
            },
            ArrivalStage::TypingPassword => if event is Done {
                Self::to(ArrivalStage::PasswordSettling, Action::Wait(Pause::Keystroke))
            } else {
                Self::strand()
            },
            ArrivalStage::PasswordSettling => Self::to(
                ArrivalStage::SeekingPasswordAgain,
                Action::FindOne(password),
            ),
            ArrivalStage::SeekingPasswordAgain => if event is Found {
                Self::to(ArrivalStage::Confirming, Action::Type(password, Keys::Enter))
            } else {
                Self::strand()
            },
            ArrivalStage::Confirming => if event is Done {
                Self::to(ArrivalStage::LoginSettling, Action::Wait(Pause::LoginSettle))
            } else {
                Self::strand()
            },
            ArrivalStage::LoginSettling => Self::to(ArrivalStage::Scrolling, Action::Scroll),
            ArrivalStage::Scrolling => if event is Done {
                Self::to(ArrivalStage::Looking, Action::Wait(Pause::FirstLook))
            } else {
                Self::strand()
            },
            ArrivalStage::Looking => Self::to(
                ArrivalStage::Counting,
                Action::FindAll(Group::Listings),
            ),
            ArrivalStage::Counting => match event {
                Event::Count(count) => (Arrival { stage: ArrivalStage::Arrived(count) }, None),
                _ => Self::strand(),
            },
            ArrivalStage::Arrived(_) => (self, None),
            ArrivalStage::Stranded => (self, None),
        }
    }

    /// The arrival after all of `events` have come in, in order.
    pub open spec fn spec_run(self, events: Seq<Event>) -> Arrival
        decreases events.len(),
    {
        if events.len() == 0 {
            self
        } else {
            self.spec_run(events.drop_last()).spec_step(events.last()).0
        }
    }

    /// `command` is what `action` became once its numbers were drawn.
    pub open spec fn realised(
        pacing: Pacing,
        action: Option<Action>,
        command: Option<Command>,
    ) -> bool {
        match action {
            Some(a) => command matches Some(c) && pacing.realises(a, c),
            None => command is None,
        }
    }

    /// Begins the arrival. The first action opens the search page.
    pub fn begin() -> (start: (Arrival, Action))
        ensures
            start == Self::spec_begin(),
    {
        (Arrival { stage: ArrivalStage::Navigating }, Action::Navigate)
    }

    /// The number of listings on the results page: `None` while the
    /// arrival is under way, and for good if it stranded.
    pub fn listing_count(&self) -> (count: Option<usize>)
        ensures
            count == self.spec_listing_count(),
    {
        match self.stage {
            ArrivalStage::Arrived(count) => Some(count),
            _ => None,
        }
    }

    /// Whether the arrival has ended.
    pub fn over(&self) -> (over: bool)
        ensures
            over == self.is_over(),
    {
        match self.stage {
            ArrivalStage::Arrived(_) => true,
            ArrivalStage::Stranded => true,
            _ => false,
        }
    }

    fn go(stage: ArrivalStage, action: Action) -> (next: (Arrival, Option<Action>))
        ensures
            next == Self::to(stage, action),
    {
        (Arrival { stage }, Some(action))
    }

    fn stranded() -> (next: (Arrival, Option<Action>))
        ensures
            next == Self::strand(),
    {
        (Arrival { stage: ArrivalStage::Stranded }, None)
    }

    /// Takes one step: `event` is what came of the last action.
    pub fn step(self, event: &Event) -> (next: (Arrival, Option<Action>))
        ensures
            next == self.spec_step(*event),
    {
        let done = matches!(event, Event::Done);
        let found = matches!(event, Event::Found);
        let password = Control::PasswordField;
        match self.stage {
            ArrivalStage::Navigating => if done {
                Self::go(ArrivalStage::PageSettling, Action::Wait(Pause::PageLoad))
            } else {
                Self::stranded()
            },
            ArrivalStage::PageSettling => Self::go(
                ArrivalStage::SeekingSignIn,
                Action::FindOne(Control::SignInLink),
            ),
            ArrivalStage::SeekingSignIn => if found {
                Self::go(
                    ArrivalStage::ClickingSignIn,
                    Action::Click(Element::Control(Control::SignInLink)),
                )
            } else {
                Self::go(ArrivalStage::SeekingUsername, Action::FindOne(Control::UsernameField))
            },
            ArrivalStage::ClickingSignIn => if done {
                Self::go(ArrivalStage::SignInSettling, Action::Wait(Pause::SignInSettle))
            } else {
                Self::stranded()
            },
            ArrivalStage::SignInSettling => Self::go(
                ArrivalStage::SeekingUsername,
                Action::FindOne(Control::UsernameField),
            ),
            ArrivalStage::SeekingUsername => if found {
                Self::go(
                    ArrivalStage::TypingUsername,
                    Action::Type(Control::UsernameField, Keys::Username),
                )
            } else {
                Self::go(ArrivalStage::Scrolling, Action::Scroll)
            },
            ArrivalStage::TypingUsername => if done {
                Self::go(ArrivalStage::UsernameSettling, Action::Wait(Pause::Keystroke))
            } else {
                Self::stranded()
            },
            ArrivalStage::UsernameSettling => Self::go(
                ArrivalStage::SeekingPassword,
                Action::FindOne(password),
            ),
            ArrivalStage::SeekingPassword => if found {
                Self::go(ArrivalStage::TypingPassword, Action::Type(password, Keys::Password))
            } else {
                Self::stranded()
            },
            ArrivalStage::TypingPassword => if done {
                Self::go(ArrivalStage::PasswordSettling, Action::Wait(Pause::Keystroke))
            } else {
                Self::stranded()
            },
            ArrivalStage::PasswordSettling => Self::go(
                ArrivalStage::SeekingPasswordAgain,
                Action::FindOne(password),
            ),
            ArrivalStage::SeekingPasswordAgain => if found {
                Self::go(ArrivalStage::Confirming, Action::Type(password, Keys::Enter))
            } else {
                Self::stranded()
            },
            ArrivalStage::Confirming => if done {
                Self::go(ArrivalStage::LoginSettling, Action::Wait(Pause::LoginSettle))
            } else {
                Self::stranded()
            },
            ArrivalStage::LoginSettling => Self::go(ArrivalStage::Scrolling, Action::Scroll),
            ArrivalStage::Scrolling => if done {
                Self::go(ArrivalStage::Looking, Action::Wait(Pause::FirstLook))
            } else {
                Self::stranded()
            },
            ArrivalStage::Looking => Self::go(
                ArrivalStage::Counting,
                Action::FindAll(Group::Listings),
            ),
            ArrivalStage::Counting => match event {
                Event::Count(count) => (Arrival { stage: ArrivalStage::Arrived(*count) }, None),
                _ => Self::stranded(),
            },
            ArrivalStage::Arrived(_) => (self, None),
            ArrivalStage::Stranded => (self, None),
        }
    }

    /// Takes one step and draws the numbers that its action leaves open.
    pub fn advance(self, event: &Event, pacing: &Pacing) -> (next: (Arrival, Option<Command>))
        ensures
            next.0 == self.spec_step(*event).0,
            Self::realised(*pacing, self.spec_step(*event).1, next.1),
    {
        let (arrival, action) = self.step(event);
        let command = match action {
            Some(a) => Some(pacing.realise(a)),
            None => None,
        };
        (arrival, command)
    }
}

/// Each step brings the arrival closer to its end; once over it stays as
/// it is and asks for nothing more.
pub proof fn lemma_arrival_step_descends(a: Arrival, event: Event)
    ensures
        !a.is_over() ==> a.spec_step(event).0.stage.rank() < a.stage.rank(),
        a.is_over() ==> a.spec_step(event) == (a, None::<Action>),
        a.spec_step(event).1 is None <==> a.spec_step(event).0.is_over(),
        a.stage.rank() == 0 <==> a.is_over(),
        a.stage.rank() <= 17,
{
}

/// Every arrival ends: after as many events as the stage's rank, and so
/// after seventeen at the latest, it has arrived or it has stranded.
pub proof fn law_arrival_ends(a: Arrival, events: Seq<Event>)
    ensures
        a.spec_run(events).stage.rank() + events.len() <= a.stage.rank() || a.spec_run(
            events,
        ).is_over(),
        events.len() >= 17 ==> a.spec_run(events).is_over(),
    decreases events.len(),
{
    if events.len() > 0 {
        law_arrival_ends(a, events.drop_last());
        lemma_arrival_step_descends(a.spec_run(events.drop_last()), events.last());
    }
    lemma_arrival_step_descends(a, Event::Done);
    lemma_arrival_step_descends(a.spec_run(events), Event::Done);
}

} // verus!
