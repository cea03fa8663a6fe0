use job_applier::arrival::{Arrival, ArrivalStage};
use job_applier::model::{Action, Command, Control, Element, Event, Group, Keys, Pause};
use job_applier::pacing::Pacing;

/// Feeds the events to a fresh arrival and collects every action, the
/// first one included; `None` marks the end.
fn arrive(events: &[Event]) -> (Arrival, Vec<Option<Action>>) {
    let (mut arrival, first) = Arrival::begin();
    let mut actions = vec![Some(first)];
    for event in events {
        let (next, action) = arrival.step(event);
        arrival = next;
        actions.push(action);
    }
    (arrival, actions)
}

#[test]
fn the_arrival_begins_by_opening_the_page() {
    let (arrival, action) = Arrival::begin();
    assert_eq!(action, Action::Navigate);
    assert_eq!(arrival.stage, ArrivalStage::Navigating);
    assert!(!arrival.over());
    assert_eq!(arrival.listing_count(), None);
}

#[test]
fn a_signed_in_session_types_nothing() {
    let events = [
        Event::Done,
        Event::Done,
        Event::NotFound,
        Event::NotFound,
        Event::Done,
        Event::Done,
        Event::Count(25),
    ];
    let (arrival, actions) = arrive(&events);
    assert_eq!(
        actions,
        vec![
            Some(Action::Navigate),
            Some(Action::Wait(Pause::PageLoad)),
            Some(Action::FindOne(Control::SignInLink)),
            Some(Action::FindOne(Control::UsernameField)),
            Some(Action::Scroll),
            Some(Action::Wait(Pause::FirstLook)),
            Some(Action::FindAll(Group::Listings)),
            None,
        ]
    );
    assert!(arrival.over());
    assert_eq!(arrival.listing_count(), Some(25));
}

#[test]
fn signing_in_types_name_password_and_enter() {
    let events = [
        Event::Done,
        Event::Done,
        Event::Found,
        Event::Done,
        Event::Done,
        Event::Found,
        Event::Done,
        Event::Done,
        Event::Found,
        Event::Done,
        Event::Done,
        Event::Found,
        Event::Done,
        Event::Done,
        Event::Done,
        Event::Done,
        Event::Count(0),
    ];
    let (arrival, actions) = arrive(&events);
    assert_eq!(
        actions,
        vec![
            Some(Action::Navigate),
            Some(Action::Wait(Pause::PageLoad)),
            Some(Action::FindOne(Control::SignInLink)),
            Some(Action::Click(Element::Control(Control::SignInLink))),
            Some(Action::Wait(Pause::SignInSettle)),
            Some(Action::FindOne(Control::UsernameField)),
            Some(Action::Type(Control::UsernameField, Keys::Username)),
            Some(Action::Wait(Pause::Keystroke)),
            Some(Action::FindOne(Control::PasswordField)),
            Some(Action::Type(Control::PasswordField, Keys::Password)),
            Some(Action::Wait(Pause::Keystroke)),
            Some(Action::FindOne(Control::PasswordField)),
            Some(Action::Type(Control::PasswordField, Keys::Enter)),
            Some(Action::Wait(Pause::LoginSettle)),
            Some(Action::Scroll),
            Some(Action::Wait(Pause::FirstLook)),
            Some(Action::FindAll(Group::Listings)),
            None,
        ]
    );
    assert_eq!(events.len(), 17);
    assert_eq!(arrival.stage, ArrivalStage::Arrived(0));
    assert_eq!(arrival.listing_count(), Some(0));
}

#[test]
fn a_page_that_does_not_open_strands_the_arrival() {
    let (arrival, actions) = arrive(&[Event::Failed]);
    assert_eq!(actions, vec![Some(Action::Navigate), None]);
    assert_eq!(arrival.stage, ArrivalStage::Stranded);
    assert!(arrival.over());
    assert_eq!(arrival.listing_count(), None);
}

#[test]
fn a_missing_password_field_strands_the_arrival() {
    let events =
        [Event::Done, Event::Done, Event::NotFound, Event::Found, Event::Done, Event::Done];
    let (arrival, _) = arrive(&events);
    assert_eq!(arrival.stage, ArrivalStage::SeekingPassword);
    let (stranded, action) = arrival.step(&Event::NotFound);
    assert_eq!(action, None);
    assert_eq!(stranded.stage, ArrivalStage::Stranded);
}

#[test]
fn every_needed_action_strands_the_arrival_when_it_fails() {
    let needed = [
        ArrivalStage::Navigating,
        ArrivalStage::ClickingSignIn,
        ArrivalStage::TypingUsername,
        ArrivalStage::SeekingPassword,
        ArrivalStage::TypingPassword,
        ArrivalStage::SeekingPasswordAgain,
        ArrivalStage::Confirming,
        ArrivalStage::Scrolling,
        ArrivalStage::Counting,
    ];
    for stage in needed {
        let (next, action) = Arrival { stage }.step(&Event::Failed);
        assert_eq!(action, None, "{:?}", stage);
        assert_eq!(next.stage, ArrivalStage::Stranded, "{:?}", stage);
    }
}

#[test]
fn an_arrival_that_is_over_stays_as_it_is() {
    for stage in [ArrivalStage::Arrived(3), ArrivalStage::Stranded] {
        for event in [Event::Done, Event::Failed, Event::Count(8)] {
            let (next, action) = Arrival { stage }.step(&event);
            assert_eq!(next.stage, stage);
            assert_eq!(action, None);
        }
    }
}

#[test]
fn every_arrival_is_over_after_seventeen_events() {
    let answers =
        [Event::Done, Event::Found, Event::NotFound, Event::Failed, Event::Count(4)];
    for seed in 0..1000usize {
        let (mut arrival, _) = Arrival::begin();
        for position in 0..17usize {
            let pick = (seed * 7 + position * 3 + seed / (position + 1)) % answers.len();
            arrival = arrival.step(&answers[pick]).0;
        }
        assert!(arrival.over());
    }
}

#[test]
fn advance_draws_the_page_load_wait() {
    let (arrival, _) = Arrival::begin();
    for _ in 0..50 {
        let (next, command) = arrival.advance(&Event::Done, &Pacing::human());
        assert_eq!(next.stage, ArrivalStage::PageSettling);
        match command {
            Some(Command::Sleep(secs)) => assert!((5..=10).contains(&secs)),
            other => panic!("unexpected command {:?}", other),
        }
    }
    let (_, command) = arrival.advance(&Event::Done, &Pacing::steady(false, false));
    assert_eq!(command, Some(Command::Sleep(5)));
}

#[test]
fn advance_hands_out_nothing_once_the_arrival_is_over() {
    let (arrival, _) = Arrival::begin();
    let (stranded, command) = arrival.advance(&Event::Failed, &Pacing::human());
    assert_eq!(command, None);
    assert!(stranded.over());
    let counting = Arrival { stage: ArrivalStage::Counting };
    let (arrived, command) = counting.advance(&Event::Count(12), &Pacing::human());
    assert_eq!(command, None);
    assert_eq!(arrived.listing_count(), Some(12));
}
