use job_applier::model::{Action, Command, Control, Element, Group, Keys, Outcome, Pause, RunState};
use job_applier::pacing::{Chance, DelayRange, Pacing, Ratio, ScrollRange};

fn all_pauses() -> [Pause; 19] {
    [
        Pause::PageLoad,
        Pause::SignInSettle,
        Pause::Keystroke,
        Pause::LoginSettle,
        Pause::FirstLook,
        Pause::ViewLinger,
        Pause::ViewCooldown,
        Pause::ListingOpen,
        Pause::ListingRead,
        Pause::CompanyLinger,
        Pause::CompanyRead,
        Pause::CompanyReturn,
        Pause::ModalOpen,
        Pause::DismissSettle,
        Pause::MultiStepSettle,
        Pause::SubmitSettle,
        Pause::CloseSettle,
        Pause::NoApplySettle,
        Pause::Cooldown,
    ]
}

#[test]
fn delay_range_keeps_its_bounds() {
    let range = DelayRange::new(3, 7).unwrap();
    assert_eq!(range.min_secs(), 3);
    assert_eq!(range.max_secs(), 7);
}

#[test]
fn delay_range_of_one_value_is_accepted() {
    let range = DelayRange::new(4, 4).unwrap();
    assert_eq!((range.min_secs(), range.max_secs()), (4, 4));
    assert_eq!(DelayRange::new(0, 0).unwrap().draw(), 0);
}

#[test]
fn delay_range_rejects_an_empty_range() {
    assert_eq!(DelayRange::new(5, 3), None);
    assert_eq!(DelayRange::new(1, 0), None);
}

#[test]
fn delay_draw_stays_inside_the_range() {
    let range = DelayRange::new(10, 30).unwrap();
    for _ in 0..500 {
        let secs = range.draw();
        assert!((10..=30).contains(&secs));
    }
}

#[test]
fn delay_draw_reaches_the_upper_end_and_varies() {
    let range = DelayRange::new(1, 3).unwrap();
    let mut seen = [false; 4];
    for _ in 0..400 {
        seen[range.draw() as usize] = true;
    }
    assert_eq!(seen, [false, true, true, true]);
}

#[test]
fn delay_exactly_always_draws_that_value() {
    let range = DelayRange::exactly(7);
    for _ in 0..50 {
        assert_eq!(range.draw(), 7);
    }
}

#[test]
fn delay_draw_covers_the_full_width_of_u64() {
    let range = DelayRange::new(0, u64::MAX).unwrap();
    let first = range.draw();
    let mut varied = false;
    for _ in 0..20 {
        varied = varied || range.draw() != first;
    }
    assert!(varied);
}

#[test]
fn scroll_range_is_half_open() {
    assert!(ScrollRange::new(100, 100).is_none());
    assert!(ScrollRange::new(200, 100).is_none());
    let one = ScrollRange::new(100, 101).unwrap();
    assert_eq!((one.low_px(), one.high_px()), (100, 101));
    for _ in 0..50 {
        assert_eq!(one.draw(), 100);
    }
}

#[test]
fn scroll_draw_is_at_least_100_and_below_500() {
    let range = Pacing::human().scroll;
    assert_eq!((range.low_px(), range.high_px()), (100, 500));
    let mut low: u32 = u32::MAX;
    let mut high: u32 = 0;
    for _ in 0..2000 {
        let pixels = range.draw();
        assert!((100..500).contains(&pixels));
        low = low.min(pixels);
        high = high.max(pixels);
    }
    assert!(low < 200);
    assert!(high >= 400);
}

#[test]
fn ratio_rejects_what_is_no_probability() {
    assert_eq!(Ratio::new(1, 0), None);
    assert_eq!(Ratio::new(0, 0), None);
    assert_eq!(Ratio::new(3, 2), None);
    let ratio = Ratio::new(3, 10).unwrap();
    assert_eq!((ratio.numerator(), ratio.denominator()), (3, 10));
    assert!(Ratio::new(0, 7).is_some());
    assert!(Ratio::new(7, 7).is_some());
}

#[test]
fn ratio_never_never_hits() {
    let never = Ratio::never();
    assert_eq!((never.numerator(), never.denominator()), (0, 1));
    let zero_of_nine = Ratio::new(0, 9).unwrap();
    for _ in 0..300 {
        assert!(!never.toss());
        assert!(!zero_of_nine.toss());
    }
}

#[test]
fn ratio_always_always_hits() {
    let always = Ratio::always();
    assert_eq!((always.numerator(), always.denominator()), (1, 1));
    let nine_of_nine = Ratio::new(9, 9).unwrap();
    for _ in 0..300 {
        assert!(always.toss());
        assert!(nine_of_nine.toss());
    }
}

#[test]
fn ratio_in_between_goes_both_ways() {
    let half = Ratio::new(1, 2).unwrap();
    let mut hits: u32 = 0;
    for _ in 0..400 {
        if half.toss() {
            hits += 1;
        }
    }
    assert!(hits > 0 && hits < 400);
}

#[test]
fn ratio_of_one_in_five_hits_about_that_often() {
    let ratio = Pacing::human().view_only;
    let mut hits: u32 = 0;
    for _ in 0..5000 {
        if ratio.toss() {
            hits += 1;
        }
    }
    assert!(hits > 700 && hits < 1300, "hits: {}", hits);
}

#[test]
fn human_pacing_has_the_documented_ranges() {
    let pacing = Pacing::human();
    let expected: [(Pause, u64, u64); 19] = [
        (Pause::PageLoad, 5, 10),
        (Pause::SignInSettle, 2, 5),
        (Pause::Keystroke, 1, 3),
        (Pause::LoginSettle, 7, 12),
        (Pause::FirstLook, 2, 5),
        (Pause::ViewLinger, 5, 15),
        (Pause::ViewCooldown, 3, 8),
        (Pause::ListingOpen, 3, 7),
        (Pause::ListingRead, 2, 5),
        (Pause::CompanyLinger, 5, 15),
        (Pause::CompanyRead, 3, 7),
        (Pause::CompanyReturn, 3, 6),
        (Pause::ModalOpen, 4, 7),
        (Pause::DismissSettle, 1, 3),
        (Pause::MultiStepSettle, 2, 4),
        (Pause::SubmitSettle, 5, 10),
        (Pause::CloseSettle, 2, 4),
        (Pause::NoApplySettle, 2, 4),
        (Pause::Cooldown, 10, 30),
    ];
    for (pause, min, max) in expected {
        let range = pacing.delay(pause);
        assert_eq!((range.min_secs(), range.max_secs()), (min, max), "{:?}", pause);
    }
}

#[test]
fn human_pacing_has_the_documented_chances() {
    let pacing = Pacing::human();
    let view = pacing.ratio(Chance::ViewOnly);
    assert_eq!((view.numerator(), view.denominator()), (1, 5));
    let detour = pacing.ratio(Chance::CompanyDetour);
    assert_eq!((detour.numerator(), detour.denominator()), (3, 10));
}

#[test]
fn the_cooldown_is_the_longest_wait() {
    let pacing = Pacing::human();
    let cooldown = pacing.delay(Pause::Cooldown);
    for pause in all_pauses() {
        assert!(pacing.delay(pause).max_secs() <= cooldown.max_secs());
    }
}

#[test]
fn steady_pacing_leaves_nothing_to_chance() {
    for (view, detour) in [(false, false), (true, false), (false, true), (true, true)] {
        let pacing = Pacing::steady(view, detour);
        let human = Pacing::human();
        for pause in all_pauses() {
            let range = pacing.delay(pause);
            assert_eq!(range.min_secs(), range.max_secs());
            assert_eq!(range.min_secs(), human.delay(pause).min_secs());
        }
        assert_eq!(pacing.scroll.draw(), 100);
        for _ in 0..50 {
            assert_eq!(pacing.toss(Some(Chance::ViewOnly)), view);
            assert_eq!(pacing.toss(Some(Chance::CompanyDetour)), detour);
        }
    }
}

#[test]
fn toss_without_a_chance_is_false() {
    let pacing = Pacing::steady(true, true);
    for _ in 0..20 {
        assert!(!pacing.toss(None));
    }
}

#[test]
fn pacing_fields_can_be_replaced() {
    let mut pacing = Pacing::human();
    pacing.cooldown = DelayRange::exactly(0);
    pacing.view_only = Ratio::always();
    assert_eq!(pacing.realise(Action::Wait(Pause::Cooldown)), Command::Sleep(0));
    assert!(pacing.toss(Some(Chance::ViewOnly)));
    assert_eq!(pacing.delay(Pause::ModalOpen), DelayRange::new(4, 7).unwrap());
}

#[test]
fn realise_draws_a_sleep_inside_the_range_of_the_wait() {
    let pacing = Pacing::human();
    for pause in all_pauses() {
        let range = pacing.delay(pause);
        for _ in 0..50 {
            match pacing.realise(Action::Wait(pause)) {
                Command::Sleep(secs) => {
                    assert!(range.min_secs() <= secs && secs <= range.max_secs())
                }
                other => panic!("a wait became {:?}", other),
            }
        }
    }
}

#[test]
fn realise_draws_the_pixels_of_a_scroll() {
    let pacing = Pacing::human();
    for _ in 0..200 {
        match pacing.realise(Action::Scroll) {
            Command::ScrollBy(pixels) => assert!((100..500).contains(&pixels)),
            other => panic!("a scroll became {:?}", other),
        }
    }
    assert_eq!(Pacing::steady(false, false).realise(Action::Scroll), Command::ScrollBy(100));
}

#[test]
fn realise_leaves_everything_else_as_it_is() {
    let pacing = Pacing::human();
    let state = RunState { applied: 1, examined: 4 };
    let listing = Element::DiscardButton(1);
    let cases = [
        (Action::Navigate, Command::Navigate),
        (Action::FindOne(Control::ApplyControl), Command::FindOne(Control::ApplyControl)),
        (Action::FindAll(Group::Listings), Command::FindAll(Group::Listings)),
        (Action::Click(listing), Command::Click(listing)),
        (Action::ReadText(Control::FooterButton), Command::ReadText(Control::FooterButton)),
        (
            Action::Type(Control::PasswordField, Keys::Enter),
            Command::Type(Control::PasswordField, Keys::Enter),
        ),
        (Action::GoBack, Command::GoBack),
        (Action::Report(3, Outcome::Applied), Command::Report(3, Outcome::Applied)),
        (Action::Summary(state), Command::Summary(state)),
        (Action::Close, Command::Close),
        (Action::Halt, Command::Halt),
    ];
    for (action, command) in cases {
        assert_eq!(pacing.realise(action), command);
    }
}
