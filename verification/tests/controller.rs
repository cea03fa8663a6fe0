use job_applier::controller::{launch, Phase, Run};
use job_applier::model::{
    Action, Command, Control, Element, Event, Fault, Group, Outcome, Pause, RunState,
};
use job_applier::pacing::{Chance, Pacing};
use job_applier::selector::RunConfig;
use job_applier::workflow::Stage;

fn config_with(max_applications: usize) -> RunConfig {
    RunConfig::new("https://jobs.example/search".to_string(), Some(max_applications))
}

/// A results page that answers from a script: ten listings, of which some
/// open a form of several pages, some a one-click dialog, and the rest
/// have no apply control at all.
struct ScriptedPage {
    listings: usize,
    multi_step: Vec<usize>,
    single_step: Vec<usize>,
    open: Option<usize>,
    clicks: Vec<Element>,
    reports: Vec<(usize, Outcome)>,
    summary: Option<RunState>,
    closed: bool,
}

impl ScriptedPage {
    fn new(listings: usize, multi_step: &[usize], single_step: &[usize]) -> ScriptedPage {
        ScriptedPage {
            listings,
            multi_step: multi_step.to_vec(),
            single_step: single_step.to_vec(),
            open: None,
            clicks: Vec::new(),
            reports: Vec::new(),
            summary: None,
            closed: false,
        }
    }

    fn has_apply_control(&self) -> bool {
        match self.open {
            Some(index) => self.multi_step.contains(&index) || self.single_step.contains(&index),
            None => false,
        }
    }

    fn perform(&mut self, action: Action) -> Event {
        match action {
            Action::FindAll(Group::Listings) => Event::Count(self.listings),
            Action::FindAll(Group::DiscardButtons) => Event::Count(2),
            Action::FindOne(Control::ApplyControl) => {
                if self.has_apply_control() {
                    Event::Found
                } else {
                    Event::NotFound
                }
            }
            Action::FindOne(Control::FooterButton) => Event::Found,
            Action::FindOne(Control::DismissControl) => Event::Found,
            Action::FindOne(_) => Event::NotFound,
            Action::ReadText(_) => match self.open {
                Some(index) if self.multi_step.contains(&index) => Event::Text("Next".to_string()),
                _ => Event::Text("Submit".to_string()),
            },
            Action::Click(element) => {
                if let Element::Listing(listing) = element {
                    assert!(listing.index < listing.snapshot_len);
                    assert_eq!(listing.snapshot_len, self.listings);
                    self.open = Some(listing.index);
                }
                self.clicks.push(element);
                Event::Done
            }
            Action::Report(index, outcome) => {
                self.reports.push((index, outcome));
                Event::Done
            }
            Action::Summary(state) => {
                assert!(self.summary.is_none());
                self.summary = Some(state);
                Event::Done
            }
            Action::Close => {
                assert!(!self.closed);
                self.closed = true;
                Event::Done
            }
            _ => Event::Done,
        }
    }

    fn perform_command(&mut self, command: Command) -> Event {
        let action = match command {
            Command::Sleep(_) => Action::Wait(Pause::Cooldown),
            Command::ScrollBy(_) => Action::Scroll,
            Command::Navigate => Action::Navigate,
            Command::FindOne(control) => Action::FindOne(control),
            Command::FindAll(group) => Action::FindAll(group),
            Command::Click(element) => Action::Click(element),
            Command::ReadText(control) => Action::ReadText(control),
            Command::Type(control, keys) => Action::Type(control, keys),
            Command::GoBack => Action::GoBack,
            Command::Report(index, outcome) => Action::Report(index, outcome),
            Command::Summary(state) => Action::Summary(state),
            Command::Close => Action::Close,
            Command::Halt => Action::Halt,
        };
        self.perform(action)
    }
}

/// Runs to the end with the same coin for every toss. Returns the run and
/// the number of steps it took.
fn run_through(mut run: Run, page: &mut ScriptedPage, coin: bool) -> (Run, usize) {
    let mut event = Event::Done;
    let mut steps: usize = 0;
    loop {
        let (next, action) = run.step(&event, coin);
        run = next;
        steps += 1;
        assert!(run.state().applied <= run.max_applications());
        assert!(run.state().examined <= run.candidates().len());
        if action == Action::Halt {
            return (run, steps);
        }
        event = page.perform(action);
        assert!(steps < 10_000);
    }
}

#[test]
fn a_fresh_run_has_counted_nothing() {
    let run = Run::new(&config_with(2), vec![4, 1]);
    assert_eq!(run.state(), RunState { applied: 0, examined: 0 });
    assert_eq!(RunState::fresh(), RunState { applied: 0, examined: 0 });
    assert_eq!(run.phase(), Phase::Ready);
    assert_eq!(run.max_applications(), 2);
    assert_eq!(run.candidates(), &vec![4, 1]);
    assert!(!run.halted());
    assert_eq!(run.chance(), None);
}

#[test]
fn every_outcome_counts_as_examined_and_only_applied_as_applied() {
    let start = RunState { applied: 1, examined: 3 };
    assert_eq!(start.record(Outcome::Applied), RunState { applied: 2, examined: 4 });
    for outcome in [
        Outcome::ViewedOnly,
        Outcome::SkippedStale,
        Outcome::SkippedNoApplyButton,
        Outcome::SkippedMultiStep,
        Outcome::Error(Fault::NoSubmitOrCloseControl),
        Outcome::Error(Fault::SubmitClickFailed),
    ] {
        assert_eq!(start.record(outcome), RunState { applied: 1, examined: 4 });
    }
}

#[test]
fn the_first_step_begins_the_first_candidate() {
    let run = Run::new(&config_with(2), vec![4, 1]);
    let (run, action) = run.step(&Event::Failed, true);
    assert_eq!(action, Action::FindAll(Group::Listings));
    match run.phase() {
        Phase::Working(workflow) => {
            assert_eq!(workflow.index, 4);
            assert!(!workflow.has_applied);
            assert_eq!(workflow.stage, Stage::Resolving);
        }
        other => panic!("unexpected phase {:?}", other),
    }
    assert_eq!(run.chance(), Some(Chance::ViewOnly));
    assert_eq!(run.state(), RunState { applied: 0, examined: 0 });
}

#[test]
fn a_run_without_candidates_sums_up_closes_and_halts() {
    let run = Run::new(&config_with(5), Vec::new());
    let (run, action) = run.step(&Event::Done, false);
    assert_eq!(action, Action::Summary(RunState { applied: 0, examined: 0 }));
    assert_eq!(run.phase(), Phase::Summarised);
    let (run, action) = run.step(&Event::Done, false);
    assert_eq!(action, Action::Close);
    assert_eq!(run.phase(), Phase::Closing);
    let (run, action) = run.step(&Event::Done, false);
    assert_eq!(action, Action::Halt);
    assert!(run.halted());
    let (run, action) = run.step(&Event::Done, false);
    assert_eq!(action, Action::Halt);
    assert!(run.halted());
}

#[test]
fn a_failed_close_still_halts_the_run() {
    let run = Run::new(&config_with(5), Vec::new());
    let (run, _) = run.step(&Event::Done, false);
    let (run, action) = run.step(&Event::Failed, false);
    assert_eq!(action, Action::Close);
    let (run, action) = run.step(&Event::Failed, false);
    assert_eq!(action, Action::Halt);
    assert!(run.halted());
}

#[test]
fn a_run_for_no_applications_examines_nothing() {
    let mut page = ScriptedPage::new(10, &[], &[0, 1, 2]);
    let (run, steps) = run_through(Run::new(&config_with(0), vec![0, 1, 2]), &mut page, false);
    assert_eq!(steps, 3);
    assert_eq!(run.state(), RunState { applied: 0, examined: 0 });
    assert!(page.clicks.is_empty());
    assert!(page.closed);
}

#[test]
fn launch_without_a_page_goes_straight_to_the_summary() {
    let run = launch(&config_with(3), None);
    assert!(run.candidates().is_empty());
    assert_eq!(run.max_applications(), 3);
    let mut page = ScriptedPage::new(0, &[], &[]);
    let (run, steps) = run_through(run, &mut page, false);
    assert_eq!(steps, 3);
    assert_eq!(page.summary, Some(RunState { applied: 0, examined: 0 }));
    assert!(page.closed);
    assert!(run.halted());
}

#[test]
fn launch_selects_three_candidates_for_each_application() {
    for _ in 0..20 {
        let run = launch(&config_with(2), Some(10));
        let mut picked = run.candidates().clone();
        assert_eq!(picked.len(), 6);
        picked.sort();
        picked.dedup();
        assert_eq!(picked.len(), 6);
        assert!(picked.iter().all(|&index| index < 10));
        assert_eq!(run.state(), RunState { applied: 0, examined: 0 });
        assert_eq!(run.phase(), Phase::Ready);
    }
    assert_eq!(launch(&config_with(2), Some(4)).candidates().len(), 4);
    assert_eq!(launch(&config_with(2), Some(0)).candidates().len(), 0);
}

#[test]
fn the_scripted_run_applies_once() {
    let mut page = ScriptedPage::new(10, &[1, 3], &[5]);
    let run = Run::new(&config_with(2), vec![0, 1, 3, 5, 7, 9]);
    let (run, _) = run_through(run, &mut page, false);
    assert_eq!(run.state(), RunState { applied: 1, examined: 6 });
    assert_eq!(
        page.reports,
        vec![
            (0, Outcome::SkippedNoApplyButton),
            (1, Outcome::SkippedMultiStep),
            (3, Outcome::SkippedMultiStep),
            (5, Outcome::Applied),
            (7, Outcome::SkippedNoApplyButton),
            (9, Outcome::SkippedNoApplyButton),
        ]
    );
    assert_eq!(page.summary, Some(RunState { applied: 1, examined: 6 }));
    assert!(page.closed);
    assert!(page.clicks.contains(&Element::DiscardButton(1)));
    assert!(!page.clicks.contains(&Element::DiscardButton(0)));
}

#[test]
fn the_scripted_run_with_every_coin_up_views_after_the_first_application() {
    let mut page = ScriptedPage::new(10, &[1, 3], &[5]);
    let run = Run::new(&config_with(2), vec![0, 1, 3, 5, 7, 9]);
    let (run, _) = run_through(run, &mut page, true);
    assert_eq!(run.state(), RunState { applied: 1, examined: 6 });
    assert_eq!(
        page.reports,
        vec![
            (0, Outcome::SkippedNoApplyButton),
            (1, Outcome::SkippedMultiStep),
            (3, Outcome::SkippedMultiStep),
            (5, Outcome::Applied),
            (7, Outcome::ViewedOnly),
            (9, Outcome::ViewedOnly),
        ]
    );
}

#[test]
fn the_scripted_run_over_a_drawn_selection_stays_in_bounds() {
    for round in 0..50usize {
        let mut page = ScriptedPage::new(10, &[1, 3], &[5]);
        let run = launch(&config_with(2), Some(10));
        let picked = run.candidates().clone();
        assert_eq!(picked.len(), 6);
        let (run, steps) = run_through(run, &mut page, round % 2 == 0);
        let expected: usize = if picked.contains(&5) { 1 } else { 0 };
        assert_eq!(run.state().applied, expected);
        assert!(run.state().examined <= 6);
        assert_eq!(run.state().examined, 6);
        assert!(steps <= 3 + 28 * 6);
        let reported: Vec<usize> = page.reports.iter().map(|report| report.0).collect();
        assert_eq!(reported, picked);
        assert!(page.closed);
    }
}

#[test]
fn the_run_stops_at_the_bound_on_applications() {
    let mut page = ScriptedPage::new(10, &[], &[0, 1, 2, 3, 4, 5, 6, 7, 8, 9]);
    let run = Run::new(&config_with(2), vec![9, 2, 4, 6, 8, 0]);
    let (run, _) = run_through(run, &mut page, false);
    assert_eq!(run.state(), RunState { applied: 2, examined: 2 });
    assert_eq!(page.reports, vec![(9, Outcome::Applied), (2, Outcome::Applied)]);
    assert_eq!(page.summary, Some(RunState { applied: 2, examined: 2 }));
    assert!(page.closed);
}

#[test]
fn a_stale_candidate_is_counted_and_the_run_goes_on() {
    let mut page = ScriptedPage::new(3, &[], &[2]);
    let run = Run::new(&config_with(1), vec![7, 2, 0]);
    let (run, _) = run_through(run, &mut page, false);
    assert_eq!(page.reports, vec![(7, Outcome::SkippedStale), (2, Outcome::Applied)]);
    assert_eq!(run.state(), RunState { applied: 1, examined: 2 });
    assert!(!page.clicks.iter().any(|element| match element {
        Element::Listing(listing) => listing.index == 7,
        _ => false,
    }));
}

#[test]
fn an_error_does_not_stop_the_run() {
    let run = Run::new(&config_with(1), vec![0, 1]);
    let (run, _) = run.step(&Event::Done, false);
    let (run, action) = run.step(&Event::Failed, false);
    assert_eq!(action, Action::Wait(Pause::Cooldown));
    let (run, action) = run.step(&Event::Done, false);
    assert_eq!(action, Action::Report(0, Outcome::Error(Fault::ListingsUnavailable)));
    assert_eq!(run.phase(), Phase::Reported);
    assert_eq!(run.state(), RunState { applied: 0, examined: 1 });
    let (run, action) = run.step(&Event::Done, false);
    assert_eq!(action, Action::FindAll(Group::Listings));
    match run.phase() {
        Phase::Working(workflow) => assert_eq!(workflow.index, 1),
        other => panic!("unexpected phase {:?}", other),
    }
}

#[test]
fn later_candidates_know_that_the_run_has_applied() {
    let mut page = ScriptedPage::new(10, &[], &[0]);
    let mut run = Run::new(&config_with(3), vec![0, 1]);
    let mut event = Event::Done;
    loop {
        let (next, action) = run.step(&event, false);
        run = next;
        if run.state().examined == 1 && matches!(run.phase(), Phase::Working(_)) {
            break;
        }
        event = page.perform(action);
    }
    match run.phase() {
        Phase::Working(workflow) => {
            assert_eq!(workflow.index, 1);
            assert!(workflow.has_applied);
        }
        other => panic!("unexpected phase {:?}", other),
    }
}

#[test]
fn the_counters_stay_in_bounds_whatever_comes_in() {
    let answers = [
        Event::Done,
        Event::Found,
        Event::NotFound,
        Event::Failed,
        Event::Count(0),
        Event::Count(2),
        Event::Count(50),
        Event::Text("Next".to_string()),
        Event::Text("Submit application".to_string()),
    ];
    for seed in 0..300usize {
        let max_applications = seed % 4;
        let candidates: Vec<usize> = (0..seed % 7).map(|index| (index * 5 + seed) % 11).collect();
        let selected = candidates.len();
        let mut run = Run::new(&config_with(max_applications), candidates);
        let mut begun: usize = 0;
        let mut closed = false;
        for position in 0..(3 + 28 * selected) {
            let pick = (seed * 13 + position * 7 + seed / (position + 1)) % answers.len();
            let was_working = matches!(run.phase(), Phase::Working(_));
            let (next, action) = run.step(&answers[pick], (seed + position) % 3 == 0);
            run = next;
            if !was_working && matches!(run.phase(), Phase::Working(_)) {
                begun += 1;
            }
            if action == Action::Halt {
                assert!(closed);
            }
            closed = closed || action == Action::Close;
            assert!(begun <= selected);
            assert!(run.state().applied <= max_applications);
            assert!(run.state().applied <= run.state().examined);
            assert!(run.state().examined <= begun);
        }
        assert!(run.halted());
        assert!(closed);
    }
}

#[test]
fn advance_with_steady_pacing_is_the_step_with_its_coins() {
    for (view, detour) in [(false, false), (true, true)] {
        let pacing = Pacing::steady(view, detour);
        let mut page = ScriptedPage::new(10, &[1, 3], &[5]);
        let mut other_page = ScriptedPage::new(10, &[1, 3], &[5]);
        let mut advanced = Run::new(&config_with(2), vec![0, 1, 3, 5, 7, 9]);
        let mut stepped = Run::new(&config_with(2), vec![0, 1, 3, 5, 7, 9]);
        let mut event = Event::Done;
        loop {
            let coin = match stepped.chance() {
                Some(Chance::ViewOnly) => view,
                Some(Chance::CompanyDetour) => detour,
                None => false,
            };
            let (next, action) = stepped.step(&event, coin);
            stepped = next;
            let (next, command) = advanced.advance(&event, &pacing);
            advanced = next;
            assert_eq!(pacing.realise(action), command);
            assert_eq!(advanced.state(), stepped.state());
            assert_eq!(advanced.phase(), stepped.phase());
            if command == Command::Halt {
                break;
            }
            event = page.perform_command(command);
            assert_eq!(other_page.perform(action), event);
        }
        assert_eq!(advanced.state(), RunState { applied: 1, examined: 6 });
    }
}

#[test]
fn advance_with_human_pacing_draws_inside_the_ranges() {
    let pacing = Pacing::human();
    for _ in 0..20 {
        let mut page = ScriptedPage::new(10, &[1, 3], &[5]);
        let mut run = launch(&config_with(2), Some(10));
        let picked = run.candidates().clone();
        let mut event = Event::Done;
        let mut steps: usize = 0;
        loop {
            let (next, command) = run.advance(&event, &pacing);
            run = next;
            steps += 1;
            match command {
                Command::Sleep(secs) => assert!((1..=30).contains(&secs)),
                Command::ScrollBy(pixels) => assert!((100..500).contains(&pixels)),
                _ => {}
            }
            if command == Command::Halt {
                break;
            }
            event = page.perform_command(command);
            assert!(steps <= 3 + 28 * 6);
        }
        let expected: usize = if picked.contains(&5) { 1 } else { 0 };
        assert_eq!(run.state(), RunState { applied: expected, examined: 6 });
        assert!(page.closed);
    }
}
