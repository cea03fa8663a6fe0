//! Randomised pacing: how long to wait, how far to scroll, whether to take a
//! detour. Every number that shapes the bot's rhythm is named here, so a
//! caller can replace it, or pin it down to take chance out of a run.

use crate::model::{Action, Command, Pause};
use vstd::prelude::*;

verus! {

/// An inclusive range of whole seconds to wait.
#[derive(Clone, Copy, Debug, PartialEq, Eq, Structural)]
pub struct DelayRange {
    min_secs: u64,
    max_secs: u64,
}

impl DelayRange {
    #[verifier::type_invariant]
    spec fn ordered(self) -> bool {
        self.min_secs <= self.max_secs
    }

    /// Shortest wait of the range, in seconds.
    pub closed spec fn min(self) -> u64 {
        self.min_secs
    }

    /// Longest wait of the range, in seconds.
    pub closed spec fn max(self) -> u64 {
        self.max_secs
    }

    /// The range `min_secs..=max_secs`, or `None` when it would be empty.
    pub fn new(min_secs: u64, max_secs: u64) -> (range: Option<DelayRange>)
        ensures
            range is Some <==> min_secs <= max_secs,
            range matches Some(r) ==> r.min() == min_secs && r.max() == max_secs,
    {
        if min_secs <= max_secs {
            Some(DelayRange { min_secs, max_secs })
        } else {
            None
        }
    }

    /// A wait of exactly `secs` seconds.
    pub fn exactly(secs: u64) -> (range: DelayRange)
        ensures
            range.min() == secs,
            range.max() == secs,
    {
        DelayRange { min_secs: secs, max_secs: secs }
    }

    pub fn min_secs(&self) -> (secs: u64)
        ensures
            secs == self.min(),
    {
        self.min_secs
    }

    pub fn max_secs(&self) -> (secs: u64)
        ensures
            secs == self.max(),
    {
        self.max_secs
    }

    /// Draws a number of seconds from the range.
    pub fn draw(&self) -> (secs: u64)
        ensures
            self.min() <= secs <= self.max(),
    {
        proof {
            use_type_invariant(self);
        }
        uniform_inclusive(self.min_secs, self.max_secs)
    }
}

/// A half-open range of pixels to scroll by: `low` is in, `high` is out.
#[derive(Clone, Copy, Debug, PartialEq, Eq, Structural)]
pub struct ScrollRange {
    low_px: u32,
    high_px: u32,
}

impl ScrollRange {
    #[verifier::type_invariant]
    spec fn inhabited(self) -> bool {
        self.low_px < self.high_px
    }

    /// Smallest amount of the range, in pixels.
    pub closed spec fn low(self) -> u32 {
        self.low_px
    }

    /// First amount above the range, in pixels.
    pub closed spec fn high(self) -> u32 {
        self.high_px
    }

    /// The range `low_px..high_px`, or `None` when it would be empty.
    pub fn new(low_px: u32, high_px: u32) -> (range: Option<ScrollRange>)
        ensures
            range is Some <==> low_px < high_px,
            range matches Some(r) ==> r.low() == low_px && r.high() == high_px,
    {
        if low_px < high_px {
            Some(ScrollRange { low_px, high_px })
        } else {
            None
        }
    }

    pub fn low_px(&self) -> (pixels: u32)
        ensures
            pixels == self.low(),
    {
        self.low_px
    }

    pub fn high_px(&self) -> (pixels: u32)
        ensures
            pixels == self.high(),
    {
        self.high_px
    }

    /// Draws a number of pixels from the range: one of `low` up to the last
    /// below `high`.
    pub fn draw(&self) -> (pixels: u32)
        ensures
            self.low() <= pixels < self.high(),
    {
        proof {
            use_type_invariant(self);
        }
        let last: u32 = self.high_px - 1;
        let drawn: u64 = uniform_inclusive(self.low_px as u64, last as u64);
        drawn as u32
    }
}

/// A chance of `numerator` in `denominator`.
#[derive(Clone, Copy, Debug, PartialEq, Eq, Structural)]
pub struct Ratio {
    numerator: u32,
    denominator: u32,
}

impl Ratio {
    #[verifier::type_invariant]
    spec fn proper(self) -> bool {
        0 < self.denominator && self.numerator <= self.denominator
    }

    pub closed spec fn num(self) -> u32 {
        self.numerator
    }

    pub closed spec fn den(self) -> u32 {
        self.denominator
    }

    /// The chance has only one outcome: it never hits or it always does.
    pub open spec fn is_certain(self) -> bool {
        self.num() == 0 || self.num() == self.den()
    }

    /// `coin` is a toss that this chance can give. A chance of zero never
    /// hits and a chance of one always does; anything between may go either
    /// way.
    pub open spec fn permits(self, coin: bool) -> bool {
        &&& self.num() == self.den() ==> coin
        &&& self.num() == 0 && self.num() != self.den() ==> !coin
    }

    /// The chance `numerator / denominator`, or `None` when that is no
    /// probability: a zero denominator, or more than one.
    pub fn new(numerator: u32, denominator: u32) -> (ratio: Option<Ratio>)
        ensures
            ratio is Some <==> 0 < denominator && numerator <= denominator,
            ratio matches Some(r) ==> r.num() == numerator && r.den() == denominator,
    {
        if 0 < denominator && numerator <= denominator {
            Some(Ratio { numerator, denominator })
        } else {
            None
        }
    }

    /// The chance that never hits.
    pub fn never() -> (ratio: Ratio)
        ensures
            ratio.num() == 0,
            ratio.den() == 1,
    {
        Ratio { numerator: 0, denominator: 1 }
    }

    /// The chance that always hits.
    pub fn always() -> (ratio: Ratio)
        ensures
            ratio.num() == 1,
            ratio.den() == 1,
    {
        Ratio { numerator: 1, denominator: 1 }
    }

    pub fn numerator(&self) -> (n: u32)
        ensures
            n == self.num(),
    {
        self.numerator
    }

    pub fn denominator(&self) -> (d: u32)
        ensures
            d == self.den(),
            d > 0,
    {
        proof {
            use_type_invariant(self);
        }
        self.denominator
    }

    /// Tosses a coin that comes up `true` with this chance.
    pub fn toss(&self) -> (coin: bool)
        ensures
            self.permits(coin),
    {
        proof {
            use_type_invariant(self);
        }
        bernoulli(self.numerator, self.denominator)
    }
}

/// The two places where a listing's handling is left to chance.
#[derive(Clone, Copy, Debug, PartialEq, Eq, Structural)]
pub enum Chance {
    /// Only look at the listing, do not apply.
    ViewOnly,
    /// Visit the company's page before applying.
    CompanyDetour,
}

/// The shortest and the longest wait, in seconds, that a person browsing
/// leaves at each named wait.
pub open spec fn human_bounds(pause: Pause) -> (u64, u64) {
    match pause {
        Pause::PageLoad => (5, 10),
        Pause::SignInSettle => (2, 5),
        Pause::Keystroke => (1, 3),
        Pause::LoginSettle => (7, 12),
        Pause::FirstLook => (2, 5),
        Pause::ViewLinger => (5, 15),
        Pause::ViewCooldown => (3, 8),
        Pause::ListingOpen => (3, 7),
        Pause::ListingRead => (2, 5),
        Pause::CompanyLinger => (5, 15),
        Pause::CompanyRead => (3, 7),
        Pause::CompanyReturn => (3, 6),
        Pause::ModalOpen => (4, 7),
        Pause::DismissSettle => (1, 3),
        Pause::MultiStepSettle => (2, 4),
        Pause::SubmitSettle => (5, 10),
        Pause::CloseSettle => (2, 4),
        Pause::NoApplySettle => (2, 4),
        Pause::Cooldown => (10, 30),
    }
}

/// The pacing of a run: a range for every named wait, the range of a
/// scroll, and the two chances.
#[derive(Clone, Copy, Debug, PartialEq, Eq, Structural)]
pub struct Pacing {
    pub page_load: DelayRange,
    pub sign_in_settle: DelayRange,
    pub keystroke: DelayRange,
    pub login_settle: DelayRange,
    pub first_look: DelayRange,
    pub view_linger: DelayRange,
    pub view_cooldown: DelayRange,
    pub listing_open: DelayRange,
    pub listing_read: DelayRange,
    pub company_linger: DelayRange,
    pub company_read: DelayRange,
    pub company_return: DelayRange,
    pub modal_open: DelayRange,
    pub dismiss_settle: DelayRange,
    pub multi_step_settle: DelayRange,
    pub submit_settle: DelayRange,
    pub close_settle: DelayRange,
    pub no_apply_settle: DelayRange,
    pub cooldown: DelayRange,
    pub scroll: ScrollRange,
    pub view_only: Ratio,
    pub company_detour: Ratio,
}

impl Pacing {
    /// The range that this pacing gives to `pause`.
    pub open spec fn spec_delay(self, pause: Pause) -> DelayRange {
        match pause {
            Pause::PageLoad => self.page_load,
            Pause::SignInSettle => self.sign_in_settle,
            Pause::Keystroke => self.keystroke,
            Pause::LoginSettle => self.login_settle,
            Pause::FirstLook => self.first_look,
            Pause::ViewLinger => self.view_linger,
            Pause::ViewCooldown => self.view_cooldown,
            Pause::ListingOpen => self.listing_open,
            Pause::ListingRead => self.listing_read,
            Pause::CompanyLinger => self.company_linger,
            Pause::CompanyRead => self.company_read,
            Pause::CompanyReturn => self.company_return,
            Pause::ModalOpen => self.modal_open,
            Pause::DismissSettle => self.dismiss_settle,
            Pause::MultiStepSettle => self.multi_step_settle,
            Pause::SubmitSettle => self.submit_settle,
            Pause::CloseSettle => self.close_settle,
            Pause::NoApplySettle => self.no_apply_settle,
            Pause::Cooldown => self.cooldown,
        }
    }

    /// The ratio that this pacing gives to `chance`.
    pub open spec fn spec_ratio(self, chance: Chance) -> Ratio {
        match chance {
            Chance::ViewOnly => self.view_only,
            Chance::CompanyDetour => self.company_detour,
        }
    }

    /// `coin` is a toss that this pacing can give where `chance` is asked
    /// for. Where nothing is left to chance the coin is not tossed and
    /// reads `false`.
    pub open spec fn permits(self, chance: Option<Chance>, coin: bool) -> bool {
        match chance {
            Some(c) => self.spec_ratio(c).permits(coin),
            None => !coin,
        }
    }

    /// `command` is `action` with its numbers drawn within this pacing: a
    /// wait became a sleep inside the wait's range, a scroll became a number
    /// of pixels inside the scroll range, and everything else is unchanged.
    pub open spec fn realises(self, action: Action, command: Command) -> bool {
        match action {
            Action::Wait(pause) => {
                &&& command matches Command::Sleep(secs)
                &&& self.spec_delay(pause).min() <= secs <= self.spec_delay(pause).max()
            },
            Action::Scroll => {
                &&& command matches Command::ScrollBy(pixels)
                &&& self.scroll.low() <= pixels < self.scroll.high()
            },
            Action::Navigate => command == Command::Navigate,
            Action::FindOne(control) => command == Command::FindOne(control),
            Action::FindAll(group) => command == Command::FindAll(group),
            Action::Click(element) => command == Command::Click(element),
            Action::ReadText(control) => command == Command::ReadText(control),
            Action::Type(control, input) => command == Command::Type(control, input),
            Action::GoBack => command == Command::GoBack,
            Action::Report(index, outcome) => command == Command::Report(index, outcome),
            Action::Summary(state) => command == Command::Summary(state),
            Action::Close => command == Command::Close,
            Action::Halt => command == Command::Halt,
        }
    }

    /// The pacing of a person browsing: the waits of `human_bounds`, with
    /// its long cooldown between listings, scrolls of 100 to 499 pixels, one
    /// listing in five only looked at, three company pages in ten visited.
    pub fn human() -> (pacing: Pacing)
        ensures
            forall|pause: Pause|
                {
                    let range = #[trigger] pacing.spec_delay(pause);
                    range.min() == human_bounds(pause).0 && range.max() == human_bounds(pause).1
                },
            pacing.scroll.low() == 100 && pacing.scroll.high() == 500,
            pacing.view_only.num() == 1 && pacing.view_only.den() == 5,
            pacing.company_detour.num() == 3 && pacing.company_detour.den() == 10,
    {
        Pacing {
            page_load: DelayRange { min_secs: 5, max_secs: 10 },
            sign_in_settle: DelayRange { min_secs: 2, max_secs: 5 },
            keystroke: DelayRange { min_secs: 1, max_secs: 3 },
            login_settle: DelayRange { min_secs: 7, max_secs: 12 },
            first_look: DelayRange { min_secs: 2, max_secs: 5 },
            view_linger: DelayRange { min_secs: 5, max_secs: 15 },
            view_cooldown: DelayRange { min_secs: 3, max_secs: 8 },
            listing_open: DelayRange { min_secs: 3, max_secs: 7 },
            listing_read: DelayRange { min_secs: 2, max_secs: 5 },
            company_linger: DelayRange { min_secs: 5, max_secs: 15 },
            company_read: DelayRange { min_secs: 3, max_secs: 7 },
            company_return: DelayRange { min_secs: 3, max_secs: 6 },
            modal_open: DelayRange { min_secs: 4, max_secs: 7 },
            dismiss_settle: DelayRange { min_secs: 1, max_secs: 3 },
            multi_step_settle: DelayRange { min_secs: 2, max_secs: 4 },
            submit_settle: DelayRange { min_secs: 5, max_secs: 10 },
            close_settle: DelayRange { min_secs: 2, max_secs: 4 },
            no_apply_settle: DelayRange { min_secs: 2, max_secs: 4 },
            cooldown: DelayRange { min_secs: 10, max_secs: 30 },
            scroll: ScrollRange { low_px: 100, high_px: 500 },
            view_only: Ratio { numerator: 1, denominator: 5 },
            company_detour: Ratio { numerator: 3, denominator: 10 },
        }
    }

    /// The pacing with nothing left to chance: every wait is the shortest
    /// of `human_bounds`, every scroll is 100 pixels, and the two chances are
    /// settled by `view_only` and `company_detour`.
    pub fn steady(view_only: bool, company_detour: bool) -> (pacing: Pacing)
        ensures
            forall|pause: Pause|
                {
                    let range = #[trigger] pacing.spec_delay(pause);
                    range.min() == human_bounds(pause).0 && range.max() == human_bounds(pause).0
                },
            pacing.scroll.low() == 100 && pacing.scroll.high() == 101,
            pacing.view_only.is_certain() && pacing.view_only.permits(view_only),
            pacing.company_detour.is_certain() && pacing.company_detour.permits(company_detour),
            forall|coin: bool|
                pacing.permits(Some(Chance::ViewOnly), coin) <==> coin == view_only,
            forall|coin: bool|
                pacing.permits(Some(Chance::CompanyDetour), coin) <==> coin == company_detour,
    {
        let hit = Ratio { numerator: 1, denominator: 1 };
        let miss = Ratio { numerator: 0, denominator: 1 };
        Pacing {
            page_load: DelayRange { min_secs: 5, max_secs: 5 },
            sign_in_settle: DelayRange { min_secs: 2, max_secs: 2 },
            keystroke: DelayRange { min_secs: 1, max_secs: 1 },
            login_settle: DelayRange { min_secs: 7, max_secs: 7 },
            first_look: DelayRange { min_secs: 2, max_secs: 2 },
            view_linger: DelayRange { min_secs: 5, max_secs: 5 },
            view_cooldown: DelayRange { min_secs: 3, max_secs: 3 },
            listing_open: DelayRange { min_secs: 3, max_secs: 3 },
            listing_read: DelayRange { min_secs: 2, max_secs: 2 },
            company_linger: DelayRange { min_secs: 5, max_secs: 5 },
            company_read: DelayRange { min_secs: 3, max_secs: 3 },
            company_return: DelayRange { min_secs: 3, max_secs: 3 },
            modal_open: DelayRange { min_secs: 4, max_secs: 4 },
            dismiss_settle: DelayRange { min_secs: 1, max_secs: 1 },
            multi_step_settle: DelayRange { min_secs: 2, max_secs: 2 },
            submit_settle: DelayRange { min_secs: 5, max_secs: 5 },
            close_settle: DelayRange { min_secs: 2, max_secs: 2 },
            no_apply_settle: DelayRange { min_secs: 2, max_secs: 2 },
            cooldown: DelayRange { min_secs: 10, max_secs: 10 },
            scroll: ScrollRange { low_px: 100, high_px: 101 },
            view_only: if view_only {
                hit
            } else {
                miss
            },
            company_detour: if company_detour {
                hit
            } else {
                miss
            },
        }
    }

    /// The range of a named wait.
    pub fn delay(&self, pause: Pause) -> (range: DelayRange)
        ensures
            range == self.spec_delay(pause),
    {
        match pause {
            Pause::PageLoad => self.page_load,
            Pause::SignInSettle => self.sign_in_settle,
            Pause::Keystroke => self.keystroke,
            Pause::LoginSettle => self.login_settle,
            Pause::FirstLook => self.first_look,
            Pause::ViewLinger => self.view_linger,
            Pause::ViewCooldown => self.view_cooldown,
            Pause::ListingOpen => self.listing_open,
            Pause::ListingRead => self.listing_read,
            Pause::CompanyLinger => self.company_linger,
            Pause::CompanyRead => self.company_read,
            Pause::CompanyReturn => self.company_return,
            Pause::ModalOpen => self.modal_open,
            Pause::DismissSettle => self.dismiss_settle,
            Pause::MultiStepSettle => self.multi_step_settle,
            Pause::SubmitSettle => self.submit_settle,
            Pause::CloseSettle => self.close_settle,
            Pause::NoApplySettle => self.no_apply_settle,
            Pause::Cooldown => self.cooldown,
        }
    }

    /// The ratio of one of the two chances.
    pub fn ratio(&self, chance: Chance) -> (ratio: Ratio)
        ensures
            ratio == self.spec_ratio(chance),
    {
        match chance {
            Chance::ViewOnly => self.view_only,
            Chance::CompanyDetour => self.company_detour,
        }
    }

    /// Tosses the coin for `chance`; with nothing to decide, no coin is
    /// tossed and the answer is `false`.
    pub fn toss(&self, chance: Option<Chance>) -> (coin: bool)
        ensures
            self.permits(chance, coin),
    {
        match chance {
            Some(c) => self.ratio(c).toss(),
            None => false,
        }
    }

    /// Draws the numbers that `action` leaves open.
    pub fn realise(&self, action: Action) -> (command: Command)
        ensures
            self.realises(action, command),
    {
        match action {
            Action::Wait(pause) => Command::Sleep(self.delay(pause).draw()),
            Action::Scroll => Command::ScrollBy(self.scroll.draw()),
            Action::Navigate => Command::Navigate,
            Action::FindOne(control) => Command::FindOne(control),
            Action::FindAll(group) => Command::FindAll(group),
            Action::Click(element) => Command::Click(element),
            Action::ReadText(control) => Command::ReadText(control),
            Action::Type(control, input) => Command::Type(control, input),
            Action::GoBack => Command::GoBack,
            Action::Report(index, outcome) => Command::Report(index, outcome),
            Action::Summary(state) => Command::Summary(state),
            Action::Close => Command::Close,
            Action::Halt => Command::Halt,
        }
    }
}

/// Calls `rand::Rng::random_range` on the thread-local generator with the
/// inclusive range `low..=high`. The claim is only that the number drawn
/// lies in the range; which number is left to chance. An empty range makes
/// the generator panic, so it is excluded.
#[verifier::external_body]
fn uniform_inclusive(low: u64, high: u64) -> (drawn: u64)
    requires
        low <= high,
    ensures
        low <= drawn <= high,
{
    rand::Rng::random_range(&mut rand::rng(), low..=high)
}

/// Calls `rand::Rng::random_ratio` on the thread-local generator. Its
/// documentation fixes the two ends: a numerator equal to the denominator
/// always gives `true`, a numerator of zero always gives `false`. Nothing
/// is claimed in between. A zero denominator, or a numerator above the
/// denominator, makes it panic, so both are excluded.
#[verifier::external_body]
fn bernoulli(numerator: u32, denominator: u32) -> (coin: bool)
    requires
        0 < denominator,
        numerator <= denominator,
    ensures
        numerator == denominator ==> coin,
        numerator == 0 ==> !coin,
{
    rand::Rng::random_ratio(&mut rand::rng(), numerator, denominator)
}

} // verus!
