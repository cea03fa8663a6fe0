//! The vocabulary shared by the state machines: what can be looked for on a
//! page, what the caller is asked to do, what it reports back, and how one
//! listing can end.

use vstd::prelude::*;

verus! {

/// How many applications a run submits when the caller names no bound.
pub const DEFAULT_MAX_APPLICATIONS: usize = 5;

/// A page element that is looked up on its own, named by the part it plays.
#[derive(Clone, Copy, Debug, PartialEq, Eq, Structural)]
pub enum Control {
    SignInLink,
    UsernameField,
    PasswordField,
    CompanyLink,
    ApplyControl,
    FooterButton,
    DismissControl,
}

/// A family of page elements that is looked up as a whole.
#[derive(Clone, Copy, Debug, PartialEq, Eq, Structural)]
pub enum Group {
    Listings,
    DiscardButtons,
}

/// A listing as it stood in the latest snapshot of the results page.
///
/// The reference is only good until the listings are fetched again, so it
/// records how long the snapshot was that it was taken from.
#[derive(Clone, Copy, Debug, PartialEq, Eq, Structural)]
pub struct ListingRef {
    pub index: usize,
    pub snapshot_len: usize,
}

impl ListingRef {
    /// The reference points inside the snapshot it was taken from.
    pub open spec fn in_snapshot(self) -> bool {
        self.index < self.snapshot_len
    }

    pub open spec fn spec_resolve(index: usize, snapshot_len: usize) -> Option<ListingRef> {
        if index < snapshot_len {
            Some(ListingRef { index, snapshot_len })
        } else {
            None
        }
    }

    /// Looks `index` up in a snapshot of `snapshot_len` listings that was
    /// just taken. A listing that is no longer there gives `None`.
    pub fn resolve(index: usize, snapshot_len: usize) -> (listing: Option<ListingRef>)
        ensures
            listing == Self::spec_resolve(index, snapshot_len),
            listing is Some <==> index < snapshot_len,
            listing matches Some(l) ==> l.in_snapshot(),
    {
        if index < snapshot_len {
            Some(ListingRef { index, snapshot_len })
        } else {
            None
        }
    }
}

/// Something on the page that can be clicked.
#[derive(Clone, Copy, Debug, PartialEq, Eq, Structural)]
pub enum Element {
    /// The element most recently found for this control.
    Control(Control),
    /// A listing of the most recent listings snapshot.
    Listing(ListingRef),
    /// A button of the most recent discard-buttons snapshot, by position.
    DiscardButton(usize),
}

/// What is typed into a field. Credentials stay with the caller; the
/// machines only say which one goes where.
#[derive(Clone, Copy, Debug, PartialEq, Eq, Structural)]
pub enum Keys {
    Username,
    Password,
    Enter,
}

/// A named wait. The pacing configuration gives each one its range.
#[derive(Clone, Copy, Debug, PartialEq, Eq, Structural)]
pub enum Pause {
    PageLoad,
    SignInSettle,
    Keystroke,
    LoginSettle,
    FirstLook,
    ViewLinger,
    /// The cooldown after a listing that was only looked at.
    ViewCooldown,
    ListingOpen,
    ListingRead,
    CompanyLinger,
    CompanyRead,
    CompanyReturn,
    ModalOpen,
    DismissSettle,
    MultiStepSettle,
    SubmitSettle,
    CloseSettle,
    NoApplySettle,
    /// The long wait between two listings.
    Cooldown,
}

/// Why a listing ended in an error.
#[derive(Clone, Copy, Debug, PartialEq, Eq, Structural)]
pub enum Fault {
    /// The apply dialog showed neither a submit nor a close control.
    NoSubmitOrCloseControl,
    /// The listings could not be fetched again.
    ListingsUnavailable,
    /// The click on the listing did not go through.
    ListingClickFailed,
    /// The page could not be scrolled.
    ScrollFailed,
    /// The click on the apply control did not go through.
    ApplyClickFailed,
    /// The footer button's text could not be read.
    FooterUnreadable,
    /// The click on the submit button did not go through.
    SubmitClickFailed,
}

impl Fault {
    /// The fault in words.
    pub open spec fn spec_message(self) -> Seq<char> {
        match self {
            Fault::NoSubmitOrCloseControl => "no submit or close control"@,
            Fault::ListingsUnavailable => "listings could not be fetched"@,
            Fault::ListingClickFailed => "click on the listing failed"@,
            Fault::ScrollFailed => "scroll failed"@,
            Fault::ApplyClickFailed => "click on the apply control failed"@,
            Fault::FooterUnreadable => "footer button could not be read"@,
            Fault::SubmitClickFailed => "click on the submit button failed"@,
        }
    }

    /// The fault in words, for the line that reports the listing.
    pub fn message(&self) -> (text: &'static str)
        ensures
            text@ == self.spec_message(),
    {
        match self {
            Fault::NoSubmitOrCloseControl => "no submit or close control",
            Fault::ListingsUnavailable => "listings could not be fetched",
            Fault::ListingClickFailed => "click on the listing failed",
            Fault::ScrollFailed => "scroll failed",
            Fault::ApplyClickFailed => "click on the apply control failed",
            Fault::FooterUnreadable => "footer button could not be read",
            Fault::SubmitClickFailed => "click on the submit button failed",
        }
    }
}

/// How the workflow ended for one listing.
#[derive(Clone, Copy, Debug, PartialEq, Eq, Structural)]
pub enum Outcome {
    Applied,
    ViewedOnly,
    SkippedStale,
    SkippedNoApplyButton,
    SkippedMultiStep,
    Error(Fault),
}

/// What the apply dialog turned out to be.
#[derive(Clone, Copy, Debug, PartialEq, Eq, Structural)]
pub enum ModalState {
    NoFooterButton,
    /// One click on the given element submits the application.
    SingleStep(Element),
    MultiStep,
}

/// The counters of a run.
#[derive(Clone, Copy, Debug, PartialEq, Eq, Structural)]
pub struct RunState {
    pub applied: usize,
    pub examined: usize,
}

impl RunState {
    pub open spec fn spec_fresh() -> RunState {
        RunState { applied: 0, examined: 0 }
    }

    /// The counters after one more listing ended with `outcome`: every
    /// outcome counts as examined, only `Applied` counts as applied.
    pub open spec fn spec_record(self, outcome: Outcome) -> RunState {
        RunState {
            applied: if outcome is Applied {
                (self.applied + 1) as usize
            } else {
                self.applied
            },
            examined: (self.examined + 1) as usize,
        }
    }

    pub fn fresh() -> (state: RunState)
        ensures
            state == Self::spec_fresh(),
    {
        RunState { applied: 0, examined: 0 }
    }

    pub fn record(self, outcome: Outcome) -> (state: RunState)
        requires
            self.applied < usize::MAX,
            self.examined < usize::MAX,
        ensures
            state == self.spec_record(outcome),
            state.examined == self.examined + 1,
            state.applied == self.applied + if outcome is Applied { 1int } else { 0int },
    {
        let applied: usize = match outcome {
            Outcome::Applied => self.applied + 1,
            _ => self.applied,
        };
        RunState { applied, examined: self.examined + 1 }
    }
}

/// What one step of a machine asks of its caller, before any number is drawn.
#[derive(Clone, Copy, Debug, PartialEq, Eq, Structural)]
pub enum Action {
    /// Open the configured search page.
    Navigate,
    FindOne(Control),
    FindAll(Group),
    Click(Element),
    ReadText(Control),
    Type(Control, Keys),
    Wait(Pause),
    Scroll,
    GoBack,
    /// The listing at this index of the selection's source ended this way.
    Report(usize, Outcome),
    /// The run is over; these are its final counts.
    Summary(RunState),
    /// Close the session.
    Close,
    /// Nothing is left to do.
    Halt,
}

/// An action with its numbers drawn: what the caller carries out.
#[derive(Clone, Copy, Debug, PartialEq, Eq, Structural)]
pub enum Command {
    Navigate,
    FindOne(Control),
    FindAll(Group),
    Click(Element),
    ReadText(Control),
    Type(Control, Keys),
    /// Wait this many seconds.
    Sleep(u64),
    /// Scroll down by this many pixels.
    ScrollBy(u32),
    GoBack,
    Report(usize, Outcome),
    Summary(RunState),
    Close,
    Halt,
}

/// What came of the last command.
#[derive(Clone, Debug, PartialEq, Eq)]
pub enum Event {
    /// The command was carried out.
    Done,
    /// The control was found.
    Found,
    /// No element matched.
    NotFound,
    /// This many elements matched; none is `Count(0)`.
    Count(usize),
    /// The element's text.
    Text(String),
    /// The session failed to carry the command out.
    Failed,
}

} // verus!
