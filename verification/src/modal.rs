//! Reading the apply dialog: is it a one-click application or the first
//! page of a longer form, and which button confirms that a form is dropped.

use crate::model::{Control, Element, ModalState};
use vstd::prelude::*;

verus! {

/// `token` occurs in `text` as a run of consecutive characters.
pub open spec fn has_token(text: Seq<char>, token: Seq<char>) -> bool {
    exists|at: int|
        0 <= at && at + token.len() <= text.len() && #[trigger] text.subrange(
            at,
            at + token.len(),
        ) == token
}

/// The word on the footer button that marks a form of several pages.
pub open spec fn next_token() -> Seq<char> {
    "Next"@
}

/// What a dialog is, judged by its footer button: without one there is
/// nothing to submit; a button that says "Next" leads to further pages; any
/// other button submits.
pub open spec fn spec_classify(footer: Option<Seq<char>>) -> ModalState {
    match footer {
        None => ModalState::NoFooterButton,
        Some(text) => if has_token(text, next_token()) {
            ModalState::MultiStep
        } else {
            ModalState::SingleStep(Element::Control(Control::FooterButton))
        },
    }
}

/// The view of an optional footer text.
pub open spec fn footer_view(footer: Option<&str>) -> Option<Seq<char>> {
    match footer {
        None => None,
        Some(text) => Some(text@),
    }
}

/// Which discard button to click out of `count`: the second where there
/// are two or more, the only one where there is one, none otherwise.
pub open spec fn spec_discard_choice(count: usize) -> Option<usize> {
    if count >= 2 {
        Some(1)
    } else if count == 1 {
        Some(0)
    } else {
        None
    }
}

/// Classifies the apply dialog from the text of its footer button, `None`
/// standing for a dialog without one.
pub fn classify_modal(footer: Option<&str>) -> (state: ModalState)
    ensures
        state == spec_classify(footer_view(footer)),
{
    match footer {
        None => ModalState::NoFooterButton,
        Some(text) => {
            if contains(text, "Next") {
                ModalState::MultiStep
            } else {
                ModalState::SingleStep(Element::Control(Control::FooterButton))
            }
        },
    }
}

/// Picks the button that confirms dropping a form. The confirmation
/// dialog lists the cautious choice first and the discarding one second, so
/// the second is taken whenever there is one.
pub fn discard_choice(count: usize) -> (choice: Option<usize>)
    ensures
        choice == spec_discard_choice(count),
        choice matches Some(i) ==> i < count,
        count == 2 ==> choice == Some(1usize),
{
    if count >= 2 {
        Some(1)
    } else if count == 1 {
        Some(0)
    } else {
        None
    }
}

/// A footer that reads exactly "Next" belongs to a form of several pages.
pub proof fn lemma_next_is_multi_step(text: Seq<char>)
    requires
        text == next_token(),
    ensures
        has_token(text, next_token()),
        spec_classify(Some(text)) == ModalState::MultiStep,
{
    assert(text.subrange(0int, 0int + next_token().len()) =~= next_token());
}

/// Calls `str::contains` with a string pattern. The standard library
/// documents it as true exactly when the pattern matches a sub-slice of the
/// text; for a string pattern that is an occurrence of its characters in a
/// row, which is what the contract says.
#[verifier::external_body]
fn contains(text: &str, token: &str) -> (found: bool)
    ensures
        found == has_token(text@, token@),
{
    text.contains(token)
}

} // verus!
