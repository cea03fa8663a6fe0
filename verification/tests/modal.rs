use job_applier::modal::{classify_modal, discard_choice};
use job_applier::model::{Control, Element, ModalState};

fn submit() -> ModalState {
    ModalState::SingleStep(Element::Control(Control::FooterButton))
}

#[test]
fn a_dialog_without_footer_button_has_nothing_to_submit() {
    assert_eq!(classify_modal(None), ModalState::NoFooterButton);
}

#[test]
fn a_footer_that_reads_next_is_multi_step() {
    assert_eq!(classify_modal(Some("Next")), ModalState::MultiStep);
}

#[test]
fn a_footer_that_reads_submit_application_is_single_step() {
    assert_eq!(classify_modal(Some("Submit application")), submit());
    assert_eq!(classify_modal(Some("Submit")), submit());
}

#[test]
fn next_anywhere_in_the_text_is_multi_step() {
    assert_eq!(classify_modal(Some("Next step")), ModalState::MultiStep);
    assert_eq!(classify_modal(Some("Continue to Next")), ModalState::MultiStep);
    assert_eq!(classify_modal(Some("  Next\n")), ModalState::MultiStep);
    assert_eq!(classify_modal(Some("Review, then Next, then submit")), ModalState::MultiStep);
    assert_eq!(classify_modal(Some("NNext")), ModalState::MultiStep);
}

#[test]
fn the_token_is_matched_letter_for_letter() {
    assert_eq!(classify_modal(Some("next")), submit());
    assert_eq!(classify_modal(Some("NEXT")), submit());
    assert_eq!(classify_modal(Some("Nex")), submit());
    assert_eq!(classify_modal(Some("N e x t")), submit());
    assert_eq!(classify_modal(Some("Nexxt")), submit());
    assert_eq!(classify_modal(Some("txeN")), submit());
}

#[test]
fn an_empty_footer_text_is_single_step() {
    assert_eq!(classify_modal(Some("")), submit());
}

#[test]
fn text_beyond_ascii_is_read_by_characters() {
    assert_eq!(classify_modal(Some("Weiter \u{2192} Next")), ModalState::MultiStep);
    assert_eq!(classify_modal(Some("\u{00c9}tape suivante")), submit());
}

#[test]
fn no_discard_button_means_no_click() {
    assert_eq!(discard_choice(0), None);
}

#[test]
fn a_single_discard_button_is_clicked() {
    assert_eq!(discard_choice(1), Some(0));
}

#[test]
fn of_two_discard_buttons_the_second_is_clicked() {
    assert_eq!(discard_choice(2), Some(1));
}

#[test]
fn of_many_discard_buttons_the_second_is_clicked() {
    assert_eq!(discard_choice(3), Some(1));
    assert_eq!(discard_choice(17), Some(1));
    assert_eq!(discard_choice(usize::MAX), Some(1));
}
