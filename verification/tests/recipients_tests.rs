use ddns_monitor::recipients::{
    reconcile_recipients, RecipientEngine, RecipientOutcome, RecipientsError,
};
use ddns_monitor::reconcile::{classify, EditDirective};

fn strings(lines: &[&str]) -> Vec<String> {
    lines.iter().map(|line| line.to_string()).collect()
}

#[test]
fn echoing_every_recipient_gives_the_old_list() {
    let old = strings(&["a@example.com", "b@example.com"]);
    assert_eq!(
        reconcile_recipients(&old, &strings(&["a@example.com", "b@example.com", "."])),
        Ok(old.clone())
    );
    assert_eq!(reconcile_recipients(&old, &strings(&["", "", "."])), Ok(old));
}

#[test]
fn recipients_are_kept_removed_and_added() {
    let old = strings(&["a@example.com", "b@example.com"]);
    assert_eq!(
        reconcile_recipients(&old, &strings(&["-", "", "c@example.com", "."])),
        Ok(strings(&["b@example.com", "c@example.com"]))
    );
}

#[test]
fn text_that_is_no_address_is_refused() {
    let mut engine = RecipientEngine::new(strings(&["a@example.com"]));
    assert_eq!(engine.suggestion(), "a@example.com");
    assert_eq!(engine.apply(&classify("nobody")), RecipientOutcome::Invalid);
    assert_eq!(engine.suggestion(), "a@example.com");
    assert_eq!(engine.accepted_count(), 0);
    assert_eq!(engine.apply(&classify("c@example.com")), RecipientOutcome::Added);
    assert_eq!(engine.suggestion(), "");
    assert_eq!(engine.accepted_count(), 1);
}

#[test]
fn end_marker_needs_a_recipient() {
    let mut engine = RecipientEngine::new(vec![]);
    assert_eq!(engine.apply(&EditDirective::Terminate), RecipientOutcome::NeedRecipient);
    assert!(!engine.is_finished());
    assert_eq!(engine.apply(&EditDirective::Keep), RecipientOutcome::Ignored);
    assert_eq!(engine.apply(&EditDirective::Remove), RecipientOutcome::Ignored);
    assert_eq!(engine.apply(&classify("a@example.com")), RecipientOutcome::Added);
    assert_eq!(engine.apply(&EditDirective::Terminate), RecipientOutcome::Finished);
    assert!(engine.is_finished());
    assert_eq!(engine.apply(&classify("b@example.com")), RecipientOutcome::Ignored);
    assert_eq!(engine.finish(), Ok(strings(&["a@example.com"])));
}

#[test]
fn no_recipient_gives_no_list() {
    assert_eq!(reconcile_recipients(&vec![], &strings(&[".", "nobody", "."])), Err(RecipientsError::NoRecipient));
    assert_eq!(
        reconcile_recipients(&strings(&["a@example.com"]), &strings(&["-", "."])),
        Err(RecipientsError::NoRecipient)
    );
    assert_eq!(
        RecipientsError::NoRecipient.message(),
        "You must specify at least one email to notify"
    );
    assert_eq!(RecipientsError::InputEnded.message(), "Input error");
}

#[test]
fn a_recipient_entered_twice_stands_twice() {
    assert_eq!(
        reconcile_recipients(
            &strings(&["a@example.com"]),
            &strings(&["", "b@example.com", "a@example.com", "b@example.com", "."])
        ),
        Ok(strings(&["a@example.com", "b@example.com", "a@example.com", "b@example.com"]))
    );
}

#[test]
fn echoing_a_list_with_a_repeated_recipient_gives_it_back() {
    let old = strings(&["a@example.com", "b@example.com", "a@example.com"]);
    assert_eq!(
        reconcile_recipients(
            &old,
            &strings(&["a@example.com", "b@example.com", "a@example.com", "."])
        ),
        Ok(old.clone())
    );
    assert_eq!(reconcile_recipients(&old, &strings(&["", "", "", "."])), Ok(old));
}

#[test]
fn recipients_left_before_the_end_marker_give_no_list() {
    let old = strings(&["a@example.com", "b@example.com"]);
    assert_eq!(reconcile_recipients(&old, &strings(&["", ""])), Err(RecipientsError::InputEnded));
    assert_eq!(reconcile_recipients(&old, &strings(&["-"])), Err(RecipientsError::NoRecipient));
    assert_eq!(reconcile_recipients(&old, &vec![]), Err(RecipientsError::NoRecipient));
    let mut engine = RecipientEngine::new(old);
    engine.apply(&EditDirective::Keep);
    assert_eq!(engine.finish(), Err(RecipientsError::InputEnded));
}

#[test]
fn kept_and_removed_recipients() {
    let mut engine = RecipientEngine::new(strings(&["a@example.com", "b@example.com"]));
    assert_eq!(engine.apply(&EditDirective::Remove), RecipientOutcome::Removed);
    assert_eq!(engine.suggestion(), "b@example.com");
    assert_eq!(engine.apply(&EditDirective::Keep), RecipientOutcome::Kept);
    assert_eq!(engine.apply(&EditDirective::Terminate), RecipientOutcome::Finished);
    assert_eq!(engine.finish(), Ok(strings(&["b@example.com"])));
}

#[test]
fn recipient_prompts_and_instructions() {
    let mut engine = RecipientEngine::new(vec![]);
    assert_eq!(engine.prompt(), "Email #1");
    assert_eq!(
        engine.instructions(),
        strings(&[
            "Please specify emails to notify, one per line.",
            "When done, enter just a dot ('.') alone on the line.",
        ])
    );
    engine.apply(&classify("a@example.com"));
    assert_eq!(engine.prompt(), "Email #2");
    assert_eq!(
        RecipientEngine::new(strings(&["a@example.com"])).instructions(),
        strings(&[
            "Please update emails to notify, one per line.",
            "To keep an existing name, leave the line as it is or empty.",
            "To remove an existing name, enter just a dash ('-') alone on the line.",
            "When done, enter a dot ('.') alone on the line.",
        ])
    );
}

#[test]
fn the_operator_is_told_of_recipients() {
    let mut engine = RecipientEngine::new(strings(&["a@example.com"]));
    assert_eq!(engine.notices(&classify(".")), strings(&[
        "You must specify at least one email to notify",
    ]));
    assert_eq!(engine.notices(&classify("")), strings(&[]));
    assert_eq!(engine.notices(&classify("-")), strings(&["a@example.com will not be notified."]));
    assert_eq!(engine.notices(&classify("a@example.com")), strings(&[]));
    assert_eq!(engine.notices(&classify("b@example.com")), strings(&[
        "a@example.com will not be notified.",
        "b@example.com will be notified",
    ]));
    assert_eq!(engine.notices(&classify("nobody")), strings(&[
        "nobody is not a valid email address; try again",
    ]));
    engine.apply(&classify(""));
    assert_eq!(engine.notices(&classify("b@example.com")), strings(&[
        "b@example.com will be notified",
    ]));
    assert_eq!(engine.notices(&classify("-")), strings(&[]));
    engine.apply(&classify("."));
    assert_eq!(engine.notices(&classify("b@example.com")), strings(&[]));
}
