use gp_client::prompt::{Prompt, WaitStep};

#[test]
fn an_answer_reaches_the_waiter() {
    let mut prompt = Prompt::<String>::default();
    assert!(matches!(prompt.wait(), WaitStep::Blocked));
    assert!(prompt.answer("123456".to_string()));
    match prompt.poll() {
        WaitStep::Answered(value) => assert_eq!(value, "123456"),
        _ => panic!("expected the answer"),
    }
    assert!(prompt.is_idle());
}

#[test]
fn cancelling_releases_the_waiter() {
    let mut prompt = Prompt::<bool>::default();
    assert!(matches!(prompt.wait(), WaitStep::Blocked));
    prompt.cancel();
    assert!(matches!(prompt.poll(), WaitStep::Cancelled));
}

#[test]
fn an_answer_with_nobody_waiting_is_dropped() {
    let mut prompt = Prompt::<bool>::default();
    assert!(!prompt.answer(true));
    assert!(prompt.is_idle());
}

#[test]
fn cancelling_before_the_wait_starts_still_applies() {
    let mut prompt = Prompt::<bool>::default();
    prompt.cancel();
    assert!(matches!(prompt.wait(), WaitStep::Cancelled));
    // And it stays cancelled for the rest of the attempt.
    assert!(matches!(prompt.wait(), WaitStep::Cancelled));
}

#[test]
fn resetting_makes_the_prompt_usable_again() {
    let mut prompt = Prompt::<bool>::default();
    prompt.cancel();
    assert!(matches!(prompt.wait(), WaitStep::Cancelled));
    prompt.reset();
    assert!(matches!(prompt.wait(), WaitStep::Blocked));
    assert!(prompt.answer(true));
    assert!(matches!(prompt.poll(), WaitStep::Answered(true)));
}

#[test]
fn a_cancellation_left_in_place_fails_later_waits_fast() {
    let mut prompt = Prompt::<bool>::default();
    assert!(matches!(prompt.wait(), WaitStep::Blocked));
    prompt.cancel();
    assert!(matches!(prompt.poll(), WaitStep::Cancelled));
    assert!(prompt.is_cancelled());
    assert!(matches!(prompt.wait(), WaitStep::Cancelled));
    assert!(!prompt.answer(true));
}

#[test]
fn a_new_wait_asks_for_a_fresh_answer() {
    let mut prompt = Prompt::<bool>::default();
    assert!(matches!(prompt.wait(), WaitStep::Blocked));
    assert!(prompt.answer(true));
    assert!(matches!(prompt.wait(), WaitStep::Blocked));
    assert!(matches!(prompt.poll(), WaitStep::Blocked));
}

#[test]
fn a_prompt_reset_under_a_waiter_stays_idle() {
    let mut prompt = Prompt::<bool>::default();
    assert!(matches!(prompt.wait(), WaitStep::Blocked));
    prompt.reset();
    assert!(matches!(prompt.poll(), WaitStep::Blocked));
    assert!(prompt.is_idle());
}
