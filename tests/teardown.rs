use pulsectl::teardown::{Teardown, TeardownStep};

#[test]
fn teardown_disconnects_then_quits() {
    let mut t = Teardown::new();
    assert!(!t.is_done());
    assert_eq!(t.next_step(), Some(TeardownStep::Disconnect));
    assert!(!t.is_done());
    assert_eq!(t.next_step(), Some(TeardownStep::QuitLoop(0)));
    assert!(t.is_done());
}

#[test]
fn teardown_hands_out_nothing_once_done() {
    let mut t = Teardown::new();
    while t.next_step().is_some() {}
    assert_eq!(t.next_step(), None);
    assert_eq!(t.next_step(), None);
    assert!(t.is_done());
}

#[test]
fn teardown_steps_are_each_handed_out_once() {
    let mut t = Teardown::new();
    let mut seen = Vec::new();
    for _ in 0..5 {
        if let Some(step) = t.next_step() {
            seen.push(step);
        }
    }
    assert_eq!(seen, vec![TeardownStep::Disconnect, TeardownStep::QuitLoop(0)]);
}
