use flipperzero::worker::{drain_step, DrainStep};

#[test]
fn worker_drain_step() {
    assert_eq!(drain_step(0), DrainStep::Finish);
    assert_eq!(drain_step(1), DrainStep::Deliver(1));
    assert_eq!(drain_step(64), DrainStep::Deliver(64));
}
