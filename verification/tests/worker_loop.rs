use employees::{ControlFlow, LoopEvent, LoopStage};

/// Drives a loop whose update hook breaks after `updates` calls, with the runtime
/// running for `polls` reads; returns how many times the start and update hooks ran.
fn drive(updates: usize, polls: usize) -> (usize, usize) {
    let mut stage = LoopStage::begin();
    let (mut started, mut updated, mut polled) = (0, 0, 0);
    while !stage.is_finished() {
        let event = match stage {
            LoopStage::Starting => {
                started += 1;
                LoopEvent::Started
            }
            LoopStage::Polling => {
                polled += 1;
                LoopEvent::Polled(polled <= polls)
            }
            LoopStage::Updating => {
                updated += 1;
                if updated >= updates {
                    LoopEvent::Updated(ControlFlow::Break)
                } else {
                    LoopEvent::Updated(ControlFlow::Continue)
                }
            }
            LoopStage::Finished => unreachable!(),
        };
        stage = stage.advance(event);
    }
    (started, updated)
}

#[test]
fn loop_starts_with_the_start_hook() {
    assert_eq!(LoopStage::begin(), LoopStage::Starting);
    assert_eq!(LoopStage::Starting.advance(LoopEvent::Started), LoopStage::Polling);
}

#[test]
fn update_hook_runs_until_break() {
    assert_eq!(drive(5, usize::MAX), (1, 5));
    assert_eq!(drive(1, usize::MAX), (1, 1));
}

#[test]
fn stopped_runtime_ends_the_loop() {
    assert_eq!(drive(usize::MAX, 3), (1, 3));
    assert_eq!(drive(usize::MAX, 0), (1, 0));
}

#[test]
fn break_and_stop_lead_to_finished() {
    assert_eq!(
        LoopStage::Updating.advance(LoopEvent::Updated(ControlFlow::Break)),
        LoopStage::Finished
    );
    assert_eq!(
        LoopStage::Updating.advance(LoopEvent::Updated(ControlFlow::Continue)),
        LoopStage::Polling
    );
    assert_eq!(LoopStage::Polling.advance(LoopEvent::Polled(false)), LoopStage::Finished);
    assert_eq!(LoopStage::Polling.advance(LoopEvent::Polled(true)), LoopStage::Updating);
}

#[test]
fn finished_loop_stays_finished() {
    for event in [
        LoopEvent::Started,
        LoopEvent::Polled(true),
        LoopEvent::Polled(false),
        LoopEvent::Updated(ControlFlow::Continue),
        LoopEvent::Updated(ControlFlow::Break),
    ] {
        assert_eq!(LoopStage::Finished.advance(event), LoopStage::Finished);
        assert!(LoopStage::Finished.advance(event).is_finished());
    }
}

#[test]
fn events_out_of_turn_change_nothing() {
    assert_eq!(LoopStage::Starting.advance(LoopEvent::Polled(true)), LoopStage::Starting);
    assert_eq!(
        LoopStage::Polling.advance(LoopEvent::Updated(ControlFlow::Break)),
        LoopStage::Polling
    );
    assert_eq!(LoopStage::Updating.advance(LoopEvent::Started), LoopStage::Updating);
}

#[test]
fn control_flow_compares_by_variant() {
    assert_eq!(ControlFlow::Continue, ControlFlow::Continue);
    assert_ne!(ControlFlow::Continue, ControlFlow::Break);
}
