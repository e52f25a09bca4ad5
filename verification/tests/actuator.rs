use relay_controller::actuator::{
    Actuator, ActuatorFault, ChannelState, PulseAction, PulseEvent, DEFAULT_PULSE_MS,
};

fn drive(action: PulseAction) -> ChannelState {
    match action {
        PulseAction::Drive(state) => state,
        other => panic!("expected a drive command, got {:?}", other),
    }
}

fn finish(action: PulseAction) -> Result<(), ActuatorFault> {
    match action {
        PulseAction::Finish(result) => result,
        other => panic!("expected the end of the pulse, got {:?}", other),
    }
}

#[test]
fn default_pulse_is_half_a_second() {
    assert_eq!(DEFAULT_PULSE_MS, 500);
}

#[test]
fn new_actuator_is_idle_and_disengaged() {
    let actuator = Actuator::new();
    assert!(actuator.is_idle());
    assert_eq!(actuator.channel(), ChannelState::Disengaged);
}

#[test]
fn successful_pulse_engages_holds_and_releases() {
    let mut actuator = Actuator::new();
    assert_eq!(actuator.channel(), ChannelState::Disengaged);

    let action = actuator.step(PulseEvent::Requested { hold_ms: 500 });
    assert_eq!(drive(action), ChannelState::Engaged);
    assert!(!actuator.is_idle());

    let action = actuator.step(PulseEvent::Driven);
    assert!(matches!(action, PulseAction::Hold { hold_ms: 500 }));
    assert_eq!(actuator.channel(), ChannelState::Engaged);

    let action = actuator.step(PulseEvent::HoldElapsed);
    assert_eq!(drive(action), ChannelState::Disengaged);
    assert_eq!(actuator.channel(), ChannelState::Engaged);

    let action = actuator.step(PulseEvent::Driven);
    assert_eq!(finish(action), Ok(()));
    assert_eq!(actuator.channel(), ChannelState::Disengaged);
    assert!(actuator.is_idle());
}

#[test]
fn hold_lasts_exactly_the_time_asked_for() {
    for hold_ms in [0u32, 1, 250, 500, 60_000, u32::MAX] {
        let mut actuator = Actuator::new();
        actuator.step(PulseEvent::Requested { hold_ms });
        match actuator.step(PulseEvent::Driven) {
            PulseAction::Hold { hold_ms: held } => assert_eq!(held, hold_ms),
            other => panic!("expected a hold, got {:?}", other),
        }
    }
}

#[test]
fn failed_engage_still_releases_and_reports_the_fault() {
    let mut actuator = Actuator::new();
    actuator.step(PulseEvent::Requested { hold_ms: 500 });
    let action = actuator.step(PulseEvent::DriveFailed);
    assert_eq!(drive(action), ChannelState::Disengaged);
    let action = actuator.step(PulseEvent::Driven);
    assert_eq!(finish(action), Err(ActuatorFault::EngageFailed));
    assert!(actuator.is_idle());
    assert_eq!(actuator.channel(), ChannelState::Disengaged);
}

#[test]
fn interrupted_hold_still_releases_and_reports_the_fault() {
    let mut actuator = Actuator::new();
    actuator.step(PulseEvent::Requested { hold_ms: 500 });
    actuator.step(PulseEvent::Driven);
    let action = actuator.step(PulseEvent::HoldInterrupted);
    assert_eq!(drive(action), ChannelState::Disengaged);
    let action = actuator.step(PulseEvent::Driven);
    assert_eq!(finish(action), Err(ActuatorFault::HoldInterrupted));
    assert!(actuator.is_idle());
    assert_eq!(actuator.channel(), ChannelState::Disengaged);
}

#[test]
fn failed_release_reports_release_failed() {
    let mut actuator = Actuator::new();
    actuator.step(PulseEvent::Requested { hold_ms: 500 });
    actuator.step(PulseEvent::Driven);
    actuator.step(PulseEvent::HoldElapsed);
    let action = actuator.step(PulseEvent::DriveFailed);
    assert_eq!(finish(action), Err(ActuatorFault::ReleaseFailed));
    assert!(actuator.is_idle());
    assert_eq!(actuator.channel(), ChannelState::Engaged);
}

#[test]
fn failed_release_after_failed_engage_reports_release_failed() {
    let mut actuator = Actuator::new();
    actuator.step(PulseEvent::Requested { hold_ms: 500 });
    actuator.step(PulseEvent::DriveFailed);
    let action = actuator.step(PulseEvent::DriveFailed);
    assert_eq!(finish(action), Err(ActuatorFault::ReleaseFailed));
    assert!(actuator.is_idle());
    assert_eq!(actuator.channel(), ChannelState::Disengaged);
}

#[test]
fn request_during_a_pulse_is_rejected_in_every_phase() {
    let mut actuator = Actuator::new();
    actuator.step(PulseEvent::Requested { hold_ms: 500 });
    assert!(matches!(
        actuator.step(PulseEvent::Requested { hold_ms: 100 }),
        PulseAction::Rejected
    ));
    assert!(matches!(actuator.step(PulseEvent::Driven), PulseAction::Hold { hold_ms: 500 }));
    assert!(matches!(
        actuator.step(PulseEvent::Requested { hold_ms: 100 }),
        PulseAction::Rejected
    ));
    assert_eq!(actuator.channel(), ChannelState::Engaged);
    assert_eq!(drive(actuator.step(PulseEvent::HoldElapsed)), ChannelState::Disengaged);
    assert!(matches!(
        actuator.step(PulseEvent::Requested { hold_ms: 100 }),
        PulseAction::Rejected
    ));
    assert_eq!(finish(actuator.step(PulseEvent::Driven)), Ok(()));
}

#[test]
fn events_out_of_place_are_rejected_and_change_nothing() {
    let mut actuator = Actuator::new();
    for event in [
        PulseEvent::Driven,
        PulseEvent::DriveFailed,
        PulseEvent::HoldElapsed,
        PulseEvent::HoldInterrupted,
    ] {
        assert!(matches!(actuator.step(event), PulseAction::Rejected));
        assert!(actuator.is_idle());
        assert_eq!(actuator.channel(), ChannelState::Disengaged);
    }
    actuator.step(PulseEvent::Requested { hold_ms: 500 });
    assert!(matches!(actuator.step(PulseEvent::HoldElapsed), PulseAction::Rejected));
    assert!(matches!(actuator.step(PulseEvent::HoldInterrupted), PulseAction::Rejected));
    actuator.step(PulseEvent::Driven);
    assert!(matches!(actuator.step(PulseEvent::Driven), PulseAction::Rejected));
    assert!(matches!(actuator.step(PulseEvent::DriveFailed), PulseAction::Rejected));
    assert_eq!(actuator.channel(), ChannelState::Engaged);
    actuator.step(PulseEvent::HoldElapsed);
    assert!(matches!(actuator.step(PulseEvent::HoldElapsed), PulseAction::Rejected));
}

#[test]
fn pulses_follow_one_another_without_overlap() {
    let mut actuator = Actuator::new();
    let mut engaged = 0;
    let mut finished = 0;
    for round in 0..5u32 {
        let events = [
            PulseEvent::Requested { hold_ms: 100 + round },
            PulseEvent::Requested { hold_ms: 1 },
            PulseEvent::Driven,
            PulseEvent::Requested { hold_ms: 2 },
            PulseEvent::HoldElapsed,
            PulseEvent::Driven,
        ];
        for event in events {
            match actuator.step(event) {
                PulseAction::Drive(ChannelState::Engaged) => engaged += 1,
                PulseAction::Finish(result) => {
                    assert_eq!(result, Ok(()));
                    finished += 1;
                }
                _ => {}
            }
            assert!(engaged == finished || engaged == finished + 1);
            assert_eq!(engaged == finished, actuator.is_idle());
        }
        assert_eq!(actuator.channel(), ChannelState::Disengaged);
    }
    assert_eq!(engaged, 5);
    assert_eq!(finished, 5);
}

#[test]
fn new_pulse_can_start_after_a_fault() {
    let mut actuator = Actuator::new();
    actuator.step(PulseEvent::Requested { hold_ms: 500 });
    actuator.step(PulseEvent::DriveFailed);
    actuator.step(PulseEvent::Driven);
    let action = actuator.step(PulseEvent::Requested { hold_ms: 500 });
    assert_eq!(drive(action), ChannelState::Engaged);
}

#[test]
fn every_pulse_ends_within_four_steps_and_always_commands_release() {
    for engage_ok in [true, false] {
        for hold_ok in [true, false] {
            for release_ok in [true, false] {
                let mut actuator = Actuator::new();
                let mut event = PulseEvent::Requested { hold_ms: 500 };
                let mut steps = 0;
                let mut release_commanded = false;
                let result = loop {
                    steps += 1;
                    assert!(steps <= 4);
                    event = match actuator.step(event) {
                        PulseAction::Drive(ChannelState::Engaged) => {
                            if engage_ok {
                                PulseEvent::Driven
                            } else {
                                PulseEvent::DriveFailed
                            }
                        }
                        PulseAction::Drive(ChannelState::Disengaged) => {
                            release_commanded = true;
                            if release_ok {
                                PulseEvent::Driven
                            } else {
                                PulseEvent::DriveFailed
                            }
                        }
                        PulseAction::Hold { hold_ms } => {
                            assert_eq!(hold_ms, 500);
                            assert_eq!(actuator.channel(), ChannelState::Engaged);
                            if hold_ok {
                                PulseEvent::HoldElapsed
                            } else {
                                PulseEvent::HoldInterrupted
                            }
                        }
                        PulseAction::Finish(result) => break result,
                        PulseAction::Rejected => panic!("a report in its place was rejected"),
                    };
                };
                assert!(release_commanded);
                assert!(actuator.is_idle());
                let expected = if !release_ok {
                    Err(ActuatorFault::ReleaseFailed)
                } else if !engage_ok {
                    Err(ActuatorFault::EngageFailed)
                } else if !hold_ok {
                    Err(ActuatorFault::HoldInterrupted)
                } else {
                    Ok(())
                };
                assert_eq!(result, expected);
                if result.is_ok() {
                    assert_eq!(actuator.channel(), ChannelState::Disengaged);
                }
            }
        }
    }
}
