use nacos_api::heartbeat::{beat_delay, HeartbeatAction, HeartbeatEngine, HeartbeatEvent, HeartbeatState, NacosBeat};

fn directive(interval: u64, light: bool) -> NacosBeat {
    NacosBeat { client_beat_interval: interval, code: 10200, light_beat_enabled: light }
}

fn is_light_beat(a: &HeartbeatAction) -> bool {
    matches!(a, HeartbeatAction::SendBeat { payload: None })
}

#[test]
fn beat_delay_takes_off_the_margin_above_it() {
    assert_eq!(beat_delay(5000), 4998);
    assert_eq!(beat_delay(3), 1);
}

#[test]
fn beat_delay_keeps_small_intervals() {
    assert_eq!(beat_delay(2), 2);
    assert_eq!(beat_delay(1), 1);
    assert_eq!(beat_delay(0), 0);
}

#[test]
fn first_beat_is_light() {
    let (engine, action) = HeartbeatEngine::start();
    assert!(is_light_beat(&action));
    assert!(matches!(engine.state, HeartbeatState::LightBeat));
    assert!(!engine.is_terminated());
}

#[test]
fn light_directive_sleeps_then_beats_light_again() {
    let (mut engine, _) = HeartbeatEngine::start();
    let a = engine.step(HeartbeatEvent::BeatReplied(directive(5000, true)));
    assert!(matches!(a, HeartbeatAction::Sleep { millis: 4998 }));
    let a = engine.step(HeartbeatEvent::SleepEnded);
    assert!(is_light_beat(&a));
}

#[test]
fn detail_fetched_once_right_after_first_full_request() {
    // three cycles: light, light, then the server asks for the full descriptor
    let (mut engine, first) = HeartbeatEngine::start();
    let mut actions = vec![first];
    let directives = [directive(1000, true), directive(1000, true), directive(1000, false)];
    for (i, d) in directives.iter().enumerate() {
        actions.push(engine.step(HeartbeatEvent::BeatReplied(*d)));
        if i + 1 < directives.len() {
            actions.push(engine.step(HeartbeatEvent::SleepEnded));
        }
    }
    let fetches = actions.iter().filter(|a| matches!(a, HeartbeatAction::FetchDetail)).count();
    assert_eq!(fetches, 1);
    assert!(matches!(actions.last(), Some(HeartbeatAction::FetchDetail)));
    assert!(actions[..actions.len() - 1].iter().all(|a| !matches!(a, HeartbeatAction::FetchDetail)));
}

#[test]
fn full_beats_carry_the_fetched_descriptor() {
    let (mut engine, _) = HeartbeatEngine::start();
    let a = engine.step(HeartbeatEvent::BeatReplied(directive(5000, false)));
    assert!(matches!(a, HeartbeatAction::FetchDetail));
    let a = engine.step(HeartbeatEvent::DetailReplied("{\"ip\":\"10.0.0.1\"}".to_string()));
    assert!(matches!(a, HeartbeatAction::Sleep { millis: 4998 }));
    let a = engine.step(HeartbeatEvent::SleepEnded);
    match a {
        HeartbeatAction::SendBeat { payload: Some(p) } => assert_eq!(p, "{\"ip\":\"10.0.0.1\"}"),
        other => panic!("expected a full beat, got {:?}", other),
    }
}

#[test]
fn light_directive_returns_to_light_beats() {
    let (mut engine, _) = HeartbeatEngine::start();
    engine.step(HeartbeatEvent::BeatReplied(directive(100, false)));
    engine.step(HeartbeatEvent::DetailReplied("detail".to_string()));
    engine.step(HeartbeatEvent::SleepEnded);
    let a = engine.step(HeartbeatEvent::BeatReplied(directive(100, true)));
    assert!(matches!(a, HeartbeatAction::Sleep { millis: 98 }));
    let a = engine.step(HeartbeatEvent::SleepEnded);
    assert!(is_light_beat(&a));
}

#[test]
fn failed_beat_terminates_for_good() {
    let (mut engine, _) = HeartbeatEngine::start();
    let a = engine.step(HeartbeatEvent::CallFailed);
    assert!(matches!(a, HeartbeatAction::Stop));
    assert!(engine.is_terminated());
    for event in [
        HeartbeatEvent::SleepEnded,
        HeartbeatEvent::BeatReplied(directive(10, true)),
        HeartbeatEvent::DetailReplied("x".to_string()),
    ] {
        assert!(matches!(engine.step(event), HeartbeatAction::Stop));
        assert!(engine.is_terminated());
    }
}

#[test]
fn failed_detail_fetch_terminates() {
    let (mut engine, _) = HeartbeatEngine::start();
    engine.step(HeartbeatEvent::BeatReplied(directive(10, false)));
    let a = engine.step(HeartbeatEvent::CallFailed);
    assert!(matches!(a, HeartbeatAction::Stop));
    assert!(engine.is_terminated());
    assert!(matches!(engine.step(HeartbeatEvent::SleepEnded), HeartbeatAction::Stop));
}

#[test]
fn out_of_turn_outcome_terminates() {
    let (mut engine, _) = HeartbeatEngine::start();
    let a = engine.step(HeartbeatEvent::SleepEnded);
    assert!(matches!(a, HeartbeatAction::Stop));
    assert!(engine.is_terminated());
}
