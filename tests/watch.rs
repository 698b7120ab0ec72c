use nacos_api::watch::{ConfigSnapshot, ConfigWatch, WatchAction, WatchEvent, WatchLoop, WatchPhase};

#[test]
fn snapshot_digest_is_md5_hex() {
    assert_eq!(ConfigSnapshot::of("abc".to_string()).digest, "900150983cd24fb0d6963f7d28e17f72");
    assert_eq!(ConfigSnapshot::of(String::new()).digest, "d41d8cd98f00b204e9800998ecf8427e");
}

#[test]
fn failed_fetch_is_snapshot_of_empty_content() {
    let s = ConfigSnapshot::fetched(None);
    assert_eq!(s.content, "");
    assert_eq!(s.digest, "d41d8cd98f00b204e9800998ecf8427e");
}

#[test]
fn identical_polls_notify_no_one() {
    let mut w = ConfigWatch::start(Some("a=1".to_string()));
    assert_eq!(w.poll(Some("a=1".to_string())), None);
    assert_eq!(w.poll(Some("a=1".to_string())), None);
}

#[test]
fn changed_content_notifies_once_with_newer_content() {
    let mut w = ConfigWatch::start(Some("a=1".to_string()));
    assert_eq!(w.poll(Some("a=2".to_string())), Some("a=2".to_string()));
    assert_eq!(w.poll(Some("a=2".to_string())), None);
}

#[test]
fn fetches_of_a1_then_a2_fire_once_with_a2() {
    let fetches = ["a=1", "a=2"];
    let mut w = ConfigWatch::start(Some(fetches[0].to_string()));
    let mut heard = Vec::new();
    for f in &fetches[1..] {
        if let Some(c) = w.poll(Some(f.to_string())) {
            heard.push(c);
        }
    }
    assert_eq!(heard, vec!["a=2".to_string()]);
}

#[test]
fn failed_poll_is_compared_as_empty_content() {
    let mut w = ConfigWatch::start(Some("a=1".to_string()));
    assert_eq!(w.poll(None), Some(String::new()));
    assert_eq!(w.poll(Some(String::new())), None);
    assert_eq!(w.poll(None), None);
    assert_eq!(w.poll(Some("a=1".to_string())), Some("a=1".to_string()));
}

#[test]
fn failed_first_fetch_gives_empty_baseline() {
    let mut w = ConfigWatch::start(None);
    assert_eq!(w.prev_digest, "d41d8cd98f00b204e9800998ecf8427e");
    assert_eq!(w.poll(Some(String::new())), None);
    assert_eq!(w.poll(Some("x".to_string())), Some("x".to_string()));
}

#[test]
fn observe_compares_given_digests() {
    let mut w = ConfigWatch::new(ConfigSnapshot { content: "old".to_string(), digest: "d1".to_string() });
    let same = ConfigSnapshot { content: "other".to_string(), digest: "d1".to_string() };
    assert_eq!(w.observe(same), None);
    assert_eq!(w.prev_digest, "d1");
    let changed = ConfigSnapshot { content: "new".to_string(), digest: "d2".to_string() };
    assert_eq!(w.observe(changed), Some("new".to_string()));
    assert_eq!(w.prev_digest, "d2");
}

fn drive(fetches: &[Option<&str>]) -> (Vec<String>, Vec<u64>) {
    // answers each action of the loop: fetches in order, sleeps, listener calls
    let (mut w, mut action) = WatchLoop::start(1);
    let mut next = 0;
    let mut heard = Vec::new();
    let mut sleeps = Vec::new();
    loop {
        let event = match action {
            WatchAction::Fetch => {
                if next == fetches.len() {
                    break;
                }
                next += 1;
                WatchEvent::Fetched(fetches[next - 1].map(|s| s.to_string()))
            }
            WatchAction::Notify { content } => {
                heard.push(content);
                WatchEvent::ListenerReturned
            }
            WatchAction::Sleep { secs } => {
                sleeps.push(secs);
                WatchEvent::SleepEnded
            }
        };
        action = w.step(event);
    }
    (heard, sleeps)
}

#[test]
fn watch_loop_fires_once_for_a1_then_a2() {
    let (heard, sleeps) = drive(&[Some("a=1"), Some("a=2")]);
    assert_eq!(heard, vec!["a=2".to_string()]);
    assert_eq!(sleeps, vec![1, 1]);
}

#[test]
fn watch_loop_is_silent_on_identical_polls() {
    let (heard, _) = drive(&[Some("a=1"), Some("a=1"), Some("a=1")]);
    assert!(heard.is_empty());
}

#[test]
fn watch_loop_keeps_polling_after_failed_fetch() {
    let (heard, sleeps) = drive(&[Some("a=1"), None, Some("a=1"), None, None]);
    assert_eq!(heard, vec![String::new(), "a=1".to_string(), String::new()]);
    assert_eq!(sleeps.len(), 5);
}

#[test]
fn watch_loop_first_action_is_fetch() {
    let (w, action) = WatchLoop::start(30);
    assert!(matches!(action, WatchAction::Fetch));
    assert_eq!(w.phase, WatchPhase::Baseline);
    assert_eq!(w.interval_secs, 30);
}

#[test]
fn watch_loop_out_of_turn_outcome_sleeps_and_polls_again() {
    let (mut w, _) = WatchLoop::start(5);
    assert!(matches!(w.step(WatchEvent::SleepEnded), WatchAction::Fetch));
    assert_eq!(w.phase, WatchPhase::Baseline);
    assert!(matches!(w.step(WatchEvent::Fetched(Some("x".to_string()))), WatchAction::Sleep { secs: 5 }));
    assert!(matches!(w.step(WatchEvent::ListenerReturned), WatchAction::Sleep { secs: 5 }));
    assert!(matches!(w.step(WatchEvent::SleepEnded), WatchAction::Fetch));
    assert_eq!(w.phase, WatchPhase::Polling);
}
