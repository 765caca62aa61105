use web_monitor::span::Span;
use web_monitor::website::{ProbeError, StateKind, WebsiteInfo, WebsiteState};

fn up(millis: u64) -> WebsiteState {
    WebsiteState::Up(Span::from_millis(millis))
}

#[test]
fn website_info_keeps_name_and_url() {
    let info = WebsiteInfo::new("blup", "http://blup.org");
    assert_eq!(info.name, "blup");
    assert_eq!(info.url, "http://blup.org");
}

#[test]
fn a_span_is_seconds_and_nanoseconds() {
    let span = Span::new(3, 250).unwrap();
    assert_eq!(span.secs(), 3);
    assert_eq!(span.subsec_nanos(), 250);
    assert!(Span::new(0, 999_999_999).is_some());
    assert!(Span::new(0, 1_000_000_000).is_none());
    assert!(Span::new(7, u32::MAX).is_none());
}

#[test]
fn milliseconds_split_into_seconds_and_nanoseconds() {
    let span = Span::from_millis(1500);
    assert_eq!(span.secs(), 1);
    assert_eq!(span.subsec_nanos(), 500_000_000);
    assert_eq!(Span::from_millis(0), Span::new(0, 0).unwrap());
    assert_eq!(Span::from_millis(999), Span::new(0, 999_000_000).unwrap());
    let longest = Span::from_millis(u64::MAX);
    assert_eq!(longest.secs(), 18_446_744_073_709_551);
    assert_eq!(longest.subsec_nanos(), 615_000_000);
    assert_eq!(Span::from_secs(60), Span::from_millis(60_000));
}

#[test]
fn a_span_is_written_as_a_duration_is() {
    assert_eq!(Span::from_millis(10).to_text(), "10ms");
    assert_eq!(Span::from_millis(1500).to_text(), "1.5s");
    assert_eq!(Span::from_secs(60).to_text(), "60s");
    assert_eq!(Span::new(0, 1).unwrap().to_text(), "1ns");
    assert_eq!(Span::new(2, 5_000).unwrap().to_text(), "2.000005s");
    for (secs, nanos) in [(0, 0), (0, 1500), (1, 0), (12, 345_678_901), (u64::MAX, 999_999_999)] {
        let expected = format!("{:?}", std::time::Duration::new(secs, nanos));
        assert_eq!(Span::new(secs, nanos).unwrap().to_text(), expected);
    }
}

#[test]
fn an_outcome_is_classified_by_what_happened() {
    let latency = Span::from_millis(10);
    assert_eq!(WebsiteState::new(&Ok(latency)), WebsiteState::Up(latency));
    assert_eq!(WebsiteState::new(&Err(ProbeError::Timeout)), WebsiteState::Timeout);
    assert_eq!(WebsiteState::new(&Err(ProbeError::BadStatus(500))), WebsiteState::Down);
    assert_eq!(WebsiteState::new(&Err(ProbeError::BadStatus(404))), WebsiteState::Down);
    let refused = ProbeError::Transport("connection refused".to_string());
    assert_eq!(WebsiteState::new(&Err(refused)), WebsiteState::Down);
}

#[test]
fn a_timeout_is_not_down() {
    let state = WebsiteState::new(&Err(ProbeError::Timeout));
    assert!(state.is_timeout());
    assert!(!state.is_down());
    assert!(!state.is_up());
    assert!(ProbeError::Timeout.is_timeout());
    assert!(!ProbeError::BadStatus(504).is_timeout());
    assert!(!ProbeError::Transport("timed out".to_string()).is_timeout());
}

#[test]
fn each_state_is_of_one_kind() {
    assert_eq!(up(1).kind(), StateKind::Up);
    assert_eq!(WebsiteState::Timeout.kind(), StateKind::Timeout);
    assert_eq!(WebsiteState::Down.kind(), StateKind::Down);
    assert!(up(1).is_up() && !up(1).is_timeout() && !up(1).is_down());
    assert!(WebsiteState::Down.is_down() && !WebsiteState::Down.is_up());
}

#[test]
fn same_kind_ignores_the_latency() {
    assert!(up(10).is_same_kind(&up(12)));
    assert!(up(0).is_same_kind(&up(u64::MAX)));
    assert_ne!(up(10), up(12));
}

#[test]
fn same_kind_is_reflexive_and_symmetric() {
    let states = [up(10), up(12), WebsiteState::Timeout, WebsiteState::Down];
    for a in states {
        assert!(a.is_same_kind(&a));
        for b in states {
            assert_eq!(a.is_same_kind(&b), b.is_same_kind(&a));
            assert_eq!(a.is_same_kind(&b), a.kind() == b.kind());
            for c in states {
                if a.is_same_kind(&b) && b.is_same_kind(&c) {
                    assert!(a.is_same_kind(&c));
                }
            }
        }
    }
}

#[test]
fn outcomes_fall_into_three_classes() {
    let outcomes = [
        Ok(Span::from_millis(10)),
        Ok(Span::from_millis(12)),
        Err(ProbeError::Timeout),
        Err(ProbeError::BadStatus(500)),
        Err(ProbeError::BadStatus(503)),
        Err(ProbeError::Transport("connection refused".to_string())),
        Err(ProbeError::Transport("dns".to_string())),
    ];
    let classes = [up(0), WebsiteState::Timeout, WebsiteState::Down];
    for outcome in &outcomes {
        let state = WebsiteState::new(outcome);
        let hits = classes.iter().filter(|class| state.is_same_kind(class)).count();
        assert_eq!(hits, 1);
    }
    assert!(!classes[0].is_same_kind(&classes[1]));
    assert!(!classes[0].is_same_kind(&classes[2]));
    assert!(!classes[1].is_same_kind(&classes[2]));
}

#[test]
fn a_state_is_written_in_words() {
    assert_eq!(up(10).to_text(), "Up (10ms)");
    assert_eq!(up(1500).to_text(), "Up (1.5s)");
    assert_eq!(WebsiteState::Timeout.to_text(), "Timeout");
    assert_eq!(WebsiteState::Down.to_text(), "Down");
}
