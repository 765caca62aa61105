use web_monitor::check::{Rejected, StartError, WebsiteChecker};
use web_monitor::report::{Level, Report};
use web_monitor::target::{ConfigError, Emission, Target};
use web_monitor::config::{Config, Global, Method, Website};
use web_monitor::span::Span;
use web_monitor::website::{ProbeError, StateKind, WebsiteInfo, WebsiteState};

type Outcome = Result<Span, ProbeError>;

fn website(url: &str) -> Website {
    Website {
        url: url.to_string(),
        method: Method::HEAD,
        request: String::new(),
        interval: None,
        timeout: None,
    }
}

fn watcher() -> Target {
    Target::from_config("example", &website("http://example.org/"), &Global::default()).unwrap()
}

fn ok(millis: u64) -> Outcome {
    Ok(Span::from_millis(millis))
}

fn refused() -> Outcome {
    Err(ProbeError::Transport("connection refused".to_string()))
}

fn kinds(emitted: &[Emission]) -> Vec<(usize, StateKind)> {
    emitted.iter().map(|e| (e.index, e.report.state.kind())).collect()
}

#[test]
fn a_watcher_is_built_from_the_settings_and_the_defaults() {
    let global = Global { default_interval: 60, default_timeout: 10000 };
    let target = Target::from_config("google", &website("https://www.google.com"), &global)
        .unwrap();
    assert_eq!(target.info().name, "google");
    assert_eq!(target.info().url, "https://www.google.com");
    assert_eq!(target.method(), Method::HEAD);
    assert_eq!(target.interval_secs(), 60);
    assert_eq!(target.timeout_millis(), 10000);
    assert_eq!(target.last(), None);
    assert_eq!(target.count(), 0);
}

#[test]
fn own_settings_win_over_the_defaults() {
    let mut cfg = website("http://example.org/status");
    cfg.method = Method::POST;
    cfg.interval = Some(5);
    cfg.timeout = Some(250);
    let target = Target::from_config("example", &cfg, &Global::default()).unwrap();
    assert_eq!(target.method(), Method::POST);
    assert_eq!(target.interval_secs(), 5);
    assert_eq!(target.timeout_millis(), 250);
}

#[test]
fn the_address_is_brought_into_its_normal_form() {
    let global = Global::default();
    let target = Target::from_config("google", &website("https://www.google.com"), &global)
        .unwrap();
    assert_eq!(target.url(), "https://www.google.com/");
    assert_eq!(target.info().url, "https://www.google.com");

    let target = Target::from_config("mixed", &website("HTTP://Example.ORG:80/a/../b"), &global)
        .unwrap();
    assert_eq!(target.url(), "http://example.org/b");
}

#[test]
fn a_malformed_url_gives_no_watcher() {
    let global = Global::default();
    let error = Target::from_config("broken", &website("not a url"), &global).unwrap_err();
    assert_eq!(error, ConfigError::MalformedUrl("relative URL without a base".to_string()));

    let error = Target::from_config("empty", &website(""), &global).unwrap_err();
    assert_eq!(error, ConfigError::MalformedUrl("relative URL without a base".to_string()));

    let error = Target::from_config("no host", &website("http://"), &global).unwrap_err();
    assert_eq!(error, ConfigError::MalformedUrl("empty host".to_string()));
}

#[test]
fn a_refusal_is_written_in_words() {
    let error = Target::from_config("broken", &website("http://"), &Global::default())
        .unwrap_err();
    assert_eq!(error.to_text(), "malformed url: empty host");
    assert_eq!(ConfigError::ZeroInterval.to_text(), "interval is zero");
    assert_eq!(ConfigError::ZeroTimeout.to_text(), "timeout is zero");
}

#[test]
fn a_zero_interval_gives_no_watcher() {
    let mut cfg = website("http://example.org/");
    cfg.interval = Some(0);
    let error = Target::from_config("example", &cfg, &Global::default()).unwrap_err();
    assert_eq!(error, ConfigError::ZeroInterval);

    let global = Global { default_interval: 0, default_timeout: 10000 };
    let error = Target::from_config("example", &website("http://example.org/"), &global)
        .unwrap_err();
    assert_eq!(error, ConfigError::ZeroInterval);

    cfg.interval = Some(1);
    assert!(Target::from_config("example", &cfg, &global).is_ok());
}

#[test]
fn a_zero_timeout_gives_no_watcher() {
    let mut cfg = website("http://example.org/");
    cfg.timeout = Some(0);
    let error = Target::from_config("example", &cfg, &Global::default()).unwrap_err();
    assert_eq!(error, ConfigError::ZeroTimeout);

    let global = Global { default_interval: 60, default_timeout: 0 };
    let error = Target::from_config("example", &website("http://example.org/"), &global)
        .unwrap_err();
    assert_eq!(error, ConfigError::ZeroTimeout);
}

#[test]
fn the_url_is_looked_at_before_the_numbers() {
    let mut cfg = website("not a url");
    cfg.interval = Some(0);
    cfg.timeout = Some(0);
    let error = Target::from_config("broken", &cfg, &Global::default()).unwrap_err();
    assert_eq!(error, ConfigError::MalformedUrl("relative URL without a base".to_string()));

    cfg.url = "http://example.org/".to_string();
    let error = Target::from_config("broken", &cfg, &Global::default()).unwrap_err();
    assert_eq!(error, ConfigError::ZeroInterval);
}

#[test]
fn a_watcher_can_be_assembled_from_a_parsed_url() {
    let global = Global::default();
    let cfg = website("http://example.org");
    let target = Target::assemble("example", &cfg, &global, Ok("http://example.org/".to_string()))
        .unwrap();
    assert_eq!(target.url(), "http://example.org/");
    assert_eq!(target.info().url, "http://example.org");

    let error = Target::assemble("example", &cfg, &global, Err("empty host".to_string()))
        .unwrap_err();
    assert_eq!(error, ConfigError::MalformedUrl("empty host".to_string()));
}

#[test]
fn reports_come_only_when_the_kind_changes() {
    let outcomes = vec![
        ok(10),
        ok(12),
        Err(ProbeError::Timeout),
        Err(ProbeError::Timeout),
        refused(),
        ok(9),
    ];
    let mut target = watcher();
    let emitted = target.watch(&outcomes);
    assert_eq!(emitted.len(), 4);
    assert_eq!(
        kinds(&emitted),
        vec![
            (0, StateKind::Up),
            (2, StateKind::Timeout),
            (4, StateKind::Down),
            (5, StateKind::Up),
        ]
    );
    assert_eq!(emitted[0].report.state, WebsiteState::Up(Span::from_millis(10)));
    assert_eq!(emitted[3].report.state, WebsiteState::Up(Span::from_millis(9)));
    assert_eq!(target.last(), Some(WebsiteState::Up(Span::from_millis(9))));
    assert_eq!(target.count(), 1);
}

#[test]
fn checks_one_at_a_time_report_as_a_run_does() {
    let outcomes = vec![
        ok(10),
        ok(12),
        Err(ProbeError::Timeout),
        Err(ProbeError::Timeout),
        refused(),
        ok(9),
    ];
    let mut target = watcher();
    let mut at = Vec::new();
    for (index, outcome) in outcomes.iter().enumerate() {
        let tick = target.tick(outcome);
        assert_eq!(tick.state, WebsiteState::new(outcome));
        assert_eq!(tick.count, target.count());
        if let Some(report) = tick.report {
            assert_eq!(report.state, tick.state);
            at.push(index);
        }
    }
    assert_eq!(at, vec![0, 2, 4, 5]);
}

#[test]
fn the_first_check_is_always_reported() {
    for outcome in [ok(10), Err(ProbeError::Timeout), Err(ProbeError::BadStatus(500)), refused()] {
        let mut target = watcher();
        assert_eq!(target.last(), None);
        let tick = target.tick(&outcome);
        let report = tick.report.unwrap();
        assert_eq!(&report.info, target.info());
        assert_eq!(report.state, WebsiteState::new(&outcome));
        assert_eq!(target.last(), Some(report.state));

        let mut target = watcher();
        let emitted = target.watch(&[outcome]);
        assert_eq!(emitted.len(), 1);
        assert_eq!(emitted[0].index, 0);
    }
}

#[test]
fn failures_of_different_causes_are_reported_once() {
    let outcomes = vec![
        Err(ProbeError::BadStatus(500)),
        Err(ProbeError::BadStatus(503)),
        refused(),
        Err(ProbeError::Transport("dns".to_string())),
        Err(ProbeError::BadStatus(404)),
    ];
    let mut target = watcher();
    let emitted = target.watch(&outcomes);
    assert_eq!(kinds(&emitted), vec![(0, StateKind::Down)]);
    assert_eq!(target.last(), Some(WebsiteState::Down));
}

#[test]
fn no_kind_is_reported_twice_in_a_row() {
    let outcomes = vec![
        refused(),
        Err(ProbeError::Timeout),
        Err(ProbeError::Timeout),
        Err(ProbeError::BadStatus(502)),
        refused(),
        ok(5),
        ok(6),
        Err(ProbeError::Timeout),
        ok(7),
        ok(8),
        Err(ProbeError::BadStatus(500)),
    ];
    let mut target = watcher();
    let emitted = target.watch(&outcomes);
    assert_eq!(
        kinds(&emitted),
        vec![
            (0, StateKind::Down),
            (1, StateKind::Timeout),
            (3, StateKind::Down),
            (5, StateKind::Up),
            (7, StateKind::Timeout),
            (8, StateKind::Up),
            (10, StateKind::Down),
        ]
    );
    for pair in emitted.windows(2) {
        assert!(pair[0].index < pair[1].index);
        assert!(!pair[0].report.state.is_same_kind(&pair[1].report.state));
    }
    let last = emitted.last().unwrap().report.state;
    assert!(last.is_same_kind(&target.last().unwrap()));
}

#[test]
fn a_change_of_latency_is_no_change() {
    let outcomes: Vec<Outcome> = (0..20).map(|i| ok(10 + i)).collect();
    let mut target = watcher();
    let emitted = target.watch(&outcomes);
    assert_eq!(kinds(&emitted), vec![(0, StateKind::Up)]);
    assert_eq!(target.count(), 20);
    assert_eq!(target.last(), Some(WebsiteState::Up(Span::from_millis(29))));
}

#[test]
fn a_run_of_no_checks_changes_nothing() {
    let mut target = watcher();
    assert!(target.watch(&[]).is_empty());
    assert_eq!(target.last(), None);
    assert_eq!(target.count(), 0);

    target.tick(&ok(1));
    assert!(target.watch(&[]).is_empty());
    assert_eq!(target.last(), Some(WebsiteState::Up(Span::from_millis(1))));
    assert_eq!(target.count(), 1);
}

#[test]
fn a_later_run_goes_on_from_the_last_state() {
    let mut target = watcher();
    let first = target.watch(&[ok(1), Err(ProbeError::Timeout)]);
    assert_eq!(kinds(&first), vec![(0, StateKind::Up), (1, StateKind::Timeout)]);
    let second = target.watch(&[Err(ProbeError::Timeout), refused(), refused()]);
    assert_eq!(kinds(&second), vec![(1, StateKind::Down)]);
}

#[test]
fn the_count_follows_the_checks_that_find_the_website_up() {
    let mut target = watcher();
    assert_eq!(target.tick(&ok(1)).count, 1);
    assert_eq!(target.tick(&ok(2)).count, 2);
    assert_eq!(target.tick(&ok(3)).count, 3);
    assert_eq!(target.tick(&Err(ProbeError::Timeout)).count, 0);
    assert_eq!(target.tick(&refused()).count, 0);
    assert_eq!(target.tick(&ok(4)).count, 1);
    assert_eq!(target.count(), 1);
}

#[test]
fn do_report_remembers_the_state_and_leaves_the_count() {
    let mut target = watcher();
    target.tick(&ok(1));
    target.tick(&ok(2));
    assert!(target.do_report(WebsiteState::Up(Span::from_millis(3))).is_none());
    assert_eq!(target.count(), 2);
    let report = target.do_report(WebsiteState::Down).unwrap();
    assert_eq!(report.state, WebsiteState::Down);
    assert_eq!(target.last(), Some(WebsiteState::Down));
    assert_eq!(target.count(), 2);
    assert!(target.do_report(WebsiteState::Down).is_none());
}

#[test]
fn reports_say_what_happened_to_which_url() {
    let mut cfg = website("http://example.org");
    cfg.timeout = Some(2500);
    let target = Target::from_config("example", &cfg, &Global::default()).unwrap();

    let state = WebsiteState::Up(Span::from_millis(10));
    assert_eq!(
        target.report_state(&state),
        Report {
            info: WebsiteInfo::new("example", "http://example.org"),
            state,
            level: Level::Info,
            text: "http://example.org/ is up (10ms)".to_string(),
        }
    );
    assert_eq!(
        target.report_state(&WebsiteState::Timeout),
        Report {
            info: WebsiteInfo::new("example", "http://example.org"),
            state: WebsiteState::Timeout,
            level: Level::Warn,
            text: "http://example.org/ request timed out (timeout=2.5s)".to_string(),
        }
    );
    assert_eq!(
        target.report_state(&WebsiteState::Down),
        Report {
            info: WebsiteInfo::new("example", "http://example.org"),
            state: WebsiteState::Down,
            level: Level::Warn,
            text: "http://example.org/ is down".to_string(),
        }
    );
}

#[test]
fn the_default_timeout_is_written_as_ten_seconds() {
    let report = watcher().report_state(&WebsiteState::Timeout);
    assert_eq!(report.text, "http://example.org/ request timed out (timeout=10s)");
}

#[test]
fn explicit_settings_and_matching_defaults_give_the_same_watcher() {
    let mut explicit = website("https://www.google.com");
    explicit.interval = Some(30);
    explicit.timeout = Some(1500);
    let implicit = website("https://www.google.com");
    let defaults = Global { default_interval: 30, default_timeout: 1500 };

    let mut a = Target::from_config("google", &explicit, &Global::default()).unwrap();
    let mut b = Target::from_config("google", &implicit, &defaults).unwrap();
    assert_eq!(a.info(), b.info());
    assert_eq!(a.url(), b.url());
    assert_eq!(a.method(), b.method());
    assert_eq!(a.interval_secs(), b.interval_secs());
    assert_eq!(a.timeout_millis(), b.timeout_millis());
    assert_eq!(a.last(), b.last());

    let outcomes = vec![ok(10), Err(ProbeError::Timeout), refused(), refused(), ok(3), ok(4)];
    assert_eq!(a.watch(&outcomes), b.watch(&outcomes));
    assert_eq!(a.last(), b.last());
    assert_eq!(a.count(), b.count());
}

#[test]
fn the_checker_watches_the_valid_websites_and_leaves_out_the_others() {
    let mut cfg = Config::default();
    cfg.websites.insert("rust".to_string(), website("https://www.rust-lang.org"));
    cfg.websites.insert("broken".to_string(), website("not a url"));
    let mut hasty = website("http://example.org");
    hasty.interval = Some(0);
    cfg.websites.insert("hasty".to_string(), hasty);
    cfg.websites.insert("google".to_string(), website("https://www.google.com"));

    let checker = WebsiteChecker::new(&cfg).unwrap();
    assert_eq!(checker.len(), 2);
    assert_eq!(checker.len() + checker.rejected().len(), cfg.websites.len());
    assert_eq!(
        checker.rejected(),
        &vec![
            Rejected {
                name: "broken".to_string(),
                error: ConfigError::MalformedUrl("relative URL without a base".to_string()),
            },
            Rejected { name: "hasty".to_string(), error: ConfigError::ZeroInterval },
        ]
    );

    let targets = checker.watch();
    let names: Vec<&str> = targets.iter().map(|t| t.info().name.as_str()).collect();
    assert_eq!(names, vec!["google", "rust"]);
    for target in &targets {
        assert_eq!(target.last(), None);
        assert_eq!(target.count(), 0);
        assert_eq!(target.interval_secs(), 60);
    }
}

#[test]
fn without_a_valid_website_nothing_starts() {
    let error = WebsiteChecker::new(&Config::default()).unwrap_err();
    assert_eq!(error, StartError::NoTargets { rejected: vec![] });

    let mut cfg = Config::default();
    cfg.websites.insert("broken".to_string(), website("not a url"));
    let mut deaf = website("http://example.org");
    deaf.timeout = Some(0);
    cfg.websites.insert("deaf".to_string(), deaf);
    let error = WebsiteChecker::new(&cfg).unwrap_err();
    assert_eq!(
        error,
        StartError::NoTargets {
            rejected: vec![
                Rejected {
                    name: "broken".to_string(),
                    error: ConfigError::MalformedUrl("relative URL without a base".to_string()),
                },
                Rejected { name: "deaf".to_string(), error: ConfigError::ZeroTimeout },
            ],
        }
    );
}
