use synd_term::interact::process::{Interactor, ProcessInteractor, TextBrowserInteractor};
use synd_term::interact::testing::{MockInteractor, TestInteractor};
use synd_term::interact::{OpenBrowserError, OpenEditor, OpenTextBrowser, OpenWebBrowser};
use synd_term::job::Jobs;
use synd_term::local_api::{readiness_step, LocalApiConfig, LocalApiLaunch, LocalApiToken, ReadinessStep};
use synd_term::matcher::Matcher;
use synd_term::operation::Operations;

#[test]
fn should_match() {
    let mut m = Matcher::new();

    let cases = vec![
        ("rustsec", "rustsec"),
        ("rustsec", "RUSTSEC"),
        ("rustsec", "RustSec"),
        ("this week in rust", "This Week in Rust"),
    ];

    for case in cases {
        m.update_needle(case.0);
        assert!(m.matches(case.1));
    }
}

#[test]
fn matcher_without_needle_matches_everything() {
    let mut m = Matcher::default();
    assert!(m.matches("anything"));
    m.update_needle("rust");
    assert!(!m.matches("golang"));
    m.update_needle("");
    assert!(m.matches("golang"));
}

#[test]
fn jobs_respect_concurrent_limit() {
    let mut jobs: Jobs<u32> = Jobs::new(2);
    assert_eq!(jobs.push(1), vec![1]);
    assert_eq!(jobs.push(2), vec![2]);
    assert_eq!(jobs.push(3), Vec::<u32>::new());
    assert!(!jobs.is_empty());
    assert_eq!(jobs.complete(), vec![3]);
    assert_eq!(jobs.complete(), Vec::<u32>::new());
    assert_eq!(jobs.complete(), Vec::<u32>::new());
    assert!(jobs.is_empty());
    jobs.push(4);
    jobs.clear();
    assert!(jobs.is_empty());
}

#[test]
fn operations_take_smallest_form() {
    assert_eq!(Operations::<u8>::from_vec(vec![]), Operations::Nop);
    assert_eq!(Operations::from_vec(vec![1u8]), Operations::One(1));
    assert_eq!(Operations::from_vec(vec![1u8, 2]), Operations::Many(vec![1, 2]));
    assert_eq!(Operations::from_option(Some(3u8)), Operations::One(3));
    assert_eq!(Operations::<u8>::from_option(None), Operations::Nop);
    let groups = vec![Operations::Nop, Operations::One(1u8), Operations::Many(vec![2, 3]), Operations::Nop];
    assert_eq!(Operations::flatten(groups), Operations::Many(vec![1, 2, 3]));
    assert_eq!(Operations::flatten(vec![Operations::Nop, Operations::One(9u8)]), Operations::One(9));
}

#[test]
fn local_api_token_and_launch() {
    let token = LocalApiToken::generate();
    assert_eq!(token.as_str().len(), 64);
    assert!(token.as_str().chars().all(|c| c.is_ascii_alphanumeric()));
    assert_ne!(token.as_str(), LocalApiToken::generate().as_str());
    let launch = LocalApiLaunch::from_config(LocalApiConfig { sqlite_db: "/data/synd/db.sqlite".to_owned(), timeout: 3000 }, token.clone());
    assert_eq!(launch.sqlite_db(), "/data/synd/db.sqlite");
    assert_eq!(launch.timeout(), 3000);
    assert_eq!(launch.required_dirs(), &["/data/synd".to_owned()]);
    assert_eq!(launch.into_token(), token);
    let launch = LocalApiLaunch::from_config(LocalApiConfig { sqlite_db: "/".to_owned(), timeout: 1 }, LocalApiToken::generate());
    assert!(launch.required_dirs().is_empty());
}

#[test]
fn readiness_steps() {
    assert_eq!(readiness_step(true, true, true), ReadinessStep::Exited);
    assert_eq!(readiness_step(false, true, true), ReadinessStep::Ready);
    assert_eq!(readiness_step(false, false, true), ReadinessStep::TimedOut);
    assert_eq!(readiness_step(false, false, false), ReadinessStep::Wait);
}

#[test]
fn test_interactor_records_and_answers() {
    let mut i = TestInteractor::new().with_buffer(vec!["a".to_owned(), "b".to_owned()]);
    i.open_browser("https://x");
    assert_eq!(i.open_editor("init"), "a");
    assert_eq!(i.open_editor(""), "b");
    let mut m = MockInteractor::new().with_buffer(vec!["edited".to_owned()]);
    m.open_browser("https://a").unwrap();
    m.open_text_browser("https://b").unwrap();
    assert_eq!(m.browser_urls(), &["https://a".to_owned(), "https://b".to_owned()]);
    assert_eq!(m.open_editor("x").unwrap(), "edited");
    let _ = Interactor::new();
}

#[test]
fn text_browser_command_line() {
    let t = TextBrowserInteractor::new("w3m".to_owned(), vec!["--foo".to_owned(), "--bar".to_owned()]);
    assert_eq!(t.arguments("https://x"), vec!["--foo".to_owned(), "--bar".to_owned(), "https://x".to_owned()]);
    assert_eq!(t.exit_failure("https://x"), OpenBrowserError::Io("w3m --foo --bar https://x".to_owned()));
    assert_eq!(t.spawn_failure(true, "m".to_owned()), OpenBrowserError::CommandNotFound { command: "w3m".to_owned() });
    assert_eq!(t.spawn_failure(false, "m".to_owned()), OpenBrowserError::Io("m".to_owned()));
    let plain = TextBrowserInteractor::new("lynx".to_owned(), vec![]);
    assert_eq!(plain.exit_failure("u"), OpenBrowserError::Io("lynx u".to_owned()));
    let p = ProcessInteractor::new(plain.clone());
    assert_eq!(p.text_browser, plain);
}

#[test]
fn respect_concurrent_limit() {
    let mut jobs: Jobs<u32> = Jobs::new(2);
    let mut started = Vec::new();
    for job in 0..3 {
        started.extend(jobs.push(job));
    }
    assert_eq!(started.len(), 2);
    assert!(!jobs.is_empty());

    let mut count = 0;
    while !jobs.is_empty() {
        started.extend(jobs.complete());
        count += 1;
    }
    assert_eq!(count, 3);
    assert_eq!(started, vec![0, 1, 2]);
    assert!(jobs.is_empty());
}
