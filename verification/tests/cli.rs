use synd_term::cli::{
    ApiReport, BackendMode, CheckCommand, CheckOutput, ClearCommand, CleanCommand, ExportCommand, ExportRequest,
    ExportRun, ExportStep, Health, ImportCommand, ImportOutcome, ImportProgress, Removal, NOT_AUTHENTICATED_MESSAGE,
};
use synd_term::client::payload::ExportSubscriptionPayload;
use synd_term::types::{ExportedFeed, PageInfo};

#[test]
fn check_reports_backend_details() {
    assert_eq!(CheckCommand::backend_mode_name(BackendMode::Remote), "remote");
    assert_eq!(CheckCommand::backend_mode_name(BackendMode::Local), "local");
    let output = CheckOutput::new(
        Some(Health { status: "pass".to_owned(), version: Some("0.1.0".to_owned()) }),
        "/c.toml".to_owned(),
        "/cache".to_owned(),
        "/log".to_owned(),
        BackendMode::Remote,
        "/db".to_owned(),
        "https://api".to_owned(),
    );
    assert_eq!(
        CheckCommand::print(&output),
        " Api Health: pass\nApi Version: 0.1.0\n    Backend: remote\n   Endpoint: https://api\n     Config: /c.toml\n      Cache: /cache\n        Log: /log\n"
    );
    let output = CheckOutput::new(None, "/c".to_owned(), "/k".to_owned(), "/l".to_owned(), BackendMode::Local, "/db".to_owned(), "e".to_owned());
    assert_eq!(
        CheckCommand::print(&output),
        " Api Health: unknown\nApi Version: unknown\n    Backend: local\n  SQLite DB: /db\n     Config: /c\n      Cache: /k\n        Log: /l\n"
    );
}

#[test]
fn clean_exit_codes() {
    let clean = || CleanCommand { cache_dir: "/tmp/c".to_owned() };
    assert_eq!(clean().run(Removal::Removed, Some(Removal::Removed)), 0);
    assert_eq!(clean().run(Removal::Removed, Some(Removal::NotFound)), 0);
    assert_eq!(clean().run(Removal::Removed, Some(Removal::Failed)), 1);
    assert_eq!(clean().run(Removal::Failed, None), 1);
    assert!(CleanCommand::removes_log(Removal::NotFound));
    assert!(!CleanCommand::removes_log(Removal::Failed));
    assert_eq!(ClearCommand::exit_code(Removal::NotFound, Some(Removal::NotFound)), 0);
    assert_eq!(ClearCommand::exit_code(Removal::Removed, Some(Removal::Failed)), 1);
}

#[test]
fn import_lines() {
    let cats = vec![Some("rust".to_owned()), None, Some("longcategory".to_owned())];
    let width = ImportCommand::max_category_width(&cats);
    assert_eq!(width, 12);
    assert_eq!(ImportCommand::max_category_width(&[]), 0);
    assert_eq!(
        ImportCommand::ok_line("MUST", "rust", width, "https://ok1.ymgyt.io/feed.xml"),
        "OK    MUST   rust         https://ok1.ymgyt.io/feed.xml\n"
    );
    assert_eq!(
        ImportCommand::error_line("https://err_unavailable.ymgyt.io/feed.xml", "server return 500 error"),
        "ERROR https://err_unavailable.ymgyt.io/feed.xml server return 500 error\n"
    );
    assert_eq!(ImportCommand::summary_line(2, 10), "2/10 feeds successfully subscribed\n");
    let import = ImportCommand { print_schema: false, cache_dir: "/c".to_owned(), input: "-".to_owned() };
    assert!(import.reads_stdin());
}

#[test]
fn export_pages_until_last() {
    assert_eq!(ExportCommand::next_step(true, Some("x".to_owned())), ExportStep::Fetch(Some("x".to_owned())));
    assert_eq!(ExportCommand::next_step(false, Some("x".to_owned())), ExportStep::Done);
}

#[test]
fn remove_log_file() {
    let clean = CleanCommand { cache_dir: "/tmp/synd-cache".to_owned() };
    assert!(CleanCommand::removes_log(Removal::Removed));
    assert_eq!(clean.run(Removal::Removed, Some(Removal::Removed)), 0);
}

#[test]
fn ignore_log_file_not_found() {
    let clean = CleanCommand { cache_dir: "/tmp/synd-cache".to_owned() };
    assert_eq!(clean.run(Removal::Removed, Some(Removal::NotFound)), 0);
}

#[test]
fn exit_code_on_permission_error() {
    let clean = CleanCommand { cache_dir: "/tmp/synd-cache".to_owned() };
    assert_eq!(clean.run(Removal::Removed, Some(Removal::Failed)), 1);
}

#[test]
fn usecase() {
    let categories = vec![Some("rust".to_owned()), Some("rust".to_owned()), Some("longcategory".to_owned())];
    let mut progress = ImportProgress::new(&categories);
    let mut out = String::new();
    out.push_str(&progress.record(ImportOutcome::Subscribed {
        requirement: "MUST".to_owned(),
        category: "rust".to_owned(),
        url: "https://ok1.ymgyt.io/feed.xml".to_owned(),
    }));
    out.push_str(&progress.record(ImportOutcome::Unavailable {
        feed_url: "https://err_unavailable.ymgyt.io/feed.xml".to_owned(),
        message: "server return 500 error".to_owned(),
    }));
    out.push_str(&progress.record(ImportOutcome::Subscribed {
        requirement: "SHOULD".to_owned(),
        category: "longcategory".to_owned(),
        url: "https://ok2.ymgyt.io/feed.xml".to_owned(),
    }));
    out.push_str(&progress.summary());
    assert_eq!(
        out,
        "OK    MUST   rust         https://ok1.ymgyt.io/feed.xml\n\
         ERROR https://err_unavailable.ymgyt.io/feed.xml server return 500 error\n\
         OK    SHOULD longcategory https://ok2.ymgyt.io/feed.xml\n\
         2/3 feeds successfully subscribed\n"
    );
}

#[test]
fn import_reports_failed_requests() {
    let mut progress = ImportProgress::new(&[None]);
    let line = progress.record(ImportOutcome::Failed {
        url: "https://x.example/feed.xml".to_owned(),
        message: "unauthorized".to_owned(),
    });
    assert_eq!(line, "ERROR https://x.example/feed.xml unauthorized\n");
    assert_eq!(progress.summary(), "0/1 feeds successfully subscribed\n");
}

#[test]
fn check_report_fields() {
    let health = Health { status: "pass".to_owned(), version: Some("0.2.0".to_owned()) };
    let remote = CheckOutput::new(
        Some(health.clone()),
        "/c.toml".to_owned(),
        "/cache".to_owned(),
        "/log".to_owned(),
        BackendMode::Remote,
        "/db".to_owned(),
        "https://api".to_owned(),
    );
    let report = CheckCommand::report(remote);
    assert_eq!(report.api, ApiReport::Health(health));
    assert_eq!(report.config, "/c.toml");
    assert_eq!(report.cache, "/cache");
    assert_eq!(report.log, "/log");
    assert_eq!(report.backend, "remote");
    assert_eq!(report.local_sqlite_db, None);
    assert_eq!(report.endpoint, Some("https://api".to_owned()));

    let local = CheckOutput::new(
        None,
        "/c.toml".to_owned(),
        "/cache".to_owned(),
        "/log".to_owned(),
        BackendMode::Local,
        "/db".to_owned(),
        "https://api".to_owned(),
    );
    let report = CheckCommand::report(local);
    assert_eq!(report.api, ApiReport::Unknown);
    assert_eq!(report.backend, "local");
    assert_eq!(report.local_sqlite_db, Some("/db".to_owned()));
    assert_eq!(report.endpoint, None);
}

fn exported(url: &str) -> ExportedFeed {
    ExportedFeed { title: None, url: url.to_owned(), requirement: None, category: None }
}

#[test]
fn export_joins_pages_in_order() {
    let (mut run, first) = ExportRun::start(true).unwrap();
    assert_eq!(first, ExportRequest { after: None, first: 50 });
    let next = run.record_page(ExportSubscriptionPayload {
        feeds: vec![exported("https://a/feed"), exported("https://b/feed")],
        page_info: PageInfo { has_next_page: true, end_cursor: Some("c1".to_owned()) },
    });
    assert_eq!(next, Some(ExportRequest { after: Some("c1".to_owned()), first: ExportCommand::PAGE_SIZE }));
    let next = run.record_page(ExportSubscriptionPayload {
        feeds: vec![exported("https://c/feed")],
        page_info: PageInfo { has_next_page: false, end_cursor: Some("c2".to_owned()) },
    });
    assert_eq!(next, None);
    let urls: Vec<String> = run.into_feeds().into_iter().map(|f| f.url).collect();
    assert_eq!(urls, vec!["https://a/feed", "https://b/feed", "https://c/feed"]);
}

#[test]
fn export_needs_a_credential() {
    match ExportRun::start(false) {
        Err(message) => {
            assert_eq!(message, NOT_AUTHENTICATED_MESSAGE);
            assert_eq!(message, "You are not authenticated, try login in first");
        }
        Ok(_) => panic!("expected an error"),
    }
}
