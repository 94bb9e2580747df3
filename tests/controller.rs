use yt_downloader::{
    downloader_binary, is_blank, is_white_space, join_dir, Action, AppState, DownloadRequest,
    Event, DEFAULT_OUTPUT_DIR, SPAWN_FAILED_MESSAGE, STARTED_MESSAGE, VALIDATION_MESSAGE,
};

fn state_with(url: &str, dir: &str) -> AppState {
    let mut s = AppState::new();
    s.set_url(url.to_string());
    s.set_output_dir(dir.to_string());
    s
}

fn request_of(a: Action) -> DownloadRequest {
    match a {
        Action::Spawn(r) => r,
        Action::Wait => panic!("expected a download to start"),
    }
}

#[test]
fn new_state_is_idle_with_default_directory() {
    let s = AppState::new();
    assert!(!s.is_busy());
    assert!(s.submit_enabled());
    assert_eq!(s.url(), "");
    assert_eq!(s.output_dir(), DEFAULT_OUTPUT_DIR);
    assert_eq!(s.output_dir(), "./");
    assert_eq!(s.message(), "");
    assert!(s.log_lines().is_empty());
    assert_eq!(s.log_text(), "");
}

#[test]
fn full_download_keeps_every_line() {
    let mut s = state_with("https://example.com/v", "./out");
    let req = request_of(s.handle(Event::Submitted));
    assert_eq!(req.url, "https://example.com/v");
    assert_eq!(req.output_dir, "./out");
    assert_eq!(
        req.arguments(),
        vec![
            "https://example.com/v".to_string(),
            "-o".to_string(),
            "./out/%(title)s.%(ext)s".to_string()
        ]
    );
    assert!(s.is_busy());
    assert!(!s.submit_enabled());
    assert_eq!(s.message(), STARTED_MESSAGE);
    assert_eq!(s.message(), "Download started...");

    assert!(matches!(s.handle(Event::LineReceived("[download] 10%".to_string())), Action::Wait));
    assert!(matches!(s.handle(Event::LineReceived("WARNING: foo".to_string())), Action::Wait));
    assert!(matches!(s.handle(Event::LineReceived("[download] 100%".to_string())), Action::Wait));
    assert!(matches!(s.handle(Event::StreamsClosed), Action::Wait));

    let lines = s.log_lines().clone();
    assert_eq!(lines.len(), 3);
    for l in ["[download] 10%", "WARNING: foo", "[download] 100%"] {
        assert_eq!(lines.iter().filter(|x| x.as_str() == l).count(), 1);
    }
    let p10 = lines.iter().position(|x| x == "[download] 10%").unwrap();
    let p100 = lines.iter().position(|x| x == "[download] 100%").unwrap();
    assert!(p10 < p100);
    assert_eq!(s.log_text(), "[download] 10%\nWARNING: foo\n[download] 100%\n");
    assert!(!s.is_busy());
    assert!(s.submit_enabled());
}

#[test]
fn empty_url_starts_nothing() {
    let mut s = state_with("", "./out");
    assert!(matches!(s.handle(Event::Submitted), Action::Wait));
    assert_eq!(s.message(), VALIDATION_MESSAGE);
    assert_eq!(s.message(), "Please enter a YouTube URL.");
    assert!(!s.is_busy());
    assert!(s.submit_enabled());
    assert!(s.log_lines().is_empty());
}

#[test]
fn whitespace_url_starts_nothing() {
    for url in [" ", "\t", "  \n ", "\u{3000}", "\u{a0}\r"] {
        let mut s = state_with(url, "./out");
        assert!(matches!(s.submit(), Action::Wait));
        assert_eq!(s.message(), VALIDATION_MESSAGE);
        assert!(!s.is_busy());
    }
}

#[test]
fn blank_check() {
    assert!(is_blank(""));
    assert!(is_blank(" \t\r\n"));
    assert!(!is_blank(" a "));
    assert!(!is_blank("https://example.com/v"));
    assert!(is_white_space('\u{2028}'));
    assert!(!is_white_space('x'));
    assert!(!is_white_space('\u{200b}'));
}

#[test]
fn second_submission_while_running_is_ignored() {
    let mut s = state_with("https://example.com/v", "./out");
    assert!(matches!(s.submit(), Action::Spawn(_)));
    s.receive_line("first".to_string());
    s.set_url("https://example.com/w".to_string());
    assert!(matches!(s.submit(), Action::Wait));
    assert!(matches!(s.handle(Event::Submitted), Action::Wait));
    assert!(s.is_busy());
    assert_eq!(s.message(), STARTED_MESSAGE);
    assert_eq!(s.log_text(), "first\n");
}

#[test]
fn new_run_clears_the_log() {
    let mut s = state_with("https://example.com/v", "./out");
    assert!(matches!(s.submit(), Action::Spawn(_)));
    s.receive_line("old".to_string());
    s.streams_closed();
    assert_eq!(s.log_text(), "old\n");
    let req = request_of(s.submit());
    assert_eq!(req.url, "https://example.com/v");
    assert!(s.log_lines().is_empty());
    assert_eq!(s.log_text(), "");
}

#[test]
fn run_without_output_ends_idle() {
    let mut s = state_with("https://example.com/v", "./out");
    assert!(matches!(s.submit(), Action::Spawn(_)));
    s.streams_closed();
    assert!(!s.is_busy());
    assert!(s.log_lines().is_empty());
}

#[test]
fn lines_outside_a_run_are_dropped() {
    let mut s = AppState::new();
    s.receive_line("stray".to_string());
    assert!(s.log_lines().is_empty());
}

#[test]
fn spawn_failure_reports_and_ends_run() {
    let mut s = state_with("https://example.com/v", "./out");
    assert!(matches!(s.submit(), Action::Spawn(_)));
    assert!(matches!(s.handle(Event::SpawnFailed("not found".to_string())), Action::Wait));
    assert!(!s.is_busy());
    assert_eq!(*s.message(), format!("{}not found", SPAWN_FAILED_MESSAGE));
    assert_eq!(s.message(), "Could not start the downloader: not found");
}

#[test]
fn spawn_failure_when_idle_changes_nothing() {
    let mut s = AppState::new();
    s.spawn_failed("late".to_string());
    assert_eq!(s.message(), "");
    assert!(!s.is_busy());
}

#[test]
fn events_edit_the_form() {
    let mut s = AppState::new();
    assert!(matches!(s.handle(Event::UrlEdited("u".to_string())), Action::Wait));
    assert!(matches!(s.handle(Event::OutputDirChosen("/tmp/d".to_string())), Action::Wait));
    assert_eq!(s.url(), "u");
    assert_eq!(s.output_dir(), "/tmp/d");
    let req = request_of(s.handle(Event::Submitted));
    assert_eq!(req.output_template(), "/tmp/d/%(title)s.%(ext)s");
}

#[test]
fn output_template_joins_directory() {
    assert_eq!(join_dir("./out", "f"), "./out/f");
    assert_eq!(join_dir("./out/", "f"), "./out/f");
    assert_eq!(join_dir("", "f"), "f");
    assert_eq!(join_dir("/", "f"), "/f");
    let r = DownloadRequest::new("x".to_string(), "./".to_string());
    assert_eq!(r.output_template(), "./%(title)s.%(ext)s");
}

#[test]
fn binary_name_override() {
    assert_eq!(downloader_binary(None), "yt-dlp");
    assert_eq!(downloader_binary(Some("/opt/bin/ytdl".to_string())), "/opt/bin/ytdl");
}
