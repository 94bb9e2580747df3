//! Verified core of a small desktop front end for an external video downloader.
//!
//! The library holds the decisions: when a download may start, which command
//! line is handed to the downloader, and how the lines that the downloader
//! prints are gathered into the log shown to the user. Spawning the process,
//! reading its streams and drawing the window are left to the application.
mod controller;
mod laws;
mod request;
mod text;

pub use controller::{
    action_fits, download_events, initial_model, interleaves, launches, log_text_of, run, starts,
    step, Action, AppModel, AppState, Event, EventModel, DEFAULT_OUTPUT_DIR, SPAWN_FAILED_MESSAGE,
    STARTED_MESSAGE, VALIDATION_MESSAGE,
};
pub use laws::{
    lemma_at_most_one_download, lemma_every_line_logged_once, lemma_idle_once_streams_close,
};
pub use request::{
    downloader_binary, join_dir, spec_join, DownloadRequest, DEFAULT_BINARY, OUTPUT_FLAG,
    OUTPUT_PATTERN,
};
pub use text::{is_blank, is_white_space, spec_is_blank, spec_is_white_space};
