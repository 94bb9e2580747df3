use vstd::prelude::*;
use vstd::string::*;

use crate::request::DownloadRequest;
use crate::text::{is_blank, spec_is_blank};

verus! {

/// Shown when a download is asked for without an address.
pub const VALIDATION_MESSAGE: &'static str = "Please enter a YouTube URL.";

/// Shown once a download has been handed to the downloader.
pub const STARTED_MESSAGE: &'static str = "Download started...";

/// Put before the reason when the downloader could not be started.
pub const SPAWN_FAILED_MESSAGE: &'static str = "Could not start the downloader: ";

/// Output directory until the user picks one.
pub const DEFAULT_OUTPUT_DIR: &'static str = "./";

/// What the user sees and what decides the next step: the form, the busy
/// flag, the status message and the lines received during the current run.
pub struct AppModel {
    pub url: Seq<char>,
    pub output_dir: Seq<char>,
    pub busy: bool,
    pub message: Seq<char>,
    pub log: Seq<Seq<char>>,
}

/// The events of [`Event`], with their texts as sequences of characters.
pub enum EventModel {
    UrlEdited(Seq<char>),
    OutputDirChosen(Seq<char>),
    Submitted,
    LineReceived(Seq<char>),
    StreamsClosed,
    SpawnFailed(Seq<char>),
}

/// Everything that can happen to the application.
pub enum Event {
    /// The address field now holds this text.
    UrlEdited(String),
    /// The user picked this output directory.
    OutputDirChosen(String),
    /// The download button was pressed.
    Submitted,
    /// The downloader printed this line on one of its two streams.
    LineReceived(String),
    /// The downloader has ended and both of its streams are closed.
    StreamsClosed,
    /// The downloader could not be started, for this reason.
    SpawnFailed(String),
}

impl View for Event {
    type V = EventModel;

    open spec fn view(&self) -> EventModel {
        match self {
            Event::UrlEdited(u) => EventModel::UrlEdited(u@),
            Event::OutputDirChosen(d) => EventModel::OutputDirChosen(d@),
            Event::Submitted => EventModel::Submitted,
            Event::LineReceived(l) => EventModel::LineReceived(l@),
            Event::StreamsClosed => EventModel::StreamsClosed,
            Event::SpawnFailed(r) => EventModel::SpawnFailed(r@),
        }
    }
}

/// What the application is to do after an event.
pub enum Action {
    /// Nothing to start.
    Wait,
    /// Run the downloader on this request and deliver its lines.
    Spawn(DownloadRequest),
}

/// The state in which the application opens.
pub open spec fn initial_model() -> AppModel {
    AppModel {
        url: Seq::empty(),
        output_dir: DEFAULT_OUTPUT_DIR@,
        busy: false,
        message: Seq::empty(),
        log: Seq::empty(),
    }
}

/// Whether event `e` in state `s` starts a download: a press of the button
/// while idle, with an address that is not blank.
pub open spec fn starts(s: AppModel, e: EventModel) -> bool {
    e is Submitted && !s.busy && !spec_is_blank(s.url)
}

/// The state after event `e` in state `s`.
pub open spec fn step(s: AppModel, e: EventModel) -> AppModel {
    match e {
        EventModel::UrlEdited(u) => AppModel { url: u, ..s },
        EventModel::OutputDirChosen(d) => AppModel { output_dir: d, ..s },
        EventModel::Submitted => {
            if s.busy {
                s
            } else if spec_is_blank(s.url) {
                AppModel { message: VALIDATION_MESSAGE@, ..s }
            } else {
                AppModel { busy: true, message: STARTED_MESSAGE@, log: Seq::empty(), ..s }
            }
        },
        EventModel::LineReceived(l) => {
            if s.busy {
                AppModel { log: s.log.push(l), ..s }
            } else {
                s
            }
        },
        EventModel::StreamsClosed => AppModel { busy: false, ..s },
        EventModel::SpawnFailed(r) => {
            if s.busy {
                AppModel { busy: false, message: SPAWN_FAILED_MESSAGE@ + r, ..s }
            } else {
                s
            }
        },
    }
}

/// Whether `a` is the action owed for event `e` in state `s`: a request for
/// the current address and directory exactly when the event starts a download.
pub open spec fn action_fits(a: Action, s: AppModel, e: EventModel) -> bool {
    match a {
        Action::Spawn(r) => starts(s, e) && r.url@ == s.url && r.output_dir@ == s.output_dir,
        Action::Wait => !starts(s, e),
    }
}

/// The state after the events `evs`, in order, from state `s`.
pub open spec fn run(s: AppModel, evs: Seq<EventModel>) -> AppModel
    decreases evs.len(),
{
    if evs.len() == 0 {
        s
    } else {
        run(step(s, evs[0]), evs.drop_first())
    }
}

/// How many downloads the events `evs` start, from state `s`.
pub open spec fn launches(s: AppModel, evs: Seq<EventModel>) -> nat
    decreases evs.len(),
{
    if evs.len() == 0 {
        0
    } else {
        (if starts(s, evs[0]) {
            1nat
        } else {
            0nat
        }) + launches(step(s, evs[0]), evs.drop_first())
    }
}

/// Whether `m` is `a` and `b` merged: every item of both, each once, with the
/// items of each in their own order.
pub open spec fn interleaves<A>(m: Seq<A>, a: Seq<A>, b: Seq<A>) -> bool
    decreases m.len(),
{
    if m.len() == 0 {
        a.len() == 0 && b.len() == 0
    } else {
        (a.len() > 0 && m[0] == a[0] && interleaves(m.drop_first(), a.drop_first(), b)) || (b.len()
            > 0 && m[0] == b[0] && interleaves(m.drop_first(), a, b.drop_first()))
    }
}

/// The events of one download whose streams delivered `lines`: the button
/// press, each line, and the closing of the streams.
pub open spec fn download_events(lines: Seq<Seq<char>>) -> Seq<EventModel> {
    seq![EventModel::Submitted] + lines.map_values(|l: Seq<char>| EventModel::LineReceived(l))
        + seq![EventModel::StreamsClosed]
}

/// The text of the log panel: each line followed by a line break.
pub open spec fn log_text_of(log: Seq<Seq<char>>) -> Seq<char>
    decreases log.len(),
{
    if log.len() == 0 {
        Seq::empty()
    } else {
        log_text_of(log.drop_last()) + log.last() + seq!['\n']
    }
}

/// The application's state, owned by the user interface's event loop.
pub struct AppState {
    url: String,
    output_dir: String,
    busy: bool,
    message: String,
    log: Vec<String>,
}

impl View for AppState {
    type V = AppModel;

    closed spec fn view(&self) -> AppModel {
        AppModel {
            url: self.url@,
            output_dir: self.output_dir@,
            busy: self.busy,
            message: self.message@,
            log: self.log@.map_values(|l: String| l@),
        }
    }
}

impl AppState {
    /// The application as it opens: no address, the default directory, idle,
    /// no message and an empty log.
    pub fn new() -> (r: AppState)
        ensures
            r@ == initial_model(),
    {
        let r = AppState {
            url: String::new(),
            output_dir: String::from_str(DEFAULT_OUTPUT_DIR),
            busy: false,
            message: String::new(),
            log: Vec::new(),
        };
        assert(r@.log =~= Seq::<Seq<char>>::empty());
        r
    }

    pub fn url(&self) -> (r: &String)
        ensures
            r@ == self@.url,
    {
        &self.url
    }

    pub fn output_dir(&self) -> (r: &String)
        ensures
            r@ == self@.output_dir,
    {
        &self.output_dir
    }

    /// Whether a download is running.
    pub fn is_busy(&self) -> (r: bool)
        ensures
            r == self@.busy,
    {
        self.busy
    }

    /// Whether the download button can be pressed: only while idle.
    pub fn submit_enabled(&self) -> (r: bool)
        ensures
            r == !self@.busy,
    {
        !self.busy
    }

    pub fn message(&self) -> (r: &String)
        ensures
            r@ == self@.message,
    {
        &self.message
    }

    /// The lines received during the current run, in order of arrival.
    pub fn log_lines(&self) -> (r: &Vec<String>)
        ensures
            r@.map_values(|l: String| l@) == self@.log,
    {
        &self.log
    }

    /// The text shown in the log panel: each line followed by a line break.
    pub fn log_text(&self) -> (r: String)
        ensures
            r@ == log_text_of(self@.log),
    {
        let mut text = String::new();
        let n = self.log.len();
        let mut i: usize = 0;
        while i < n
            invariant
                0 <= i <= n,
                n == self.log@.len(),
                text@ == log_text_of(self@.log.subrange(0, i as int)),
            decreases n - i,
        {
            let ghost lines = self@.log.subrange(0, i + 1);
            assert(lines.drop_last() =~= self@.log.subrange(0, i as int));
            assert(lines.last() == self.log@[i as int]@);
            proof {
                reveal_strlit("\n");
            }
            assert("\n"@ =~= seq!['\n']);
            text.append(self.log[i].as_str());
            text.append("\n");
            i = i + 1;
            assert(text@ =~= log_text_of(lines));
        }
        assert(self@.log.subrange(0, n as int) =~= self@.log);
        text
    }

    pub fn set_url(&mut self, url: String)
        ensures
            final(self)@ == step(old(self)@, EventModel::UrlEdited(url@)),
    {
        self.url = url;
    }

    pub fn set_output_dir(&mut self, dir: String)
        ensures
            final(self)@ == step(old(self)@, EventModel::OutputDirChosen(dir@)),
    {
        self.output_dir = dir;
    }

    /// A press of the download button. While a download runs it changes
    /// nothing; with a blank address it only shows the validation message;
    /// otherwise it marks the application busy, clears the log and returns the
    /// request to run.
    pub fn submit(&mut self) -> (a: Action)
        ensures
            final(self)@ == step(old(self)@, EventModel::Submitted),
            action_fits(a, old(self)@, EventModel::Submitted),
            old(self)@.busy ==> a is Wait && final(self)@ == old(self)@,
            !old(self)@.busy && spec_is_blank(old(self)@.url) ==> {
                &&& a is Wait
                &&& !final(self)@.busy
                &&& final(self)@.message == VALIDATION_MESSAGE@
            },
    {
        if self.busy {
            Action::Wait
        } else if is_blank(self.url.as_str()) {
            self.message = String::from_str(VALIDATION_MESSAGE);
            Action::Wait
        } else {
            self.busy = true;
            self.message = String::from_str(STARTED_MESSAGE);
            self.log = Vec::new();
            assert(self@.log =~= Seq::<Seq<char>>::empty());
            Action::Spawn(DownloadRequest::new(self.url.clone(), self.output_dir.clone()))
        }
    }

    /// A line from the downloader: kept at the end of the log while a download
    /// runs, dropped otherwise.
    pub fn receive_line(&mut self, line: String)
        ensures
            final(self)@ == step(old(self)@, EventModel::LineReceived(line@)),
    {
        if self.busy {
            let ghost l = line@;
            self.log.push(line);
            assert(self@.log =~= old(self)@.log.push(l));
        }
    }

    /// The downloader has ended and its streams are closed: the application is idle again.
    pub fn streams_closed(&mut self)
        ensures
            final(self)@ == step(old(self)@, EventModel::StreamsClosed),
    {
        self.busy = false;
    }

    /// The downloader could not be started: the run ends with a message that
    /// gives the reason.
    pub fn spawn_failed(&mut self, reason: String)
        ensures
            final(self)@ == step(old(self)@, EventModel::SpawnFailed(reason@)),
    {
        if self.busy {
            let mut m = String::from_str(SPAWN_FAILED_MESSAGE);
            m.append(reason.as_str());
            self.busy = false;
            self.message = m;
        }
    }

    /// Takes one event and says what to do next.
    pub fn handle(&mut self, event: Event) -> (a: Action)
        ensures
            final(self)@ == step(old(self)@, event@),
            action_fits(a, old(self)@, event@),
    {
        match event {
            Event::UrlEdited(u) => {
                self.set_url(u);
                Action::Wait
            },
            Event::OutputDirChosen(d) => {
                self.set_output_dir(d);
                Action::Wait
            },
            Event::Submitted => self.submit(),
            Event::LineReceived(l) => {
                self.receive_line(l);
                Action::Wait
            },
            Event::StreamsClosed => {
                self.streams_closed();
                Action::Wait
            },
            Event::SpawnFailed(r) => {
                self.spawn_failed(r);
                Action::Wait
            },
        }
    }
}

} // verus!
