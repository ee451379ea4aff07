use vstd::prelude::*;
use crate::decode::{ParseError, csv_rows_of, decode_records, mismatched_row_fails, records_of_raw, shift_jis_text};
use crate::portal::{
    export_form, export_form_view, form_view, reports_failure, reports_portal_error, search_form,
    search_form_view,
};
use crate::record::{KdbRecord, RecordView, views_of};

verus! {

/// The portal request that failed.
#[derive(Debug, Clone, Copy, PartialEq, Eq, Structural)]
pub enum Stage {
    /// The first request, which opens a session and finds the search page.
    Handshake,
    /// The search for all courses of the academic year.
    Search,
    /// The request for the search result as CSV.
    Export,
}

/// Why a run stopped without records.
#[derive(Debug, Clone, Copy, PartialEq, Eq, Structural)]
pub enum FetchError {
    /// The request of `stage` did not reach the portal or got no answer.
    Transport { stage: Stage },
    /// The portal answered the request of `stage` with an error page.
    Portal { stage: Stage },
    /// The cache file appeared before the download could be stored; it is left as it is.
    AlreadyExists,
    /// The cache file does not decode to records.
    Parse { error: ParseError },
    /// Reading or writing the cache file failed.
    Io,
    /// The cache file is too large to decode in this address space.
    TooLarge,
    /// An event came that the run was not waiting for.
    OutOfOrder,
}

/// What a run is waiting for.
#[derive(Debug, Clone, Copy, PartialEq, Eq, Structural)]
pub enum Phase {
    /// Whether the cache file exists.
    CheckingCache,
    /// The answer to the handshake request.
    Handshaking,
    /// The answer to the search request.
    Searching,
    /// The answer to the export request.
    Exporting,
    /// Whether the cache file exists, just before the download is stored.
    CheckingDestination,
    /// The end of writing the download to the cache file.
    Storing,
    /// The contents of the cache file.
    Loading,
    /// Nothing: the run has ended.
    Finished,
}

/// What the caller reports back after performing an [`Action`].
pub enum Event {
    /// The cache file exists, or not.
    CacheChecked { exists: bool },
    /// A request was answered; `url` is where it ended after redirects.
    Response { url: String, body: Vec<u8> },
    /// A request failed in transport.
    TransportFailed,
    /// The cache file exists, or not, just before storing.
    DestinationChecked { exists: bool },
    /// The download was written to the cache file (its directories created).
    Stored,
    /// The contents of the cache file.
    Loaded { raw: Vec<u8> },
    /// Reading or writing the cache file failed.
    IoFailed,
}

/// What the caller is to do next.
pub enum Action {
    /// Tell whether the cache file exists.
    CheckCache,
    /// Send a GET request to `url` with the session's cookies.
    Get { url: String },
    /// Send `form` to `url` as a urlencoded POST with the session's cookies.
    Post { url: String, form: Vec<(String, String)> },
    /// Tell whether the cache file exists, just before storing.
    CheckDestination,
    /// Create the cache file's directories and write `raw` to it.
    Store { raw: Vec<u8> },
    /// Read the cache file.
    Load,
    /// The run succeeded with these records.
    Finish { records: Vec<KdbRecord> },
    /// The run failed.
    Fail { error: FetchError },
}

/// One run of the pipeline: the cache gate, the three portal requests that
/// share one session, storing the download and decoding the cache file.
pub struct Session {
    phase: Phase,
    base_url: String,
    endpoint: String,
    year: u32,
    pending: Vec<u8>,
}

pub struct SessionView {
    pub phase: Phase,
    pub base_url: Seq<char>,
    /// Where the portal last sent the session: the URL of the next request.
    pub endpoint: Seq<char>,
    pub year: u32,
    pub pending: Seq<u8>,
}

pub enum EventView {
    CacheChecked(bool),
    Response(Seq<char>, Seq<u8>),
    TransportFailed,
    DestinationChecked(bool),
    Stored,
    Loaded(Seq<u8>),
    IoFailed,
}

pub enum ActionView {
    CheckCache,
    Get(Seq<char>),
    Post(Seq<char>, Seq<(Seq<char>, Seq<char>)>),
    CheckDestination,
    Store(Seq<u8>),
    Load,
    Finish(Seq<RecordView>),
    Fail(FetchError),
}

impl View for Session {
    type V = SessionView;

    closed spec fn view(&self) -> SessionView {
        SessionView { phase: self.phase, base_url: self.base_url@, endpoint: self.endpoint@, year: self.year, pending: self.pending@ }
    }
}

impl View for Event {
    type V = EventView;

    open spec fn view(&self) -> EventView {
        match self {
            Event::CacheChecked { exists } => EventView::CacheChecked(*exists),
            Event::Response { url, body } => EventView::Response(url@, body@),
            Event::TransportFailed => EventView::TransportFailed,
            Event::DestinationChecked { exists } => EventView::DestinationChecked(*exists),
            Event::Stored => EventView::Stored,
            Event::Loaded { raw } => EventView::Loaded(raw@),
            Event::IoFailed => EventView::IoFailed,
        }
    }
}

impl View for Action {
    type V = ActionView;

    open spec fn view(&self) -> ActionView {
        match self {
            Action::CheckCache => ActionView::CheckCache,
            Action::Get { url } => ActionView::Get(url@),
            Action::Post { url, form } => ActionView::Post(url@, form_view(form@)),
            Action::CheckDestination => ActionView::CheckDestination,
            Action::Store { raw } => ActionView::Store(raw@),
            Action::Load => ActionView::Load,
            Action::Finish { records } => ActionView::Finish(views_of(records@)),
            Action::Fail { error } => ActionView::Fail(*error),
        }
    }
}

/// Whether a cache file is small enough to decode in this address space.
pub open spec fn decodable_len(raw: Seq<u8>) -> bool {
    raw.len() <= usize::MAX / 8
}

/// A run before anything was done: it first checks the cache.
pub open spec fn initial(base_url: Seq<char>, year: u32) -> SessionView {
    SessionView { phase: Phase::CheckingCache, base_url, endpoint: base_url, year, pending: Seq::empty() }
}

/// `s` moved to `phase`, nothing pending.
pub open spec fn enter(s: SessionView, phase: Phase) -> SessionView {
    SessionView { phase, pending: Seq::empty(), ..s }
}

/// The run ends with `error`.
pub open spec fn fail(s: SessionView, error: FetchError) -> (SessionView, ActionView) {
    (enter(s, Phase::Finished), ActionView::Fail(error))
}

/// What a portal answer leads to: its error page ends the run, otherwise
/// `next` is the following step.
pub open spec fn after_answer(s: SessionView, stage: Stage, body: Seq<u8>, next: (SessionView, ActionView)) -> (SessionView, ActionView) {
    if reports_failure(body) { fail(s, FetchError::Portal { stage }) } else { next }
}

/// The step a run takes on an event: its next state and the action it asks for.
pub open spec fn next(s: SessionView, e: EventView) -> (SessionView, ActionView) {
    match (s.phase, e) {
        (Phase::CheckingCache, EventView::CacheChecked(true)) => (enter(s, Phase::Loading), ActionView::Load),
        (Phase::CheckingCache, EventView::CacheChecked(false)) =>
            (enter(s, Phase::Handshaking), ActionView::Get(s.base_url)),
        (Phase::Handshaking, EventView::Response(url, body)) => after_answer(s, Stage::Handshake, body,
            (SessionView { endpoint: url, ..enter(s, Phase::Searching) }, ActionView::Post(url, search_form_view(s.year)))),
        (Phase::Handshaking, EventView::TransportFailed) => fail(s, FetchError::Transport { stage: Stage::Handshake }),
        (Phase::Searching, EventView::Response(url, body)) => after_answer(s, Stage::Search, body,
            (SessionView { endpoint: url, ..enter(s, Phase::Exporting) }, ActionView::Post(url, export_form_view(s.year)))),
        (Phase::Searching, EventView::TransportFailed) => fail(s, FetchError::Transport { stage: Stage::Search }),
        (Phase::Exporting, EventView::Response(_, body)) => after_answer(s, Stage::Export, body,
            (SessionView { phase: Phase::CheckingDestination, pending: body, ..s }, ActionView::CheckDestination)),
        (Phase::Exporting, EventView::TransportFailed) => fail(s, FetchError::Transport { stage: Stage::Export }),
        (Phase::CheckingDestination, EventView::DestinationChecked(true)) => fail(s, FetchError::AlreadyExists),
        (Phase::CheckingDestination, EventView::DestinationChecked(false)) =>
            (SessionView { phase: Phase::Storing, pending: Seq::empty(), ..s }, ActionView::Store(s.pending)),
        (Phase::Storing, EventView::Stored) => (enter(s, Phase::Loading), ActionView::Load),
        (Phase::Storing, EventView::IoFailed) => fail(s, FetchError::Io),
        (Phase::Loading, EventView::Loaded(raw)) =>
            if !decodable_len(raw) {
                fail(s, FetchError::TooLarge)
            } else {
                match records_of_raw(raw) {
                    Ok(rs) => (enter(s, Phase::Finished), ActionView::Finish(rs)),
                    Err(error) => fail(s, FetchError::Parse { error }),
                }
            },
        (Phase::Loading, EventView::IoFailed) => fail(s, FetchError::Io),
        _ => fail(s, FetchError::OutOfOrder),
    }
}

impl Session {
    /// A new run against the portal at `base_url` for academic year `year`,
    /// and its first action: checking the cache.
    pub fn start(base_url: String, year: u32) -> (r: (Session, Action))
        ensures
            r.0@ == initial(base_url@, year),
            r.1@ == ActionView::CheckCache,
    {
        let endpoint = base_url.clone();
        let s = Session { phase: Phase::CheckingCache, base_url, endpoint, year, pending: Vec::new() };
        assert(s@.pending =~= Seq::<u8>::empty());
        (s, Action::CheckCache)
    }

    /// What the run is waiting for.
    pub fn phase(&self) -> (r: Phase)
        ensures
            r == self@.phase,
    {
        self.phase
    }

    /// The URL that the next portal request goes to.
    pub fn endpoint(&self) -> (r: &String)
        ensures
            r@ == self@.endpoint,
    {
        &self.endpoint
    }

    fn enter(&mut self, phase: Phase)
        ensures
            final(self)@ == enter(old(self)@, phase),
    {
        self.phase = phase;
        self.pending = Vec::new();
        assert(self@ =~= enter(old(self)@, phase));
    }

    fn fail(&mut self, error: FetchError) -> (a: Action)
        ensures
            (final(self)@, a@) == fail(old(self)@, error),
    {
        self.enter(Phase::Finished);
        Action::Fail { error }
    }

    /// Takes the run one step: from the event that the last action produced
    /// to the next action. An event that the run is not waiting for ends it
    /// with [`FetchError::OutOfOrder`].
    pub fn step(&mut self, event: Event) -> (a: Action)
        ensures
            (final(self)@, a@) == next(old(self)@, event@),
    {
        let ghost e = event@;
        match (self.phase, event) {
            (Phase::CheckingCache, Event::CacheChecked { exists }) => {
                if exists {
                    self.enter(Phase::Loading);
                    Action::Load
                } else {
                    self.enter(Phase::Handshaking);
                    let url = self.base_url.clone();
                    Action::Get { url }
                }
            },
            (Phase::Handshaking, Event::Response { url, body }) => {
                if reports_portal_error(body.as_slice()) {
                    self.fail(FetchError::Portal { stage: Stage::Handshake })
                } else {
                    self.enter(Phase::Searching);
                    self.endpoint = url.clone();
                    Action::Post { url, form: search_form(self.year) }
                }
            },
            (Phase::Searching, Event::Response { url, body }) => {
                if reports_portal_error(body.as_slice()) {
                    self.fail(FetchError::Portal { stage: Stage::Search })
                } else {
                    self.enter(Phase::Exporting);
                    self.endpoint = url.clone();
                    Action::Post { url, form: export_form(self.year) }
                }
            },
            (Phase::Exporting, Event::Response { url: _, body }) => {
                if reports_portal_error(body.as_slice()) {
                    self.fail(FetchError::Portal { stage: Stage::Export })
                } else {
                    self.phase = Phase::CheckingDestination;
                    self.pending = body;
                    Action::CheckDestination
                }
            },
            (Phase::Handshaking, Event::TransportFailed) => self.fail(FetchError::Transport { stage: Stage::Handshake }),
            (Phase::Searching, Event::TransportFailed) => self.fail(FetchError::Transport { stage: Stage::Search }),
            (Phase::Exporting, Event::TransportFailed) => self.fail(FetchError::Transport { stage: Stage::Export }),
            (Phase::CheckingDestination, Event::DestinationChecked { exists }) => {
                if exists {
                    self.fail(FetchError::AlreadyExists)
                } else {
                    let mut raw: Vec<u8> = Vec::new();
                    std::mem::swap(&mut raw, &mut self.pending);
                    self.phase = Phase::Storing;
                    Action::Store { raw }
                }
            },
            (Phase::Storing, Event::Stored) => {
                self.enter(Phase::Loading);
                Action::Load
            },
            (Phase::Storing, Event::IoFailed) => self.fail(FetchError::Io),
            (Phase::Loading, Event::Loaded { raw }) => {
                if raw.len() > usize::MAX / 8 {
                    self.fail(FetchError::TooLarge)
                } else {
                    match decode_records(raw.as_slice()) {
                        Ok(records) => {
                            self.enter(Phase::Finished);
                            Action::Finish { records }
                        },
                        Err(error) => self.fail(FetchError::Parse { error }),
                    }
                }
            },
            (Phase::Loading, Event::IoFailed) => self.fail(FetchError::Io),
            _ => self.fail(FetchError::OutOfOrder),
        }
    }
}

/// Whether an action sends a request to the portal.
pub open spec fn is_request(a: ActionView) -> bool {
    a is Get || a is Post
}

/// A run that finds the cache file sends no request: it reads the file, and
/// then ends with exactly the records (or the error) of decoding that file.
pub proof fn cached_run_makes_no_request(base_url: Seq<char>, year: u32, raw: Seq<u8>)
    requires
        decodable_len(raw),
    ensures
        ({
            let (s1, a1) = next(initial(base_url, year), EventView::CacheChecked(true));
            let (s2, a2) = next(s1, EventView::Loaded(raw));
            &&& a1 == ActionView::Load
            &&& !is_request(a1) && !is_request(a2)
            &&& s2.phase == Phase::Finished
            &&& a2 == match records_of_raw(raw) {
                Ok(rs) => ActionView::Finish(rs),
                Err(error) => ActionView::Fail(FetchError::Parse { error }),
            }
        }),
{
}

/// When the cache file turns out to exist just before a download would be
/// stored, the run ends with [`FetchError::AlreadyExists`] and asks for no
/// write: the existing file is left as it is.
pub proof fn existing_destination_is_kept(s: SessionView)
    requires
        s.phase == Phase::CheckingDestination,
    ensures
        next(s, EventView::DestinationChecked(true)).1 == ActionView::Fail(FetchError::AlreadyExists),
        next(s, EventView::DestinationChecked(true)).0.phase == Phase::Finished,
{
}

/// A run never overwrites the cache file: it asks to store only right after
/// learning that the file does not exist.
pub proof fn store_only_after_absent_destination(s: SessionView, e: EventView)
    ensures
        next(s, e).1 is Store ==> s.phase == Phase::CheckingDestination && e == EventView::DestinationChecked(false),
{
}

/// A run ends with records only when the whole cache file decoded: a file
/// with any malformed row yields no records, so nothing is emitted from it.
pub proof fn records_only_from_clean_decode(s: SessionView, e: EventView)
    ensures
        next(s, e).1 is Finish ==> ({
            &&& e is Loaded
            &&& records_of_raw(e->Loaded_0) == Ok::<Seq<RecordView>, ParseError>(next(s, e).1->Finish_0)
        }),
{
}

/// A run that finds a cache file with a data row whose field count differs
/// from the header's sends no request, asks for no write, returns no records
/// and ends with a parse error.
pub proof fn cached_malformed_file_fails_without_writes(base_url: Seq<char>, year: u32, raw: Seq<u8>, k: int)
    requires
        decodable_len(raw),
        csv_rows_of(shift_jis_text(raw)) is Some,
        1 <= k < csv_rows_of(shift_jis_text(raw)).unwrap().len(),
        csv_rows_of(shift_jis_text(raw)).unwrap()[k].len() != csv_rows_of(shift_jis_text(raw)).unwrap()[0].len(),
    ensures
        ({
            let (s1, a1) = next(initial(base_url, year), EventView::CacheChecked(true));
            let (s2, a2) = next(s1, EventView::Loaded(raw));
            &&& !is_request(a1) && !is_request(a2)
            &&& !(a1 is Store) && !(a2 is Store)
            &&& s2.phase == Phase::Finished
            &&& a2 is Fail
            &&& a2->Fail_0 is Parse
        }),
{
    mismatched_row_fails(raw, k);
}

} // verus!
