//! The sync engine. It walks the feed of every child of the signed-in
//! guardian, page by page, and has each photo and video fetched that is not
//! on disk yet. The engine decides; a driver acts: it carries out each
//! [`Action`] and reports what happened as an [`Event`].

use crate::activity::{
    attachment, attachment_of, carries, read_page, Attachment, AttachmentView, MediaKind,
};
use crate::auth::AuthState;
use crate::brightwheel::{
    guardians_students_request, students_activities_request, students_view, users_me_request,
    BrightwheelClient, Request, RequestView, Response, ResponseView, Student, StudentView,
};
use crate::fault::{ErrorKind, Fault};
use crate::json::{values_of, Json, JsonValue};
use crate::naming::{
    directory_of, place, place_of, student_directory, Destination, DestinationView,
};
use vstd::prelude::*;

verus! {

/// The number of activities that the engine asks for per page.
pub const PAGE_SIZE: u64 = 1000;

#[derive(Debug)]
struct Job {
    url: String,
    destination: Destination,
}

/// One file to fetch, as a mathematical value.
pub ghost struct JobView {
    pub url: Seq<char>,
    pub destination: DestinationView,
}

impl View for Job {
    type V = JobView;

    closed spec fn view(&self) -> JobView {
        JobView { url: self.url@, destination: self.destination@ }
    }
}

#[derive(Debug)]
enum Phase {
    AwaitingUser,
    AwaitingRoster,
    AwaitingChildDirectory,
    AwaitingPage,
    AwaitingMonthDirectory { job: Job },
    AwaitingProbe { job: Job },
    AwaitingDownload { job: Job },
    AwaitingDiscard { fault: Fault },
    Finished,
}

/// What the engine waits for, as a mathematical value.
pub ghost enum PhaseView {
    /// The reply to the "who am I" call.
    AwaitingUser,
    /// The reply to the call for the guardian's children.
    AwaitingRoster,
    /// The directory of the current child.
    AwaitingChildDirectory,
    /// The reply to the call for the current page.
    AwaitingPage,
    /// The month directory of the file at hand.
    AwaitingMonthDirectory { job: JobView },
    /// Whether the file at hand is on disk.
    AwaitingProbe { job: JobView },
    /// The end of the download of the file at hand.
    AwaitingDownload { job: JobView },
    /// The removal of what a failed download left behind.
    AwaitingDiscard { fault: Fault },
    /// Nothing: the run is over.
    Finished,
}

impl View for Phase {
    type V = PhaseView;

    closed spec fn view(&self) -> PhaseView {
        match self {
            Phase::AwaitingUser => PhaseView::AwaitingUser,
            Phase::AwaitingRoster => PhaseView::AwaitingRoster,
            Phase::AwaitingChildDirectory => PhaseView::AwaitingChildDirectory,
            Phase::AwaitingPage => PhaseView::AwaitingPage,
            Phase::AwaitingMonthDirectory { job } => PhaseView::AwaitingMonthDirectory { job: job@ },
            Phase::AwaitingProbe { job } => PhaseView::AwaitingProbe { job: job@ },
            Phase::AwaitingDownload { job } => PhaseView::AwaitingDownload { job: job@ },
            Phase::AwaitingDiscard { fault } => PhaseView::AwaitingDiscard { fault: *fault },
            Phase::Finished => PhaseView::Finished,
        }
    }
}

/// What the driver reports.
#[derive(Debug, PartialEq, Eq)]
pub enum Event {
    /// What came back for the request that was to be sent.
    Response(Response),
    /// The directory exists now, or did before.
    DirectoryReady,
    /// The directory could not be created.
    DirectoryFailed,
    /// Whether a file exists at the destination.
    Probed { exists: bool },
    /// The file was fetched and written.
    Downloaded,
    /// The file was not fetched, or not written to the end.
    DownloadFailed { fault: Fault },
    /// Nothing is left at the destination of the failed download.
    Discarded,
}

/// The mathematical value of an [`Event`].
pub ghost enum EventView {
    Response(ResponseView),
    DirectoryReady,
    DirectoryFailed,
    Probed { exists: bool },
    Downloaded,
    DownloadFailed { fault: Fault },
    Discarded,
}

impl View for Event {
    type V = EventView;

    open spec fn view(&self) -> EventView {
        match self {
            Event::Response(response) => EventView::Response(response@),
            Event::DirectoryReady => EventView::DirectoryReady,
            Event::DirectoryFailed => EventView::DirectoryFailed,
            Event::Probed { exists } => EventView::Probed { exists: *exists },
            Event::Downloaded => EventView::Downloaded,
            Event::DownloadFailed { fault } => EventView::DownloadFailed { fault: *fault },
            Event::Discarded => EventView::Discarded,
        }
    }
}

/// What the driver is to do next.
#[derive(Debug, PartialEq, Eq)]
pub enum Action {
    /// Send the request over the signed-in session; report `Response`.
    Send { request: Request },
    /// Create the child's directory, or the month directory below it where
    /// `month` is given, unless it exists; report `DirectoryReady` or
    /// `DirectoryFailed`.
    EnsureDirectory { directory: String, month: Option<String> },
    /// Look whether a file exists at the destination; report `Probed`.
    Probe { destination: Destination },
    /// Fetch `url` into the file at the destination; report `Downloaded` or
    /// `DownloadFailed`.
    Download { url: String, destination: Destination },
    /// Remove what the failed download left at the destination; report
    /// `Discarded`.
    Discard { destination: Destination },
    /// Stop. The run went through without a failure where `faults` is empty.
    Finish { faults: Vec<Fault> },
}

/// The mathematical value of an [`Action`].
pub ghost enum ActionView {
    Send { request: RequestView },
    EnsureDirectory { directory: Seq<char>, month: Option<Seq<char>> },
    Probe { destination: DestinationView },
    Download { url: Seq<char>, destination: DestinationView },
    Discard { destination: DestinationView },
    Finish { faults: Seq<Fault> },
}

impl View for Action {
    type V = ActionView;

    open spec fn view(&self) -> ActionView {
        match self {
            Action::Send { request } => ActionView::Send { request: request@ },
            Action::EnsureDirectory { directory, month } => ActionView::EnsureDirectory {
                directory: directory@,
                month: match month {
                    Some(name) => Some(name@),
                    None => None,
                },
            },
            Action::Probe { destination } => ActionView::Probe { destination: destination@ },
            Action::Download { url, destination } => ActionView::Download {
                url: url@,
                destination: destination@,
            },
            Action::Discard { destination } => ActionView::Discard { destination: destination@ },
            Action::Finish { faults } => ActionView::Finish { faults: faults@ },
        }
    }
}

/// The mathematical value of a [`SyncEngine`].
pub ghost struct EngineView {
    /// The number of activities asked for per page.
    pub page_size: u64,
    pub phase: PhaseView,
    /// The roster, once it is known.
    pub students: Seq<StudentView>,
    /// The index of the current child in the roster.
    pub child: int,
    /// The index of the current page of the current child's feed.
    pub page: u64,
    /// The activities of the current page.
    pub activities: Seq<JsonValue>,
    /// The index of the activity at hand in the current page.
    pub item: int,
    /// The failures so far.
    pub faults: Seq<Fault>,
}

/// Whether a page of `count` activities, asked for in pages of `page_size`,
/// may have a successor: it has none where it holds fewer activities than
/// were asked for, and none where it is empty.
pub open spec fn page_is_full(count: int, page_size: u64) -> bool {
    count >= page_size && count > 0
}

impl EngineView {
    /// The state in which a run starts.
    pub open spec fn initial(page_size: u64) -> EngineView {
        EngineView {
            page_size,
            phase: PhaseView::AwaitingUser,
            students: Seq::empty(),
            child: 0,
            page: 0,
            activities: Seq::empty(),
            item: 0,
            faults: Seq::empty(),
        }
    }

    /// The state of a run that was refused before it started.
    pub open spec fn refused(page_size: u64) -> EngineView {
        EngineView {
            phase: PhaseView::Finished,
            faults: seq![Fault::WrongState],
            ..Self::initial(page_size)
        }
    }

    /// The indices point into the roster and the page wherever the phase
    /// reads them.
    pub open spec fn valid(self) -> bool {
        match self.phase {
            PhaseView::AwaitingUser | PhaseView::AwaitingRoster | PhaseView::Finished => true,
            PhaseView::AwaitingChildDirectory | PhaseView::AwaitingPage => 0 <= self.child
                < self.students.len(),
            _ => 0 <= self.child < self.students.len() && 0 <= self.item
                < self.activities.len(),
        }
    }

    /// The run ends, with `fault` as its last failure where one is given.
    pub open spec fn finish(self, fault: Option<Fault>) -> (EngineView, ActionView) {
        let faults = match fault {
            Some(f) => self.faults.push(f),
            None => self.faults,
        };
        (
            EngineView { phase: PhaseView::Finished, faults, ..self },
            ActionView::Finish { faults },
        )
    }

    /// The engine turns to the child `child`: its directory is made sure
    /// of; past the last child the run ends.
    pub open spec fn enter_child(self, child: int) -> (EngineView, ActionView) {
        if 0 <= child < self.students.len() {
            (
                EngineView { phase: PhaseView::AwaitingChildDirectory, child, ..self },
                ActionView::EnsureDirectory {
                    directory: directory_of(self.students[child]),
                    month: None,
                },
            )
        } else {
            EngineView { child, ..self }.finish(None)
        }
    }

    /// The engine asks for page `page` of the current child's feed.
    pub open spec fn request_page(self, page: u64) -> (EngineView, ActionView) {
        (
            EngineView { phase: PhaseView::AwaitingPage, page, ..self },
            ActionView::Send {
                request: students_activities_request(
                    self.students[self.child].object_id,
                    self.page_size,
                    page,
                ),
            },
        )
    }

    /// The current page is done: after a full page the next one is asked
    /// for, after any other the engine turns to the next child.
    pub open spec fn end_page(self) -> (EngineView, ActionView) {
        if page_is_full(self.activities.len() as int, self.page_size) {
            if self.page == u64::MAX {
                self.finish(Some(Fault::EndlessFeed))
            } else {
                self.request_page((self.page + 1) as u64)
            }
        } else {
            self.enter_child(self.child + 1)
        }
    }

    /// The engine goes through the current page from the activity `item`
    /// on, up to the first that has a file to fetch: the month directory of
    /// that file is made sure of. An activity that cannot be read ends the
    /// run.
    pub open spec fn scan(self, item: int) -> (EngineView, ActionView)
        decreases self.activities.len() - item,
    {
        if item < 0 || item >= self.activities.len() {
            EngineView { item, ..self }.end_page()
        } else {
            match attachment_of(self.activities[item]) {
                Err(fault) => EngineView { item, ..self }.finish(Some(fault)),
                Ok(None) => self.scan(item + 1),
                Ok(Some(found)) => {
                    let destination = place_of(
                        directory_of(self.students[self.child]),
                        found.created_at,
                        found.object_id,
                        found.kind.extension_text(),
                    );
                    (
                        EngineView {
                            phase: PhaseView::AwaitingMonthDirectory {
                                job: JobView { url: found.url, destination },
                            },
                            item,
                            ..self
                        },
                        ActionView::EnsureDirectory {
                            directory: destination.directory,
                            month: Some(destination.month),
                        },
                    )
                },
            }
        }
    }

    /// One more failure is on record.
    pub open spec fn record(self, fault: Fault) -> EngineView {
        EngineView { faults: self.faults.push(fault), ..self }
    }

    /// The transition of the engine: the state after `event`, and what the
    /// driver is to do next.
    pub open spec fn step(self, event: EventView) -> (EngineView, ActionView) {
        match self.phase {
            PhaseView::AwaitingUser => match event {
                EventView::Response(response) => match response.user_id() {
                    Ok(user_id) => (
                        EngineView { phase: PhaseView::AwaitingRoster, ..self },
                        ActionView::Send { request: guardians_students_request(user_id) },
                    ),
                    Err(fault) => self.finish(Some(fault)),
                },
                _ => self.finish(Some(Fault::UnexpectedEvent)),
            },
            PhaseView::AwaitingRoster => match event {
                EventView::Response(response) => match response.students() {
                    Ok(students) => EngineView { students, ..self }.enter_child(0),
                    Err(fault) => self.finish(Some(fault)),
                },
                _ => self.finish(Some(Fault::UnexpectedEvent)),
            },
            PhaseView::AwaitingChildDirectory => match event {
                EventView::DirectoryReady => self.request_page(0),
                EventView::DirectoryFailed => self.record(Fault::Directory).enter_child(
                    self.child + 1,
                ),
                _ => self.finish(Some(Fault::UnexpectedEvent)),
            },
            PhaseView::AwaitingPage => match event {
                EventView::Response(response) => match response.page() {
                    Ok(page) => EngineView { activities: page.activities, ..self }.scan(0),
                    Err(fault) => self.finish(Some(fault)),
                },
                _ => self.finish(Some(Fault::UnexpectedEvent)),
            },
            PhaseView::AwaitingMonthDirectory { job } => match event {
                EventView::DirectoryReady => (
                    EngineView { phase: PhaseView::AwaitingProbe { job }, ..self },
                    ActionView::Probe { destination: job.destination },
                ),
                EventView::DirectoryFailed => self.record(Fault::Directory).enter_child(
                    self.child + 1,
                ),
                _ => self.finish(Some(Fault::UnexpectedEvent)),
            },
            PhaseView::AwaitingProbe { job } => match event {
                EventView::Probed { exists } => if exists {
                    self.scan(self.item + 1)
                } else {
                    (
                        EngineView { phase: PhaseView::AwaitingDownload { job }, ..self },
                        ActionView::Download { url: job.url, destination: job.destination },
                    )
                },
                _ => self.finish(Some(Fault::UnexpectedEvent)),
            },
            PhaseView::AwaitingDownload { job } => match event {
                EventView::Downloaded => self.scan(self.item + 1),
                EventView::DownloadFailed { fault } => (
                    EngineView { phase: PhaseView::AwaitingDiscard { fault }, ..self },
                    ActionView::Discard { destination: job.destination },
                ),
                _ => self.finish(Some(Fault::UnexpectedEvent)),
            },
            PhaseView::AwaitingDiscard { fault } => match event {
                EventView::Discarded => if fault.spec_kind() == ErrorKind::Filesystem {
                    self.record(fault).scan(self.item + 1)
                } else {
                    self.finish(Some(fault))
                },
                _ => self.finish(Some(Fault::UnexpectedEvent)),
            },
            PhaseView::Finished => (self, ActionView::Finish { faults: self.faults }),
        }
    }
}

/// What a run has reached, but for the phase.
#[derive(Debug)]
struct Progress {
    client: BrightwheelClient,
    page_size: u64,
    students: Vec<Student>,
    child: usize,
    page: u64,
    activities: Vec<Json>,
    item: usize,
    faults: Vec<Fault>,
}

impl Progress {
    spec fn at(self, phase: PhaseView) -> EngineView {
        EngineView {
            page_size: self.page_size,
            phase,
            students: students_view(self.students@),
            child: self.child as int,
            page: self.page,
            activities: values_of(self.activities@),
            item: self.item as int,
            faults: self.faults@,
        }
    }
}

/// A run of the sync engine.
#[derive(Debug)]
pub struct SyncEngine {
    phase: Phase,
    progress: Progress,
}

impl View for SyncEngine {
    type V = EngineView;

    closed spec fn view(&self) -> EngineView {
        self.progress.at(self.phase@)
    }
}

fn copy_faults(faults: &Vec<Fault>) -> (copy: Vec<Fault>)
    ensures
        copy@ == faults@,
{
    let mut copy: Vec<Fault> = Vec::new();
    let mut i: usize = 0;
    while i < faults.len()
        invariant
            i <= faults.len(),
            copy@ == faults@.take(i as int),
        decreases faults.len() - i,
    {
        copy.push(faults[i]);
        assert(faults@.take(i + 1) =~= faults@.take(i as int).push(faults@[i as int]));
        i += 1;
    }
    assert(faults@.take(i as int) =~= faults@);
    copy
}

fn copy_destination(destination: &Destination) -> (copy: Destination)
    ensures
        copy@ == destination@,
{
    Destination {
        directory: destination.directory.clone(),
        month: destination.month.clone(),
        file_name: destination.file_name.clone(),
    }
}

impl SyncEngine {
    #[verifier::type_invariant]
    spec fn well_formed(self) -> bool {
        self.progress.at(self.phase@).valid()
    }

    fn finish(progress: Progress, Ghost(phase): Ghost<PhaseView>, fault: Option<Fault>) -> (next: (
        SyncEngine,
        Action,
    ))
        ensures
            (next.0@, next.1@) == progress.at(phase).finish(fault),
    {
        let mut progress = progress;
        match fault {
            Some(f) => {
                progress.faults.push(f);
            },
            None => {},
        }
        let faults = copy_faults(&progress.faults);
        (SyncEngine { phase: Phase::Finished, progress }, Action::Finish { faults })
    }

    fn enter_child(progress: Progress, Ghost(phase): Ghost<PhaseView>, child: usize) -> (next: (
        SyncEngine,
        Action,
    ))
        ensures
            (next.0@, next.1@) == progress.at(phase).enter_child(child as int),
    {
        let mut progress = progress;
        progress.child = child;
        if child < progress.students.len() {
            let directory = student_directory(&progress.students[child]);
            (
                SyncEngine { phase: Phase::AwaitingChildDirectory, progress },
                Action::EnsureDirectory { directory, month: None },
            )
        } else {
            Self::finish(progress, Ghost(phase), None)
        }
    }

    fn request_page(progress: Progress, Ghost(phase): Ghost<PhaseView>, page: u64) -> (next: (
        SyncEngine,
        Action,
    ))
        requires
            progress.child < progress.students@.len(),
        ensures
            (next.0@, next.1@) == progress.at(phase).request_page(page),
    {
        let mut progress = progress;
        progress.page = page;
        let request = progress.client.get_students_activities(
            &progress.students[progress.child].object_id,
            progress.page_size,
            page,
        );
        (SyncEngine { phase: Phase::AwaitingPage, progress }, Action::Send { request })
    }

    fn end_page(progress: Progress, Ghost(phase): Ghost<PhaseView>) -> (next: (SyncEngine, Action))
        requires
            progress.child < progress.students@.len(),
        ensures
            (next.0@, next.1@) == progress.at(phase).end_page(),
    {
        let count = progress.activities.len();
        if count > 0 && count as u64 >= progress.page_size {
            if progress.page == u64::MAX {
                Self::finish(progress, Ghost(phase), Some(Fault::EndlessFeed))
            } else {
                let page = progress.page + 1;
                Self::request_page(progress, Ghost(phase), page)
            }
        } else {
            proof {
                assert(progress.child < progress.students.len());
            }
            let child = progress.child + 1;
            Self::enter_child(progress, Ghost(phase), child)
        }
    }

    fn scan(given: Progress, Ghost(phase): Ghost<PhaseView>, from: usize) -> (next: (
        SyncEngine,
        Action,
    ))
        requires
            given.child < given.students@.len(),
            from <= given.activities@.len(),
        ensures
            (next.0@, next.1@) == given.at(phase).scan(from as int),
    {
        let ghost before = given.at(phase);
        let mut progress = given;
        let directory = student_directory(&progress.students[progress.child]);
        let mut item = from;
        while item < progress.activities.len()
            invariant
                from <= item <= progress.activities@.len(),
                progress.child < progress.students@.len(),
                progress.at(phase) == before,
                before == given.at(phase),
                directory@ == directory_of(before.students[before.child]),
                before.scan(item as int) == before.scan(from as int),
            decreases progress.activities@.len() - item,
        {
            assert(before.activities[item as int] == progress.activities@[item as int]@);
            match attachment(&progress.activities[item]) {
                Err(fault) => {
                    progress.item = item;
                    return Self::finish(progress, Ghost(phase), Some(fault));
                },
                Ok(None) => {},
                Ok(Some(found)) => {
                    let Attachment { kind, created_at, object_id, url } = found;
                    let destination = place(
                        directory.as_str(),
                        created_at,
                        object_id.as_str(),
                        kind.extension(),
                    );
                    progress.item = item;
                    let action = Action::EnsureDirectory {
                        directory: destination.directory.clone(),
                        month: Some(destination.month.clone()),
                    };
                    let job = Job { url, destination };
                    return (
                        SyncEngine { phase: Phase::AwaitingMonthDirectory { job }, progress },
                        action,
                    );
                },
            }
            item += 1;
        }
        progress.item = item;
        Self::end_page(progress, Ghost(phase))
    }

    fn start(page_size: u64) -> (run: (SyncEngine, Action))
        ensures
            run.0@ == EngineView::initial(page_size),
            run.1@ == (ActionView::Send { request: users_me_request() }),
    {
        let client = BrightwheelClient::new();
        let request = client.get_users_me();
        let progress = Progress {
            client,
            page_size,
            students: Vec::new(),
            child: 0,
            page: 0,
            activities: Vec::new(),
            item: 0,
            faults: Vec::new(),
        };
        assert(students_view(progress.students@) =~= Seq::empty());
        assert(values_of(progress.activities@) =~= Seq::empty());
        (SyncEngine { phase: Phase::AwaitingUser, progress }, Action::Send { request })
    }

    /// Takes what the driver reports and says what it is to do next.
    pub fn advance(self, event: Event) -> (next: (SyncEngine, Action))
        ensures
            (next.0@, next.1@) == self@.step(event@),
            next.0@.valid(),
    {
        proof {
            use_type_invariant(&self);
        }
        let SyncEngine { phase, progress } = self;
        let ghost was = phase@;
        let next = match phase {
            Phase::AwaitingUser => match event {
                Event::Response(response) => match progress.client.get_user_id(&response) {
                    Ok(user_id) => {
                        let request = progress.client.get_guardians_students(&user_id);
                        (SyncEngine { phase: Phase::AwaitingRoster, progress }, Action::Send { request })
                    },
                    Err(fault) => Self::finish(progress, Ghost(was), Some(fault)),
                },
                _ => Self::finish(progress, Ghost(was), Some(Fault::UnexpectedEvent)),
            },
            Phase::AwaitingRoster => match event {
                Event::Response(response) => match progress.client.get_students(&response) {
                    Ok(students) => {
                        let mut progress = progress;
                        progress.students = students;
                        Self::enter_child(progress, Ghost(was), 0)
                    },
                    Err(fault) => Self::finish(progress, Ghost(was), Some(fault)),
                },
                _ => Self::finish(progress, Ghost(was), Some(Fault::UnexpectedEvent)),
            },
            Phase::AwaitingChildDirectory => match event {
                Event::DirectoryReady => Self::request_page(progress, Ghost(was), 0),
                Event::DirectoryFailed => {
                    let mut progress = progress;
                    progress.faults.push(Fault::Directory);
                    proof {
                        assert(progress.child < progress.students.len());
                    }
                    let child = progress.child + 1;
                    Self::enter_child(progress, Ghost(was), child)
                },
                _ => Self::finish(progress, Ghost(was), Some(Fault::UnexpectedEvent)),
            },
            Phase::AwaitingPage => match event {
                Event::Response(response) => match read_page(response) {
                    Ok(page) => {
                        let mut progress = progress;
                        progress.activities = page.activities;
                        Self::scan(progress, Ghost(was), 0)
                    },
                    Err(fault) => Self::finish(progress, Ghost(was), Some(fault)),
                },
                _ => Self::finish(progress, Ghost(was), Some(Fault::UnexpectedEvent)),
            },
            Phase::AwaitingMonthDirectory { job } => match event {
                Event::DirectoryReady => {
                    let destination = copy_destination(&job.destination);
                    (
                        SyncEngine { phase: Phase::AwaitingProbe { job }, progress },
                        Action::Probe { destination },
                    )
                },
                Event::DirectoryFailed => {
                    let mut progress = progress;
                    progress.faults.push(Fault::Directory);
                    proof {
                        assert(progress.child < progress.students.len());
                    }
                    let child = progress.child + 1;
                    Self::enter_child(progress, Ghost(was), child)
                },
                _ => Self::finish(progress, Ghost(was), Some(Fault::UnexpectedEvent)),
            },
            Phase::AwaitingProbe { job } => match event {
                Event::Probed { exists } => if exists {
                    proof {
                        assert(progress.item < progress.activities.len());
                    }
                    let item = progress.item + 1;
                    Self::scan(progress, Ghost(was), item)
                } else {
                    let url = job.url.clone();
                    let destination = copy_destination(&job.destination);
                    (
                        SyncEngine { phase: Phase::AwaitingDownload { job }, progress },
                        Action::Download { url, destination },
                    )
                },
                _ => Self::finish(progress, Ghost(was), Some(Fault::UnexpectedEvent)),
            },
            Phase::AwaitingDownload { job } => match event {
                Event::Downloaded => {
                    proof {
                        assert(progress.item < progress.activities.len());
                    }
                    let item = progress.item + 1;
                    Self::scan(progress, Ghost(was), item)
                },
                Event::DownloadFailed { fault } => (
                    SyncEngine { phase: Phase::AwaitingDiscard { fault }, progress },
                    Action::Discard { destination: job.destination },
                ),
                _ => Self::finish(progress, Ghost(was), Some(Fault::UnexpectedEvent)),
            },
            Phase::AwaitingDiscard { fault } => match event {
                Event::Discarded => if fault.kind() == ErrorKind::Filesystem {
                    let mut progress = progress;
                    progress.faults.push(fault);
                    proof {
                        assert(progress.item < progress.activities.len());
                    }
                    let item = progress.item + 1;
                    Self::scan(progress, Ghost(was), item)
                } else {
                    Self::finish(progress, Ghost(was), Some(fault))
                },
                _ => Self::finish(progress, Ghost(was), Some(Fault::UnexpectedEvent)),
            },
            Phase::Finished => {
                let faults = copy_faults(&progress.faults);
                (SyncEngine { phase: Phase::Finished, progress }, Action::Finish { faults })
            },
        };
        proof {
            use_type_invariant(&next.0);
        }
        next
    }
}

/// Starts a run for the signed-in session. In any other state nothing is
/// to be done but to stop, with `WrongState` as the failure.
pub fn sync<S>(state: &AuthState<S>, page_size: u64) -> (run: (SyncEngine, Action))
    ensures
        (state@ is LoggedIn) ==> run.0@ == EngineView::initial(page_size) && run.1@ == (
        ActionView::Send { request: users_me_request() }),
        !(state@ is LoggedIn) ==> run.0@ == EngineView::refused(page_size) && run.1@ == (
        ActionView::Finish { faults: seq![Fault::WrongState] }),
{
    match state {
        AuthState::LoggedIn { .. } => SyncEngine::start(page_size),
        _ => {
            let mut faults: Vec<Fault> = Vec::new();
            faults.push(Fault::WrongState);
            let progress = Progress {
                client: BrightwheelClient::new(),
                page_size,
                students: Vec::new(),
                child: 0,
                page: 0,
                activities: Vec::new(),
                item: 0,
                faults,
            };
            assert(students_view(progress.students@) =~= Seq::empty());
            assert(values_of(progress.activities@) =~= Seq::empty());
            assert(progress.faults@ =~= seq![Fault::WrongState]);
            let report = copy_faults(&progress.faults);
            (SyncEngine { phase: Phase::Finished, progress }, Action::Finish { faults: report })
        },
    }
}

impl EngineView {
    /// The engine is at work on the activities of a page.
    pub open spec fn on_page(self) -> bool {
        self.phase is AwaitingMonthDirectory || self.phase is AwaitingProbe
            || self.phase is AwaitingDownload || self.phase is AwaitingDiscard
    }

    /// The engine is at work on a page that has no successor.
    pub open spec fn on_last_page(self) -> bool {
        self.on_page() && !page_is_full(self.activities.len() as int, self.page_size)
    }

    /// The engine has left the child `child`: it is at the next one, or
    /// the run is over.
    pub open spec fn has_left(self, child: int) -> bool {
        self.phase is Finished || (self.phase is AwaitingChildDirectory && self.child == child
            + 1)
    }

    /// The action is the one that the state waits for the outcome of.
    pub open spec fn awaits(self, action: ActionView) -> bool {
        match self.phase {
            PhaseView::AwaitingUser | PhaseView::AwaitingRoster | PhaseView::AwaitingPage =>
                action is Send,
            PhaseView::AwaitingChildDirectory => action is EnsureDirectory,
            PhaseView::AwaitingMonthDirectory { job } => action == (ActionView::EnsureDirectory {
                directory: job.destination.directory,
                month: Some(job.destination.month),
            }),
            PhaseView::AwaitingProbe { job } => action == (ActionView::Probe {
                destination: job.destination,
            }),
            PhaseView::AwaitingDownload { job } => action == (ActionView::Download {
                url: job.url,
                destination: job.destination,
            }),
            PhaseView::AwaitingDiscard { .. } => action is Discard,
            PhaseView::Finished => action is Finish,
        }
    }
}

impl EngineView {
    /// What a scan of the rest of a page from the activity `item` on leads
    /// to: the month directory of the next file, the next page after a full
    /// page, the next child after any other page, or the end of the run.
    pub open spec fn scan_lands(self, item: int) -> bool {
        let after = self.scan(item).0;
        let action = self.scan(item).1;
        &&& after.valid()
        &&& after.awaits(action)
        &&& after.page_size == self.page_size
        &&& after.students == self.students
        &&& after.activities == self.activities
        &&& match after.phase {
            PhaseView::AwaitingMonthDirectory { .. } => after.child == self.child && after.page
                == self.page && after.faults == self.faults,
            PhaseView::AwaitingPage => page_is_full(self.activities.len() as int, self.page_size)
                && after.child == self.child && after.page == self.page + 1 && action == (
            ActionView::Send {
                request: students_activities_request(
                    self.students[self.child].object_id,
                    self.page_size,
                    (self.page + 1) as u64,
                ),
            }),
            PhaseView::AwaitingChildDirectory => !page_is_full(
                self.activities.len() as int,
                self.page_size,
            ) && after.child == self.child + 1,
            PhaseView::Finished => true,
            _ => false,
        }
    }
}

/// A scan of the rest of a page lands where `scan_lands` says.
pub proof fn lemma_scan(s: EngineView, item: int)
    requires
        0 <= s.child < s.students.len(),
        0 <= item <= s.activities.len(),
    ensures
        s.scan_lands(item),
    decreases s.activities.len() - item,
{
    if item < s.activities.len() {
        if attachment_of(s.activities[item]) == Ok::<Option<AttachmentView>, Fault>(None) {
            lemma_scan(s, item + 1);
        }
    }
}

/// A scan does not read the phase that it starts in.
pub proof fn lemma_scan_ignores_phase(s: EngineView, phase: PhaseView, item: int)
    ensures
        (EngineView { phase, ..s }).scan(item) == s.scan(item),
    decreases s.activities.len() - item,
{
    if 0 <= item < s.activities.len() {
        if attachment_of(s.activities[item]) == Ok::<Option<AttachmentView>, Fault>(None) {
            lemma_scan_ignores_phase(s, phase, item + 1);
        }
    }
}

/// An activity that carries neither a photo nor a video is skipped: it
/// gives nothing to fetch and no failure, and the scan goes on with the
/// activity after it.
pub proof fn law_bare_activity_is_skipped(s: EngineView, item: int)
    requires
        0 <= item < s.activities.len(),
        s.activities[item].is_object(),
        !carries(s.activities[item], MediaKind::Photo),
        !carries(s.activities[item], MediaKind::Video),
    ensures
        attachment_of(s.activities[item]) == Ok::<Option<AttachmentView>, Fault>(None),
        s.scan(item) == s.scan(item + 1),
{
}

/// Whichever scan the transition on `event` makes lands where `scan_lands`
/// says: the scan of a page that has come, of the rest of the page after a
/// file, or of the rest after a failed download.
pub proof fn lemma_step_scans(s: EngineView, event: EventView)
    requires
        s.valid(),
    ensures
        s.phase is AwaitingPage && event is Response && event->Response_0.page() is Ok ==> (
        EngineView { activities: event->Response_0.page()->Ok_0.activities, ..s }).scan_lands(0),
        s.on_page() ==> s.scan_lands(s.item + 1),
        s.phase matches PhaseView::AwaitingDiscard { fault } ==> s.record(fault).scan_lands(
            s.item + 1,
        ),
{
    if s.phase is AwaitingPage && event is Response && event->Response_0.page() is Ok {
        lemma_scan(EngineView { activities: event->Response_0.page()->Ok_0.activities, ..s }, 0);
    }
    if s.on_page() {
        lemma_scan(s, s.item + 1);
    }
    if let PhaseView::AwaitingDiscard { fault } = s.phase {
        lemma_scan(s.record(fault), s.item + 1);
    }
}

/// Every transition leads from a valid state to a valid state, and to an
/// action that this state waits for the outcome of.
pub proof fn law_step_keeps_valid(s: EngineView, event: EventView)
    requires
        s.valid(),
    ensures
        s.step(event).0.valid(),
        s.step(event).0.awaits(s.step(event).1),
{
    lemma_step_scans(s, event);
}

/// A file is fetched only in answer to a probe that found nothing at its
/// destination, and it is fetched to that very destination.
pub proof fn law_download_answers_probe(s: EngineView, event: EventView)
    requires
        s.valid(),
        (s.step(event).1 is Download),
    ensures
        (s.phase is AwaitingProbe),
        event == (EventView::Probed { exists: false }),
        s.step(event).1 == (ActionView::Download {
            url: s.phase->AwaitingProbe_job.url,
            destination: s.phase->AwaitingProbe_job.destination,
        }),
{
    lemma_step_scans(s, event);
}

/// Once a page has come that holds fewer activities than were asked for,
/// or none, no further page of that child's feed is asked for: whatever
/// happens, the engine sends no request until it has left the child.
pub proof fn law_short_page_is_last(s: EngineView, event: EventView)
    requires
        s.valid(),
        s.on_last_page() || (s.phase is AwaitingPage && event is Response
            && event->Response_0.page() is Ok && !page_is_full(
            event->Response_0.page()->Ok_0.activities.len() as int,
            s.page_size,
        )),
    ensures
        !(s.step(event).1 is Send),
        (s.step(event).0.on_last_page() && s.step(event).0.child == s.child) || s.step(
            event,
        ).0.has_left(s.child),
{
    lemma_step_scans(s, event);
}

/// After a page that holds as many activities as were asked for, and at
/// least one, the request that follows is the one for the next page of the
/// same child, unless a failure ends the child's turn or the run first.
pub proof fn law_full_page_has_successor(s: EngineView, event: EventView)
    requires
        s.valid(),
        s.page < u64::MAX,
        (s.on_page() && page_is_full(s.activities.len() as int, s.page_size)) || (s.phase
            is AwaitingPage && event is Response && event->Response_0.page() is Ok
            && page_is_full(
            event->Response_0.page()->Ok_0.activities.len() as int,
            s.page_size,
        )),
    ensures
        s.step(event).1 is Send ==> s.step(event).1 == (ActionView::Send {
            request: students_activities_request(
                s.students[s.child].object_id,
                s.page_size,
                (s.page + 1) as u64,
            ),
        }),
        (s.step(event).1 is Send) || (s.step(event).0.on_page() && s.step(event).0.child
            == s.child && s.step(event).0.page == s.page && page_is_full(
            s.step(event).0.activities.len() as int,
            s.page_size,
        )) || s.step(event).0.has_left(s.child),
{
    lemma_step_scans(s, event);
}

/// The state that the engine is in after it was told `events`, one after
/// the other, from the state `s` on.
pub open spec fn state_after(s: EngineView, events: Seq<EventView>) -> EngineView
    decreases events.len(),
{
    if events.len() == 0 {
        s
    } else {
        state_after(s.step(events[0]).0, events.drop_first())
    }
}

impl EngineView {
    /// The feed of the child `child` is done with: its last page is at
    /// work, or the engine is at a later child, or the run is over.
    pub open spec fn feed_is_done(self, child: int) -> bool {
        ||| self.on_last_page() && self.child == child
        ||| self.phase is Finished
        ||| self.child > child && !(self.phase is AwaitingUser) && !(self.phase
            is AwaitingRoster)
    }
}

/// Once the feed of a child is done with, it stays so.
proof fn lemma_feed_stays_done(s: EngineView, child: int, event: EventView)
    requires
        s.valid(),
        s.feed_is_done(child),
    ensures
        s.step(event).0.valid(),
        s.step(event).0.feed_is_done(child),
        s.step(event).1 is Send ==> s.child > child,
{
    lemma_step_scans(s, event);
}

/// No request of a run is for a page of a feed that is done with.
proof fn lemma_requests_after_the_feed(s: EngineView, child: int, events: Seq<EventView>, k: int)
    requires
        s.valid(),
        s.feed_is_done(child),
        0 <= k < events.len(),
        (state_after(s, events.take(k)).step(events[k]).1 is Send),
    ensures
        state_after(s, events.take(k)).child > child,
    decreases k,
{
    if k == 0 {
        assert(events.take(0).len() == 0);
        lemma_feed_stays_done(s, child, events[0]);
    } else {
        let rest = events.drop_first();
        assert(events.take(k).drop_first() == rest.take(k - 1));
        assert(events.take(k)[0] == events[0]);
        assert(rest[k - 1] == events[k]);
        lemma_feed_stays_done(s, child, events[0]);
        lemma_requests_after_the_feed(s.step(events[0]).0, child, rest, k - 1);
    }
}

/// Pagination ends with the first page that holds fewer activities than
/// were asked for, or none: from the state in which such a page comes or
/// is at work, whatever the engine is told and for however long, every
/// request that it sends belongs to a later child. None is for a further
/// page of this child's feed.
pub proof fn law_no_page_follows_a_short_page(s: EngineView, events: Seq<EventView>, k: int)
    requires
        s.valid(),
        0 <= k < events.len(),
        s.on_last_page() || (s.phase is AwaitingPage && events[0] is Response
            && events[0]->Response_0.page() is Ok && !page_is_full(
            events[0]->Response_0.page()->Ok_0.activities.len() as int,
            s.page_size,
        )),
        (state_after(s, events.take(k)).step(events[k]).1 is Send),
    ensures
        state_after(s, events.take(k)).child > s.child,
{
    if s.on_last_page() {
        lemma_requests_after_the_feed(s, s.child, events, k);
    } else {
        law_short_page_is_last(s, events[0]);
        law_step_keeps_valid(s, events[0]);
        if k == 0 {
            assert(events.take(0).len() == 0);
        } else {
            let rest = events.drop_first();
            assert(events.take(k).drop_first() == rest.take(k - 1));
            assert(events.take(k)[0] == events[0]);
            assert(rest[k - 1] == events[k]);
            lemma_requests_after_the_feed(s.step(events[0]).0, s.child, rest, k - 1);
        }
    }
}

/// A world for a run to happen in: a feed that answers a request the same
/// way every time, and a disk on which every directory can be made and
/// every download ends well. `files` are the files on the disk.
pub ghost struct World {
    pub feed: spec_fn(RequestView) -> ResponseView,
    pub files: Set<DestinationView>,
}

impl World {
    /// The world after `action`, and what the driver reports for it.
    /// `Finish` is the one action that nothing is reported for.
    pub open spec fn react(self, action: ActionView) -> (World, EventView)
        recommends
            !(action is Finish),
    {
        match action {
            ActionView::Send { request } => (self, EventView::Response((self.feed)(request))),
            ActionView::Probe { destination } => (
                self,
                EventView::Probed { exists: self.files.contains(destination) },
            ),
            ActionView::Download { destination, .. } => (
                World { files: self.files.insert(destination), ..self },
                EventView::Downloaded,
            ),
            ActionView::Discard { destination } => (
                World { files: self.files.remove(destination), ..self },
                EventView::Discarded,
            ),
            ActionView::EnsureDirectory { .. } | ActionView::Finish { .. } => (
                self,
                EventView::DirectoryReady,
            ),
        }
    }
}

/// How a run went.
pub ghost struct Outcome {
    /// Whether the engine said `Finish` within the steps it was given.
    pub finished: bool,
    /// The files on the disk afterwards.
    pub files: Set<DestinationView>,
    /// The destinations that were written to, in order.
    pub writes: Seq<DestinationView>,
}

/// The run of an engine in the state `s`, which has just asked for
/// `action`, in `world`, for `steps` steps at most.
pub open spec fn drive(s: EngineView, action: ActionView, world: World, steps: nat) -> Outcome
    decreases steps,
{
    if action is Finish {
        Outcome { finished: true, files: world.files, writes: Seq::empty() }
    } else if steps == 0 {
        Outcome { finished: false, files: world.files, writes: Seq::empty() }
    } else {
        let reaction = world.react(action);
        let next = s.step(reaction.1);
        let rest = drive(next.0, next.1, reaction.0, (steps - 1) as nat);
        Outcome {
            finished: rest.finished,
            files: rest.files,
            writes: match action {
                ActionView::Download { destination, .. } => seq![destination] + rest.writes,
                _ => rest.writes,
            },
        }
    }
}

/// A whole run, from its start, in `world`.
pub open spec fn sync_run(page_size: u64, world: World, steps: nat) -> Outcome {
    drive(
        EngineView::initial(page_size),
        ActionView::Send { request: users_me_request() },
        world,
        steps,
    )
}

/// Whether `s` is a state that a run in a [`World`] goes through before a
/// step: a valid state that waits for `action`, and for no download.
pub open spec fn at_rest(s: EngineView, action: ActionView) -> bool {
    s.valid() && s.awaits(action) && !(s.phase is AwaitingDownload) && !(s.phase
        is AwaitingDiscard)
}

/// A step from a state at rest leads to a state at rest, or to the download
/// that a probe asked for, and from there, after the download, to a state
/// at rest.
proof fn lemma_rest(s: EngineView, action: ActionView, world: World)
    requires
        at_rest(s, action),
        !(action is Finish),
    ensures
        ({
            let reaction = world.react(action);
            let next = s.step(reaction.1);
            if action is Probe && !world.files.contains(action->Probe_destination) {
                let written = reaction.0.react(next.1);
                &&& next.1 == (ActionView::Download {
                    url: s.phase->AwaitingProbe_job.url,
                    destination: action->Probe_destination,
                })
                &&& next.0.valid()
                &&& written.0.files == world.files.insert(action->Probe_destination)
                &&& written.0.feed == world.feed
                &&& next.0.step(written.1) == s.step(EventView::Probed { exists: true })
                &&& at_rest(next.0.step(written.1).0, next.0.step(written.1).1)
            } else {
                &&& reaction.0 == world
                &&& at_rest(next.0, next.1)
            }
        }),
{
    let reaction = world.react(action);
    let next = s.step(reaction.1);
    lemma_step_scans(s, reaction.1);
    if action is Probe && !world.files.contains(action->Probe_destination) {
        let written = reaction.0.react(next.1);
        lemma_scan_ignores_phase(s, next.0.phase, s.item + 1);
        lemma_step_scans(next.0, written.1);
    }
}

/// A run from a state at rest takes no file off the disk.
proof fn lemma_files_stay(s: EngineView, action: ActionView, world: World, steps: nat)
    requires
        at_rest(s, action),
    ensures
        world.files.subset_of(drive(s, action, world, steps).files),
    decreases steps,
{
    reveal_with_fuel(drive, 3);
    if !(action is Finish) && steps > 0 {
        lemma_rest(s, action, world);
        let reaction = world.react(action);
        let next = s.step(reaction.1);
        if action is Probe && !world.files.contains(action->Probe_destination) {
            if steps > 1 {
                let written = reaction.0.react(next.1);
                let after = next.0.step(written.1);
                lemma_files_stay(after.0, after.1, written.0, (steps - 2) as nat);
            }
        } else {
            lemma_files_stay(next.0, next.1, reaction.0, (steps - 1) as nat);
        }
    }
}

/// Where a run from a state at rest finishes, a run from the same state
/// that finds all files of the first on the disk writes nothing.
proof fn lemma_rerun(
    s: EngineView,
    action: ActionView,
    world: World,
    steps: nat,
    later: World,
    again: nat,
)
    requires
        at_rest(s, action),
        drive(s, action, world, steps).finished,
        later.feed == world.feed,
        drive(s, action, world, steps).files.subset_of(later.files),
    ensures
        drive(s, action, later, again).writes == Seq::<DestinationView>::empty(),
    decreases steps,
{
    reveal_with_fuel(drive, 3);
    if !(action is Finish) && again > 0 {
        lemma_rest(s, action, world);
        lemma_rest(s, action, later);
        lemma_files_stay(s, action, world, steps);
        let reaction = world.react(action);
        let next = s.step(reaction.1);
        if action is Probe && !world.files.contains(action->Probe_destination) {
            let written = reaction.0.react(next.1);
            let after = next.0.step(written.1);
            assert(steps >= 2);
            lemma_files_stay(after.0, after.1, written.0, (steps - 2) as nat);
            assert(later.files.contains(action->Probe_destination));
            lemma_rerun(after.0, after.1, written.0, (steps - 2) as nat, later, (again - 1) as nat);
        } else {
            lemma_files_stay(next.0, next.1, reaction.0, (steps - 1) as nat);
            assert(later.react(action).1 == reaction.1);
            lemma_rerun(next.0, next.1, reaction.0, (steps - 1) as nat, later, (again - 1) as nat);
        }
    }
}

/// Running the sync twice against an unchanged feed writes no file the
/// second time: where a run finishes, a second run, on the disk as the
/// first left it and against the same feed, fetches nothing, however long
/// it is given.
pub proof fn law_second_run_writes_nothing(page_size: u64, world: World, steps: nat, again: nat)
    requires
        sync_run(page_size, world, steps).finished,
    ensures
        sync_run(
            page_size,
            World { files: sync_run(page_size, world, steps).files, ..world },
            again,
        ).writes == Seq::<DestinationView>::empty(),
{
    let later = World { files: sync_run(page_size, world, steps).files, ..world };
    lemma_rerun(
        EngineView::initial(page_size),
        ActionView::Send { request: users_me_request() },
        world,
        steps,
        later,
        again,
    );
}

} // verus!
