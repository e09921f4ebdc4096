//! Bringing the shared connection pool up, once: the service decides each
//! step, the host carries it out and reports what happened.

use vstd::prelude::*;
use crate::error::{ServiceError, ServiceErrorView};

verus! {

/// How far the initialization has come.
#[derive(Debug, PartialEq, Eq)]
pub enum InitState {
    /// Nothing has been asked for yet.
    Idle,
    /// The host is looking up the data directory.
    ResolvingDirectory,
    /// The host is making sure that the data directory exists.
    CreatingDirectory { directory: String },
    /// The host is looking for the database file.
    CheckingFile { url: String },
    /// The host is creating the database file.
    CreatingFile { url: String },
    /// The host is opening the pool.
    Connecting,
    /// The host is applying the pending migrations.
    Migrating,
    /// The host is publishing the pool that it opened.
    Publishing,
    /// A pool is published; the caller has been told which.
    Ready,
    /// The initialization failed; no pool was published by it.
    Failed,
}

pub enum InitStateView {
    Idle,
    ResolvingDirectory,
    CreatingDirectory { directory: Seq<char> },
    CheckingFile { url: Seq<char> },
    CreatingFile { url: Seq<char> },
    Connecting,
    Migrating,
    Publishing,
    Ready,
    Failed,
}

impl InitStateView {
    /// How many steps of an initialization lie behind the state.
    pub open spec fn progress(self) -> nat {
        match self {
            InitStateView::Idle => 0,
            InitStateView::ResolvingDirectory => 1,
            InitStateView::CreatingDirectory { .. } => 2,
            InitStateView::CheckingFile { .. } => 3,
            InitStateView::CreatingFile { .. } => 4,
            InitStateView::Connecting => 5,
            InitStateView::Migrating => 6,
            InitStateView::Publishing => 7,
            InitStateView::Ready => 8,
            InitStateView::Failed => 8,
        }
    }

    /// Whether the initialization is over.
    pub open spec fn is_final(self) -> bool {
        self is Ready || self is Failed
    }
}

impl View for InitState {
    type V = InitStateView;

    open spec fn view(&self) -> InitStateView {
        match *self {
            InitState::Idle => InitStateView::Idle,
            InitState::ResolvingDirectory => InitStateView::ResolvingDirectory,
            InitState::CreatingDirectory { directory } => InitStateView::CreatingDirectory {
                directory: directory@,
            },
            InitState::CheckingFile { url } => InitStateView::CheckingFile { url: url@ },
            InitState::CreatingFile { url } => InitStateView::CreatingFile { url: url@ },
            InitState::Connecting => InitStateView::Connecting,
            InitState::Migrating => InitStateView::Migrating,
            InitState::Publishing => InitStateView::Publishing,
            InitState::Ready => InitStateView::Ready,
            InitState::Failed => InitStateView::Failed,
        }
    }
}

/// What the host reports.
#[derive(Debug, PartialEq, Eq)]
pub enum InitEvent {
    /// A caller asks for the pool; `published` says whether one is in place.
    Requested { published: bool },
    /// The data directory was found.
    Directory { path: String },
    /// The data directory exists now.
    DirectoryCreated,
    /// The database file was looked for; `None` if the look itself failed.
    FileChecked { exists: Option<bool> },
    /// The database file was created.
    FileCreated,
    /// The pool is open.
    Connected,
    /// Every pending migration was applied.
    Migrated,
    /// The pool was offered for publication: `won` if it is the published one
    /// now, else `shared` says whether another one is in place.
    Published { won: bool, shared: bool },
    /// The step that was asked for failed.
    Failed { detail: String },
}

pub enum InitEventView {
    Requested { published: bool },
    Directory { path: Seq<char> },
    DirectoryCreated,
    FileChecked { exists: Option<bool> },
    FileCreated,
    Connected,
    Migrated,
    Published { won: bool, shared: bool },
    Failed { detail: Seq<char> },
}

impl View for InitEvent {
    type V = InitEventView;

    open spec fn view(&self) -> InitEventView {
        match *self {
            InitEvent::Requested { published } => InitEventView::Requested { published },
            InitEvent::Directory { path } => InitEventView::Directory { path: path@ },
            InitEvent::DirectoryCreated => InitEventView::DirectoryCreated,
            InitEvent::FileChecked { exists } => InitEventView::FileChecked { exists },
            InitEvent::FileCreated => InitEventView::FileCreated,
            InitEvent::Connected => InitEventView::Connected,
            InitEvent::Migrated => InitEventView::Migrated,
            InitEvent::Published { won, shared } => InitEventView::Published { won, shared },
            InitEvent::Failed { detail } => InitEventView::Failed { detail: detail@ },
        }
    }
}

/// What the host is to do next.
#[derive(Debug, PartialEq, Eq)]
pub enum InitAction {
    /// Look up the data directory of the application.
    ResolveDirectory,
    /// Create the directory and what is missing above it.
    CreateDirectory { directory: String },
    /// Ask the engine whether the database exists.
    CheckFile { url: String },
    /// Have the engine create an empty database.
    CreateFile { url: String },
    /// Open a pool on the database.
    Connect { url: String },
    /// Apply the pending migrations, the lowest version first.
    Migrate,
    /// Offer the open pool as the shared one.
    Publish,
    /// Hand the caller the pool that is in place.
    UseShared,
    /// Hand the caller the pool that was just published.
    UseNew,
    /// Report the failure to the caller.
    Fail(ServiceError),
    /// Stop the process: the database file could not be created.
    Abort { message: String },
}

pub enum InitActionView {
    ResolveDirectory,
    CreateDirectory { directory: Seq<char> },
    CheckFile { url: Seq<char> },
    CreateFile { url: Seq<char> },
    Connect { url: Seq<char> },
    Migrate,
    Publish,
    UseShared,
    UseNew,
    Fail(ServiceErrorView),
    Abort { message: Seq<char> },
}

impl View for InitAction {
    type V = InitActionView;

    open spec fn view(&self) -> InitActionView {
        match *self {
            InitAction::ResolveDirectory => InitActionView::ResolveDirectory,
            InitAction::CreateDirectory { directory } => InitActionView::CreateDirectory {
                directory: directory@,
            },
            InitAction::CheckFile { url } => InitActionView::CheckFile { url: url@ },
            InitAction::CreateFile { url } => InitActionView::CreateFile { url: url@ },
            InitAction::Connect { url } => InitActionView::Connect { url: url@ },
            InitAction::Migrate => InitActionView::Migrate,
            InitAction::Publish => InitActionView::Publish,
            InitAction::UseShared => InitActionView::UseShared,
            InitAction::UseNew => InitActionView::UseNew,
            InitAction::Fail(error) => InitActionView::Fail(error@),
            InitAction::Abort { message } => InitActionView::Abort { message: message@ },
        }
    }
}

/// The URL under which the engine knows the database file at `path`.
pub open spec fn database_url(path: Seq<char>) -> Seq<char> {
    "sqlite:"@ + path
}

/// The failure reported for an event that the state was not waiting for.
pub open spec fn out_of_turn() -> (InitStateView, InitActionView) {
    (
        InitStateView::Failed,
        InitActionView::Fail(ServiceErrorView::Configuration("unexpected event during initialization"@)),
    )
}

/// The next state and the next action, where `database_file` is the path of
/// the database file within the directory that the state holds.
pub open spec fn init_next(state: InitStateView, event: InitEventView, database_file: Seq<char>) -> (
    InitStateView,
    InitActionView,
) {
    match state {
        InitStateView::Idle => match event {
            InitEventView::Requested { published } => if published {
                (InitStateView::Ready, InitActionView::UseShared)
            } else {
                (InitStateView::ResolvingDirectory, InitActionView::ResolveDirectory)
            },
            _ => out_of_turn(),
        },
        InitStateView::ResolvingDirectory => match event {
            InitEventView::Directory { path } => (
                InitStateView::CreatingDirectory { directory: path },
                InitActionView::CreateDirectory { directory: path },
            ),
            InitEventView::Failed { detail } => (
                InitStateView::Failed,
                InitActionView::Fail(
                    ServiceErrorView::Configuration("Failed to get app data dir: "@ + detail),
                ),
            ),
            _ => out_of_turn(),
        },
        InitStateView::CreatingDirectory { directory } => match event {
            InitEventView::DirectoryCreated => (
                InitStateView::CheckingFile { url: database_url(database_file) },
                InitActionView::CheckFile { url: database_url(database_file) },
            ),
            InitEventView::Failed { detail } => (
                InitStateView::Failed,
                InitActionView::Fail(
                    ServiceErrorView::Configuration("Failed to create app data dir: "@ + detail),
                ),
            ),
            _ => out_of_turn(),
        },
        InitStateView::CheckingFile { url } => match event {
            InitEventView::FileChecked { exists: Some(true) } => (
                InitStateView::Connecting,
                InitActionView::Connect { url },
            ),
            InitEventView::FileChecked { .. } | InitEventView::Failed { .. } => (
                InitStateView::CreatingFile { url },
                InitActionView::CreateFile { url },
            ),
            _ => out_of_turn(),
        },
        InitStateView::CreatingFile { url } => match event {
            InitEventView::FileCreated => (InitStateView::Connecting, InitActionView::Connect { url }),
            InitEventView::Failed { detail } => (
                InitStateView::Failed,
                InitActionView::Abort { message: "error: "@ + detail },
            ),
            _ => out_of_turn(),
        },
        InitStateView::Connecting => match event {
            InitEventView::Connected => (InitStateView::Migrating, InitActionView::Migrate),
            InitEventView::Failed { detail } => (
                InitStateView::Failed,
                InitActionView::Fail(ServiceErrorView::Engine(detail)),
            ),
            _ => out_of_turn(),
        },
        InitStateView::Migrating => match event {
            InitEventView::Migrated => (InitStateView::Publishing, InitActionView::Publish),
            InitEventView::Failed { detail } => (
                InitStateView::Failed,
                InitActionView::Fail(ServiceErrorView::Configuration(detail)),
            ),
            _ => out_of_turn(),
        },
        InitStateView::Publishing => match event {
            InitEventView::Published { won, shared } => if won {
                (InitStateView::Ready, InitActionView::UseNew)
            } else if shared {
                (InitStateView::Ready, InitActionView::UseShared)
            } else {
                (
                    InitStateView::Failed,
                    InitActionView::Fail(ServiceErrorView::Configuration("Failed to set database pool"@)),
                )
            },
            _ => out_of_turn(),
        },
        InitStateView::Ready => out_of_turn(),
        InitStateView::Failed => out_of_turn(),
    }
}

/// The name of the database file within the data directory.
pub fn database_file_name() -> (name: &'static str)
    ensures
        name@ == "app_database.db"@,
{
    "app_database.db"
}

/// The state that an initialization reaches from `state` through the events.
pub open spec fn init_state_after(
    state: InitStateView,
    events: Seq<InitEventView>,
    database_file: Seq<char>,
) -> InitStateView
    decreases events.len(),
{
    if events.len() == 0 {
        state
    } else {
        init_next(init_state_after(state, events.drop_last(), database_file), events.last(), database_file).0
    }
}

/// The action that answers the event at `turn` of an initialization that
/// began in `state`.
pub open spec fn init_action_at(
    state: InitStateView,
    events: Seq<InitEventView>,
    database_file: Seq<char>,
    turn: int,
) -> InitActionView {
    init_next(init_state_after(state, events.take(turn), database_file), events[turn], database_file).1
}

impl InitActionView {
    /// Whether the action is a step of the set-up, and `other` the same step.
    pub open spec fn same_step(self, other: InitActionView) -> bool {
        ||| self is ResolveDirectory && other is ResolveDirectory
        ||| self is CreateDirectory && other is CreateDirectory
        ||| self is CheckFile && other is CheckFile
        ||| self is CreateFile && other is CreateFile
        ||| self is Connect && other is Connect
        ||| self is Migrate && other is Migrate
        ||| self is Publish && other is Publish
    }
}

/// The path that `std::path::Path::join` makes of a directory and a file name
/// on the platform that the library is built for, read as text.
pub uninterp spec fn joined_path(directory: Seq<char>, file: Seq<char>) -> Seq<char>;

/// The path of the database file that belongs to the state: the file of the
/// fixed name within the directory that is being created, and nothing in any
/// other state.
pub open spec fn database_file_of(state: InitStateView) -> Seq<char> {
    match state {
        InitStateView::CreatingDirectory { directory } => joined_path(directory, "app_database.db"@),
        _ => Seq::empty(),
    }
}

/// `std::path::Path::join`, the result read as text with
/// `Path::to_string_lossy`. The join looks at the two texts alone; where it
/// puts a separator is the platform's matter, so the contract only names the
/// result.
#[verifier::external_body]
fn join_path(directory: &str, file: &str) -> (joined: String)
    ensures
        joined@ == joined_path(directory@, file@),
{
    std::path::Path::new(directory).join(file).to_string_lossy().into_owned()
}

fn prefixed(prefix: &str, detail: &str) -> (text: String)
    ensures
        text@ == prefix@ + detail@,
{
    let mut text = prefix.to_owned();
    text.append(detail);
    text
}

fn refuse() -> (turn: (InitState, InitAction))
    ensures
        (turn.0@, turn.1@) == out_of_turn(),
{
    (
        InitState::Failed,
        InitAction::Fail(ServiceError::Configuration("unexpected event during initialization".to_owned())),
    )
}

/// Answers a caller that asks for the pool: the pool in place if there is
/// one, else the first step of an initialization.
pub fn get_database(published: bool) -> (turn: (InitState, InitAction))
    ensures
        published ==> turn.0@ == InitStateView::Ready && turn.1@ == InitActionView::UseShared,
        !published ==> turn.0@ == InitStateView::ResolvingDirectory && turn.1@
            == InitActionView::ResolveDirectory,
{
    if published {
        (InitState::Ready, InitAction::UseShared)
    } else {
        (InitState::ResolvingDirectory, InitAction::ResolveDirectory)
    }
}

/// Decides the next step of the initialization. Where the data directory has
/// just been created, the database file is placed in it under its fixed name;
/// in every other turn the decision depends on the state and the event alone.
pub fn init_database(state: InitState, event: InitEvent) -> (turn: (InitState, InitAction))
    ensures
        (turn.0@, turn.1@) == init_next(state@, event@, database_file_of(state@)),
{
    let database_file = match &state {
        InitState::CreatingDirectory { directory } => join_path(directory.as_str(), database_file_name()),
        _ => String::new(),
    };
    init_database_in(state, event, database_file.as_str())
}

/// Decides the next step of the initialization, given the path of the database
/// file within the data directory.
pub fn init_database_in(state: InitState, event: InitEvent, database_file: &str) -> (turn: (
    InitState,
    InitAction,
))
    ensures
        (turn.0@, turn.1@) == init_next(state@, event@, database_file@),
{
    match state {
        InitState::Idle => match event {
            InitEvent::Requested { published } => get_database(published),
            _ => refuse(),
        },
        InitState::ResolvingDirectory => match event {
            InitEvent::Directory { path } => {
                let directory = path.clone();
                (InitState::CreatingDirectory { directory }, InitAction::CreateDirectory { directory: path })
            },
            InitEvent::Failed { detail } => (
                InitState::Failed,
                InitAction::Fail(ServiceError::Configuration(prefixed("Failed to get app data dir: ", detail.as_str()))),
            ),
            _ => refuse(),
        },
        InitState::CreatingDirectory { directory } => match event {
            InitEvent::DirectoryCreated => {
                let url = prefixed("sqlite:", database_file);
                (InitState::CheckingFile { url: url.clone() }, InitAction::CheckFile { url })
            },
            InitEvent::Failed { detail } => (
                InitState::Failed,
                InitAction::Fail(
                    ServiceError::Configuration(prefixed("Failed to create app data dir: ", detail.as_str())),
                ),
            ),
            _ => refuse(),
        },
        InitState::CheckingFile { url } => match event {
            InitEvent::FileChecked { exists: Some(true) } => (InitState::Connecting, InitAction::Connect { url }),
            InitEvent::FileChecked { .. } | InitEvent::Failed { .. } => (
                InitState::CreatingFile { url: url.clone() },
                InitAction::CreateFile { url },
            ),
            _ => refuse(),
        },
        InitState::CreatingFile { url } => match event {
            InitEvent::FileCreated => (InitState::Connecting, InitAction::Connect { url }),
            InitEvent::Failed { detail } => (
                InitState::Failed,
                InitAction::Abort { message: prefixed("error: ", detail.as_str()) },
            ),
            _ => refuse(),
        },
        InitState::Connecting => match event {
            InitEvent::Connected => (InitState::Migrating, InitAction::Migrate),
            InitEvent::Failed { detail } => (InitState::Failed, InitAction::Fail(ServiceError::Engine(detail))),
            _ => refuse(),
        },
        InitState::Migrating => match event {
            InitEvent::Migrated => (InitState::Publishing, InitAction::Publish),
            InitEvent::Failed { detail } => (
                InitState::Failed,
                InitAction::Fail(ServiceError::Configuration(detail)),
            ),
            _ => refuse(),
        },
        InitState::Publishing => match event {
            InitEvent::Published { won, shared } => if won {
                (InitState::Ready, InitAction::UseNew)
            } else if shared {
                (InitState::Ready, InitAction::UseShared)
            } else {
                (
                    InitState::Failed,
                    InitAction::Fail(ServiceError::Configuration("Failed to set database pool".to_owned())),
                )
            },
            _ => refuse(),
        },
        InitState::Ready => refuse(),
        InitState::Failed => refuse(),
    }
}

} // verus!
