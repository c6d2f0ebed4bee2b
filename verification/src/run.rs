//! Starting the service: what is done in which order, and why it declines to start.

use vstd::prelude::*;
use vstd::string::*;

use crate::paths;
use crate::paths::Paths;
use crate::transport::Platform;

verus! {

broadcast use vstd::string::group_string_axioms;

/// How long to wait before the IPC server is bound anew when it stopped, in seconds. A
/// service nobody can reach is worse than a dead one, so it is bound until it holds.
pub const REBIND_AFTER_SECS: u64 = 1;

pub struct Config {
    /// Override the data directory. `None` uses the per-user default.
    pub data_dir: Option<Vec<u8>>,
}

impl Default for Config {
    fn default() -> (r: Self)
        ensures
            r.data_dir is None,
    {
        Config { data_dir: None }
    }
}

/// Why the service declined to start. A host distinguishes these: `AlreadyRunning`
/// means a working service owns this data dir, so the caller should step aside (the
/// macOS helper exits), while `Failed` is a real fault worth surfacing.
#[derive(Debug, PartialEq, Eq)]
pub enum StartError {
    AlreadyRunning,
    Failed(String),
}

impl StartError {
    /// What the error says.
    pub open spec fn text(self) -> Seq<char> {
        match self {
            StartError::AlreadyRunning => "another Pendrake service instance is already running"@,
            StartError::Failed(e) => e@,
        }
    }

    /// What the error says.
    pub fn message(&self) -> (r: String)
        ensures
            r@ == self.text(),
    {
        match self {
            StartError::AlreadyRunning => {
                "another Pendrake service instance is already running".to_string()
            },
            StartError::Failed(e) => e.clone(),
        }
    }
}

/// What starting the service does, one after the other.
#[derive(Debug, Clone, Copy, PartialEq, Eq, Structural)]
pub enum Stage {
    /// Create the directories.
    CreateDirs,
    /// Open the lock file.
    OpenLock,
    /// Take the lock, which one instance at a time can hold.
    TakeLock,
    /// Start the runtime.
    StartRuntime,
    /// Load the service.
    LoadService,
    /// The service is up.
    Up,
}

impl Stage {
    /// The stage after this one.
    pub open spec fn next(self) -> Stage {
        match self {
            Stage::CreateDirs => Stage::OpenLock,
            Stage::OpenLock => Stage::TakeLock,
            Stage::TakeLock => Stage::StartRuntime,
            Stage::StartRuntime => Stage::LoadService,
            Stage::LoadService => Stage::Up,
            Stage::Up => Stage::Up,
        }
    }

    /// What came of a stage: the next one, or why the service declines to start. Only a
    /// lock that is held by another instance says that the service is already running.
    pub fn advance(self, outcome: Result<(), String>) -> (r: Result<Stage, StartError>)
        ensures
            match outcome {
                Ok(()) => r == Ok::<Stage, StartError>(self.next()),
                Err(e) => r == Err::<Stage, StartError>(
                    if self == Stage::TakeLock {
                        StartError::AlreadyRunning
                    } else {
                        StartError::Failed(e)
                    },
                ),
            },
    {
        match outcome {
            Ok(()) => Ok(
                match self {
                    Stage::CreateDirs => Stage::OpenLock,
                    Stage::OpenLock => Stage::TakeLock,
                    Stage::TakeLock => Stage::StartRuntime,
                    Stage::StartRuntime => Stage::LoadService,
                    Stage::LoadService => Stage::Up,
                    Stage::Up => Stage::Up,
                },
            ),
            Err(e) => {
                if self == Stage::TakeLock {
                    Err(StartError::AlreadyRunning)
                } else {
                    Err(StartError::Failed(e))
                }
            },
        }
    }
}

/// The stages from one on, that many times.
pub open spec fn stage_after(stage: Stage, steps: nat) -> Stage
    decreases steps,
{
    if steps == 0 {
        stage
    } else {
        stage_after(stage, (steps - 1) as nat).next()
    }
}

/// The service comes up only once every stage before has succeeded, the lock among them.
pub proof fn no_service_without_the_lock(steps: nat)
    ensures
        stage_after(Stage::CreateDirs, steps) == Stage::Up <==> steps >= 5,
        stage_after(Stage::CreateDirs, 2) == Stage::TakeLock,
    decreases steps,
{
    reveal_with_fuel(stage_after, 7);
    if steps > 6 {
        no_service_without_the_lock((steps - 1) as nat);
    }
}

/// Where the service keeps its data: in the directory that the host names, else in the
/// override, else in the per-user data directory.
pub fn start_paths(
    platform: Platform,
    config: Config,
    data_dir_override: Option<Vec<u8>>,
    data_dir: Option<Vec<u8>>,
) -> (r: Result<Paths, StartError>)
    ensures
        ({
            let root = match config.data_dir {
                Some(dir) => Some(dir@),
                None => paths::data_root(
                    platform,
                    paths::bytes_view(data_dir_override),
                    paths::bytes_view(data_dir),
                ),
            };
            match root {
                Some(root) => r is Ok && r->Ok_0@ == paths::Layout::rooted(
                    platform,
                    root,
                ),
                None => r is Err && r->Err_0 is Failed && r->Err_0.text()
                    == "could not determine OS data directory"@,
            }
        }),
{
    match config.data_dir {
        Some(dir) => Ok(Paths::with_root(platform, dir)),
        None => match Paths::resolve(platform, data_dir_override, data_dir) {
            Ok(paths) => Ok(paths),
            Err(e) => Err(StartError::Failed(e)),
        },
    }
}

/// The file whose lock keeps a second instance from serving the same wallet.
pub fn lock_file(paths: &Paths) -> (r: Vec<u8>)
    ensures
        r@ == paths.platform.within(paths.root@, "daemon.lock"@),
{
    paths.platform.join(&paths.root, "daemon.lock")
}

/// The service starts in one order: its directories, the lock file, the lock, the runtime,
/// the wallet; and it says why it did not.
pub proof fn the_start_goes_by_its_stages(failure: String)
    ensures
        Stage::CreateDirs.next() == Stage::OpenLock,
        Stage::OpenLock.next() == Stage::TakeLock,
        Stage::TakeLock.next() == Stage::StartRuntime,
        Stage::StartRuntime.next() == Stage::LoadService,
        Stage::LoadService.next() == Stage::Up,
        Stage::Up.next() == Stage::Up,
        StartError::Failed(failure).text() == failure@,
        StartError::AlreadyRunning.text() == "another Pendrake service instance is already running"@,
{
}

/// The service keeps its data where the host says, else where the override does; only a
/// lock that another instance holds says that the service is running already.
pub proof fn the_start_goes_as_it_should(
    platform: Platform,
    config: Config,
    data_dir_override: Option<Vec<u8>>,
    data_dir: Option<Vec<u8>>,
    r: Result<Paths, StartError>,
    stage: Stage,
    outcome: Result<(), String>,
    next: Result<Stage, StartError>,
    paths: Paths,
    lock: Vec<u8>,
)
    requires
        call_ensures(start_paths, (platform, config, data_dir_override, data_dir), r),
        call_ensures(Stage::advance, (stage, outcome), next),
        call_ensures(lock_file, (&paths,), lock),
    ensures
        config.data_dir matches Some(dir) ==> r is Ok && r->Ok_0.root@ == dir@,
        config.data_dir is None ==> (data_dir_override matches Some(dir) ==> r is Ok
            && r->Ok_0.root@ == dir@),
        config.data_dir is None && data_dir_override is None && data_dir is None ==> r is Err,
        outcome is Ok ==> next == Ok::<Stage, StartError>(stage.next()),
        outcome is Err ==> next is Err && (next->Err_0 is AlreadyRunning <==> stage is TakeLock),
        outcome matches Err(e) ==> (!(stage is TakeLock) ==> next->Err_0 == StartError::Failed(e)),
        lock@ == paths.platform.within(paths.root@, "daemon.lock"@),
{
    if let Ok(p) = r {
        paths::paths_are_what_they_hold(p);
    }
}

} // verus!
