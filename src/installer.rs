use vstd::prelude::*;
use crate::paths::{
    cache_dir_of, cache_directory, file_in, file_path, join_path, joined, sanitize_working_dir,
    sanitized_dir,
};
use crate::platform::{
    archive_format, archive_format_of, asset_file_name, binary_file_name, binary_file_name_of,
    expected_asset_name, ArchiveFormat, Platform,
};
use crate::release::{find_asset, first_named, has_named, Command, LaunchError, Release};

verus! {

/// The tool to install: its name, which names its archives, executable and
/// cache directories, and the `owner/repo` project that publishes it.
pub struct ToolConfig {
    pub tool: String,
    pub repo: String,
}

/// The step of the pipeline that an installer waits on.
#[derive(Clone, Copy, Debug, PartialEq, Eq, Structural)]
pub enum Stage {
    AwaitRelease,
    AwaitDirectory,
    AwaitAssetCheck,
    AwaitWorkingDir,
    AwaitDownload,
    AwaitExecutable,
    AwaitListing,
    AwaitEviction,
    AwaitRollback,
    Finished,
}

/// What the host reports after performing an [`Action`].
pub enum Event {
    /// The latest qualifying release, or why the lookup failed.
    ReleaseFetched(Result<Release, String>),
    /// Whether the cache directory could be created.
    DirectoryCreated(Result<(), String>),
    /// Whether the asset path already exists on disk.
    AssetChecked(bool),
    /// The absolute working directory as text, or why it is not available.
    WorkingDirResolved(Result<String, String>),
    /// Whether the archive was downloaded and unpacked.
    Downloaded(Result<(), String>),
    /// Whether the executable was marked executable.
    MadeExecutable(Result<(), String>),
    /// The names of the working directory's top-level entries.
    DirectoryListed(Result<Vec<String>, String>),
    /// The stale entries were removed, as far as that was possible.
    EntriesRemoved,
    /// The asset path of a failed install was removed, as far as that was
    /// possible.
    AssetRemoved,
}

/// What the installer asks the host to do next.
pub enum Action {
    /// Look up the latest release of `repo` under the given filters.
    FetchRelease { repo: String, pre_release: bool, require_assets: bool },
    /// Create the directory `path` and its parents.
    CreateDirectory { path: String },
    /// Report whether `path` exists.
    CheckAsset { path: String },
    /// Report the absolute working directory.
    ResolveWorkingDir,
    /// Download `url` into `path`, unpacking an archive of `format`.
    Download { url: String, path: String, format: ArchiveFormat },
    /// Mark the file at `path` executable.
    MakeExecutable { path: String },
    /// List the top-level entries of the directory `path`.
    ListDirectory { path: String },
    /// Remove the file or directory `path` of a failed install, ignoring
    /// failures, so that a later run downloads the asset again.
    RemoveAsset { path: String },
    /// Remove the named entries of the working directory, ignoring failures.
    RemoveEntries { names: Vec<String> },
    /// The pipeline is over, with its command or its error.
    Finish(Result<Command, LaunchError>),
}

/// The state of an [`Installer`].
pub struct InstallerView {
    pub tool: Seq<char>,
    pub repo: Seq<char>,
    pub platform: Platform,
    pub stage: Stage,
    pub version: Seq<char>,
    pub directory: Seq<char>,
    pub asset_name: Seq<char>,
    pub download_url: Seq<char>,
    pub asset_present: bool,
    pub working_dir: Seq<char>,
    pub command: Seq<char>,
    /// The error a failed install ends with once its asset path is removed.
    pub failure: Option<LaunchError>,
}

/// The absolute path of the executable inside the cache.
pub open spec fn command_path_of(
    working_dir: Seq<char>,
    directory: Seq<char>,
    asset_name: Seq<char>,
    binary: Seq<char>,
) -> Seq<char> {
    joined(joined(joined(working_dir, directory), asset_name), binary)
}

/// The names held by a list of strings.
pub open spec fn names_of(v: Seq<String>) -> Seq<Seq<char>> {
    v.map_values(|e: String| e@)
}

/// Holds of every name but `keep`.
pub open spec fn other_than(keep: Seq<char>) -> spec_fn(Seq<char>) -> bool {
    |n: Seq<char>| n != keep
}

/// The entries of a listing that are not the directory to keep, in order.
pub open spec fn stale_names(entries: Seq<String>, keep: Seq<char>) -> Seq<Seq<char>> {
    names_of(entries).filter(other_than(keep))
}

/// The event that a stage waits on.
pub open spec fn stage_accepts(stage: Stage, e: Event) -> bool {
    match e {
        Event::ReleaseFetched(_) => stage == Stage::AwaitRelease,
        Event::DirectoryCreated(_) => stage == Stage::AwaitDirectory,
        Event::AssetChecked(_) => stage == Stage::AwaitAssetCheck,
        Event::WorkingDirResolved(_) => stage == Stage::AwaitWorkingDir,
        Event::Downloaded(_) => stage == Stage::AwaitDownload,
        Event::MadeExecutable(_) => stage == Stage::AwaitExecutable,
        Event::DirectoryListed(_) => stage == Stage::AwaitListing,
        Event::EntriesRemoved => stage == Stage::AwaitEviction,
        Event::AssetRemoved => stage == Stage::AwaitRollback,
    }
}

/// The stages after the asset check that still have work ahead.
pub open spec fn after_check(stage: Stage) -> bool {
    ||| stage == Stage::AwaitWorkingDir
    ||| stage == Stage::AwaitDownload
    ||| stage == Stage::AwaitExecutable
    ||| stage == Stage::AwaitListing
    ||| stage == Stage::AwaitEviction
}

impl InstallerView {
    /// The same state, moved to `stage`.
    pub open spec fn at(self, stage: Stage) -> InstallerView {
        InstallerView { stage, ..self }
    }

    /// The executable's file name on this installer's platform.
    pub open spec fn binary(self) -> Seq<char> {
        binary_file_name_of(self.tool, self.platform.os)
    }

    /// The path the archive is unpacked to: `<directory>/<asset name>`.
    pub open spec fn asset_path(self) -> Seq<char> {
        file_in(self.directory, self.asset_name)
    }

    /// The executable inside the unpacked archive.
    pub open spec fn binary_path(self) -> Seq<char> {
        file_in(self.asset_path(), self.binary())
    }

    /// Once a release is chosen, the asset name and cache directory are the
    /// ones its platform and version call for; a present asset is never
    /// downloaded; once the working directory is known, the command is the
    /// executable's path under it.
    pub open spec fn wf(self) -> bool {
        &&& (self.stage != Stage::AwaitRelease && self.stage != Stage::Finished) ==> {
            &&& self.asset_name == asset_file_name(self.tool, self.platform)
            &&& self.directory == cache_dir_of(self.tool, self.version)
        }
        &&& (self.stage == Stage::AwaitDownload || self.stage == Stage::AwaitExecutable
            || self.stage == Stage::AwaitRollback) ==> !self.asset_present
        &&& (self.failure is Some <==> self.stage == Stage::AwaitRollback)
        &&& (after_check(self.stage) && self.stage != Stage::AwaitWorkingDir) ==> self.command
            == command_path_of(self.working_dir, self.directory, self.asset_name, self.binary())
    }
}

/// The installer in state `s`, given event `e`, moves to state `t` and asks
/// for action `a`.
pub open spec fn stepped(s: InstallerView, e: Event, t: InstallerView, a: Action) -> bool {
    match e {
        Event::ReleaseFetched(Err(m)) => {
            &&& t == s.at(Stage::Finished)
            &&& a == Action::Finish(Err(LaunchError::ReleaseFetch { message: m }))
        },
        Event::ReleaseFetched(Ok(r)) => {
            let name = asset_file_name(s.tool, s.platform);
            if has_named(r.assets@, name) {
                &&& exists|i: int|
                    first_named(r.assets@, name, i) && t.download_url
                        == r.assets@[i].download_url@
                &&& t == InstallerView {
                    stage: Stage::AwaitDirectory,
                    version: r.version@,
                    directory: cache_dir_of(s.tool, r.version@),
                    asset_name: name,
                    download_url: t.download_url,
                    ..s
                }
                &&& match a {
                    Action::CreateDirectory { path } => path@ == t.directory,
                    _ => false,
                }
            } else {
                &&& t == s.at(Stage::Finished)
                &&& match a {
                    Action::Finish(Err(LaunchError::AssetNotFound { expected, assets })) => {
                        expected@ == name && assets == r.assets
                    },
                    _ => false,
                }
            }
        },
        Event::DirectoryCreated(Err(m)) => {
            &&& t == s.at(Stage::Finished)
            &&& match a {
                Action::Finish(Err(LaunchError::DirectoryCreate { directory, message })) => {
                    directory@ == s.directory && message == m
                },
                _ => false,
            }
        },
        Event::DirectoryCreated(Ok(_)) => {
            &&& t == s.at(Stage::AwaitAssetCheck)
            &&& match a {
                Action::CheckAsset { path } => path@ == s.asset_path(),
                _ => false,
            }
        },
        Event::AssetChecked(present) => {
            &&& t == InstallerView { stage: Stage::AwaitWorkingDir, asset_present: present, ..s }
            &&& a == Action::ResolveWorkingDir
        },
        Event::WorkingDirResolved(Err(m)) => {
            &&& t == s.at(Stage::Finished)
            &&& a == Action::Finish(Err(LaunchError::PathConversion { message: m }))
        },
        Event::WorkingDirResolved(Ok(d)) => {
            let w = sanitized_dir(s.platform.os, d@);
            let c = command_path_of(w, s.directory, s.asset_name, s.binary());
            if s.asset_present {
                &&& t == InstallerView {
                    stage: Stage::AwaitListing,
                    working_dir: w,
                    command: c,
                    ..s
                }
                &&& match a {
                    Action::ListDirectory { path } => path@ == w,
                    _ => false,
                }
            } else {
                &&& t == InstallerView {
                    stage: Stage::AwaitDownload,
                    working_dir: w,
                    command: c,
                    ..s
                }
                &&& match a {
                    Action::Download { url, path, format } => {
                        &&& url@ == s.download_url
                        &&& path@ == s.asset_path()
                        &&& format == archive_format_of(s.platform.os)
                    },
                    _ => false,
                }
            }
        },
        Event::Downloaded(Err(m)) => {
            &&& t == InstallerView {
                stage: Stage::AwaitRollback,
                failure: Some(LaunchError::Download { message: m }),
                ..s
            }
            &&& match a {
                Action::RemoveAsset { path } => path@ == s.asset_path(),
                _ => false,
            }
        },
        Event::Downloaded(Ok(_)) => {
            &&& t == s.at(Stage::AwaitExecutable)
            &&& match a {
                Action::MakeExecutable { path } => path@ == s.binary_path(),
                _ => false,
            }
        },
        Event::MadeExecutable(Err(m)) => {
            &&& t == InstallerView {
                stage: Stage::AwaitRollback,
                failure: Some(LaunchError::ExecutableFlag { message: m }),
                ..s
            }
            &&& match a {
                Action::RemoveAsset { path } => path@ == s.asset_path(),
                _ => false,
            }
        },
        Event::AssetRemoved => {
            &&& t == InstallerView { stage: Stage::Finished, failure: None, ..s }
            &&& a == Action::Finish(Err(s.failure->Some_0))
        },
        Event::MadeExecutable(Ok(_)) => {
            &&& t == s.at(Stage::AwaitListing)
            &&& match a {
                Action::ListDirectory { path } => path@ == s.working_dir,
                _ => false,
            }
        },
        Event::DirectoryListed(Err(m)) => {
            &&& t == s.at(Stage::Finished)
            &&& a == Action::Finish(Err(LaunchError::DirectoryList { message: m }))
        },
        Event::DirectoryListed(Ok(entries)) => {
            &&& t == s.at(Stage::AwaitEviction)
            &&& match a {
                Action::RemoveEntries { names } => names_of(names@) == stale_names(
                    entries@,
                    s.directory,
                ),
                _ => false,
            }
        },
        Event::EntriesRemoved => {
            &&& t == s.at(Stage::Finished)
            &&& match a {
                Action::Finish(Ok(c)) => {
                    &&& c.command@ == s.command
                    &&& c.args@.len() == 0
                    &&& c.env@.len() == 0
                },
                _ => false,
            }
        },
    }
}

/// Drives the install pipeline one event at a time: each call to
/// [`Installer::step`] takes what the host observed and returns the next
/// piece of work for it.
pub struct Installer {
    tool: String,
    repo: String,
    platform: Platform,
    stage: Stage,
    version: String,
    directory: String,
    asset_name: String,
    download_url: String,
    asset_present: bool,
    working_dir: String,
    command: String,
    failure: Option<LaunchError>,
}

impl View for Installer {
    type V = InstallerView;

    closed spec fn view(&self) -> InstallerView {
        InstallerView {
            tool: self.tool@,
            repo: self.repo@,
            platform: self.platform,
            stage: self.stage,
            version: self.version@,
            directory: self.directory@,
            asset_name: self.asset_name@,
            download_url: self.download_url@,
            asset_present: self.asset_present,
            working_dir: self.working_dir@,
            command: self.command@,
            failure: self.failure,
        }
    }
}

/// The entries of a directory listing other than `keep`, in listing order.
pub fn stale_entries(entries: &Vec<String>, keep: &String) -> (r: Vec<String>)
    ensures
        names_of(r@) == stale_names(entries@, keep@),
{
    let ghost p = other_than(keep@);
    let mut out: Vec<String> = Vec::new();
    let mut i: usize = 0;
    while i < entries.len()
        invariant
            i <= entries@.len(),
            p == other_than(keep@),
            names_of(out@) == names_of(entries@.subrange(0, i as int)).filter(p),
        decreases entries@.len() - i,
    {
        let ghost prefix = names_of(entries@.subrange(0, i as int));
        let ghost next = names_of(entries@.subrange(0, i + 1));
        assert(next.drop_last() =~= prefix);
        assert(next.last() == entries@[i as int]@);
        proof {
            reveal(Seq::filter);
        }
        let ghost before = out@;
        if entries[i] != *keep {
            let name = entries[i].clone();
            out.push(name);
            assert(names_of(out@) =~= names_of(before).push(entries@[i as int]@));
        }
        i = i + 1;
    }
    assert(entries@.subrange(0, entries@.len() as int) =~= entries@);
    out
}

impl Installer {
    /// Starts the pipeline for `config` on `platform`; the first action looks
    /// up the latest release that is not a pre-release and has assets.
    pub fn new(config: ToolConfig, platform: Platform) -> (r: (Installer, Action))
        ensures
            r.0@ == (InstallerView {
                tool: config.tool@,
                repo: config.repo@,
                platform,
                stage: Stage::AwaitRelease,
                version: Seq::empty(),
                directory: Seq::empty(),
                asset_name: Seq::empty(),
                download_url: Seq::empty(),
                asset_present: false,
                working_dir: Seq::empty(),
                command: Seq::empty(),
                failure: None,
            }),
            r.0@.wf(),
            match r.1 {
                Action::FetchRelease { repo, pre_release, require_assets } => {
                    repo@ == config.repo@ && !pre_release && require_assets
                },
                _ => false,
            },
    {
        let repo = config.repo.clone();
        let installer = Installer {
            tool: config.tool,
            repo: config.repo,
            platform,
            stage: Stage::AwaitRelease,
            version: String::new(),
            directory: String::new(),
            asset_name: String::new(),
            download_url: String::new(),
            asset_present: false,
            working_dir: String::new(),
            command: String::new(),
            failure: None,
        };
        (installer, Action::FetchRelease { repo, pre_release: false, require_assets: true })
    }

    /// The step the installer waits on.
    pub fn stage(&self) -> (r: Stage)
        ensures
            r == self@.stage,
    {
        self.stage
    }

    /// Whether `event` is the one the installer waits on.
    pub fn accepts(&self, event: &Event) -> (r: bool)
        ensures
            r == stage_accepts(self@.stage, *event),
    {
        match event {
            Event::ReleaseFetched(_) => self.stage == Stage::AwaitRelease,
            Event::DirectoryCreated(_) => self.stage == Stage::AwaitDirectory,
            Event::AssetChecked(_) => self.stage == Stage::AwaitAssetCheck,
            Event::WorkingDirResolved(_) => self.stage == Stage::AwaitWorkingDir,
            Event::Downloaded(_) => self.stage == Stage::AwaitDownload,
            Event::MadeExecutable(_) => self.stage == Stage::AwaitExecutable,
            Event::DirectoryListed(_) => self.stage == Stage::AwaitListing,
            Event::EntriesRemoved => self.stage == Stage::AwaitEviction,
            Event::AssetRemoved => self.stage == Stage::AwaitRollback,
        }
    }

    /// Starts undoing a failed install: the asset path goes before `err` is
    /// reported, so that no partly installed asset stays cached.
    fn roll_back(&mut self, err: LaunchError) -> (a: Action)
        requires
            old(self).failure is None,
        ensures
            final(self)@ == (InstallerView {
                stage: Stage::AwaitRollback,
                failure: Some(err),
                ..old(self)@
            }),
            match a {
                Action::RemoveAsset { path } => path@ == old(self)@.asset_path(),
                _ => false,
            },
    {
        self.failure = Some(err);
        self.stage = Stage::AwaitRollback;
        Action::RemoveAsset { path: file_path(self.directory.as_str(), self.asset_name.as_str()) }
    }

    /// Ends the pipeline with `outcome`.
    fn finish(&mut self, outcome: Result<Command, LaunchError>) -> (a: Action)
        ensures
            final(self)@ == old(self)@.at(Stage::Finished),
            a == Action::Finish(outcome),
    {
        self.stage = Stage::Finished;
        Action::Finish(outcome)
    }

    /// Takes what the host observed for the last action and returns the next
    /// one.
    pub fn step(&mut self, event: Event) -> (a: Action)
        requires
            old(self)@.wf(),
            stage_accepts(old(self)@.stage, event),
        ensures
            final(self)@.wf(),
            stepped(old(self)@, event, final(self)@, a),
    {
        match event {
            Event::ReleaseFetched(Err(m)) => self.finish(Err(LaunchError::ReleaseFetch { message: m })),
            Event::ReleaseFetched(Ok(release)) => {
                let name = expected_asset_name(self.tool.as_str(), self.platform);
                match find_asset(&release.assets, &name) {
                    None => self.finish(
                        Err(LaunchError::AssetNotFound { expected: name, assets: release.assets }),
                    ),
                    Some(i) => {
                        self.download_url = release.assets[i].download_url.clone();
                        self.directory = cache_directory(self.tool.as_str(), release.version.as_str());
                        self.version = release.version;
                        self.asset_name = name;
                        self.stage = Stage::AwaitDirectory;
                        Action::CreateDirectory { path: self.directory.clone() }
                    },
                }
            },
            Event::DirectoryCreated(Err(m)) => {
                let directory = self.directory.clone();
                self.finish(Err(LaunchError::DirectoryCreate { directory, message: m }))
            },
            Event::DirectoryCreated(Ok(_)) => {
                self.stage = Stage::AwaitAssetCheck;
                Action::CheckAsset { path: file_path(self.directory.as_str(), self.asset_name.as_str()) }
            },
            Event::AssetChecked(present) => {
                self.asset_present = present;
                self.stage = Stage::AwaitWorkingDir;
                Action::ResolveWorkingDir
            },
            Event::WorkingDirResolved(Err(m)) => self.finish(Err(LaunchError::PathConversion { message: m })),
            Event::WorkingDirResolved(Ok(dir)) => {
                let working_dir = sanitize_working_dir(self.platform.os, dir.as_str());
                let binary = binary_file_name(self.tool.as_str(), self.platform.os);
                let in_dir = join_path(working_dir.as_str(), self.directory.as_str());
                let in_asset = join_path(in_dir.as_str(), self.asset_name.as_str());
                self.command = join_path(in_asset.as_str(), binary.as_str());
                self.working_dir = working_dir;
                if self.asset_present {
                    self.stage = Stage::AwaitListing;
                    Action::ListDirectory { path: self.working_dir.clone() }
                } else {
                    self.stage = Stage::AwaitDownload;
                    Action::Download {
                        url: self.download_url.clone(),
                        path: file_path(self.directory.as_str(), self.asset_name.as_str()),
                        format: archive_format(self.platform.os),
                    }
                }
            },
            Event::Downloaded(Err(m)) => self.roll_back(LaunchError::Download { message: m }),
            Event::Downloaded(Ok(_)) => {
                let binary = binary_file_name(self.tool.as_str(), self.platform.os);
                let asset_path = file_path(self.directory.as_str(), self.asset_name.as_str());
                self.stage = Stage::AwaitExecutable;
                Action::MakeExecutable { path: file_path(asset_path.as_str(), binary.as_str()) }
            },
            Event::MadeExecutable(Err(m)) => self.roll_back(LaunchError::ExecutableFlag { message: m }),
            Event::AssetRemoved => {
                let failure = self.failure.take();
                match failure {
                    Some(err) => self.finish(Err(err)),
                    None => {
                        proof {
                            assert(false);
                        }
                        self.finish(Err(LaunchError::Download { message: String::new() }))
                    },
                }
            },
            Event::MadeExecutable(Ok(_)) => {
                self.stage = Stage::AwaitListing;
                Action::ListDirectory { path: self.working_dir.clone() }
            },
            Event::DirectoryListed(Err(m)) => self.finish(Err(LaunchError::DirectoryList { message: m })),
            Event::DirectoryListed(Ok(entries)) => {
                self.stage = Stage::AwaitEviction;
                Action::RemoveEntries { names: stale_entries(&entries, &self.directory) }
            },
            Event::EntriesRemoved => {
                let command = Command { command: self.command.clone(), args: Vec::new(), env: Vec::new() };
                self.finish(Ok(command))
            },
        }
    }
}

} // verus!
