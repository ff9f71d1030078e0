//! The shared installer state that tasks read and mutate.
//!
//! Tasks never perform input or output themselves. Everything the outside
//! world has already answered (release listings, downloaded bytes, the
//! process list) sits in an [`Environment`] snapshot, and everything a task
//! wants done to the world (files written, shortcuts created) is recorded as
//! an [`Effect`]; the host performs the effects after an operation and
//! refreshes the environment before the next one.

use vstd::prelude::*;

use crate::config::BaseAttributes;
use crate::config::BaseAttributesView;
use crate::config::Config;
use crate::config::ConfigView;
use crate::config::JWTClaims;
use crate::config::JWTClaimsView;
use crate::native::Process;
use crate::native::ProcessView;
use crate::sources::Release;
use crate::sources::ReleaseView;
use crate::sources::Version;
use crate::strutil::clone_strings;
use crate::strutil::str_eq;
use crate::strutil::views_of;

verus! {

/// The mathematical content of stored credentials.
#[verifier::ext_equal]
pub struct CredentialsView {
    pub username: Seq<char>,
    pub token: Seq<char>,
}

/// Credentials remembered for gated downloads.
#[derive(Debug)]
pub struct Credentials {
    pub username: String,
    pub token: String,
}

impl View for Credentials {
    type V = CredentialsView;

    open spec fn view(&self) -> CredentialsView {
        CredentialsView { username: self.username@, token: self.token@ }
    }
}

impl Credentials {
    /// A copy of these credentials with the same content.
    pub fn duplicate(&self) -> (r: Self)
        ensures
            r@ == self@,
    {
        Credentials { username: self.username.clone(), token: self.token.clone() }
    }
}

/// The mathematical content of a local installation record.
#[verifier::ext_equal]
pub struct LocalInstallationView {
    pub name: Seq<char>,
    pub version: Version,
    pub files: Seq<Seq<char>>,
    pub shortcuts: Seq<Seq<char>>,
}

/// Tracks the state of a locally installed package.
#[derive(Debug)]
pub struct LocalInstallation {
    pub name: String,
    pub version: Version,
    /// Relative paths to generated files and directories, in creation order.
    pub files: Vec<String>,
    /// Absolute paths to generated shortcut files.
    pub shortcuts: Vec<String>,
}

impl View for LocalInstallation {
    type V = LocalInstallationView;

    open spec fn view(&self) -> LocalInstallationView {
        LocalInstallationView {
            name: self.name@,
            version: self.version,
            files: views_of(self.files@),
            shortcuts: views_of(self.shortcuts@),
        }
    }
}

impl LocalInstallation {
    /// A copy of this record with the same content.
    pub fn duplicate(&self) -> (r: Self)
        ensures
            r@ == self@,
    {
        let r = LocalInstallation {
            name: self.name.clone(),
            version: self.version,
            files: clone_strings(&self.files),
            shortcuts: clone_strings(&self.shortcuts),
        };
        proof {
            assert(r@ =~~= self@);
        }
        r
    }
}

/// The mathematical content of the installation database.
#[verifier::ext_equal]
pub struct InstallationDatabaseView {
    pub packages: Seq<LocalInstallationView>,
    pub shortcuts: Seq<Seq<char>>,
    pub credentials: CredentialsView,
}

/// Metadata about the current installation itself.
#[derive(Debug)]
pub struct InstallationDatabase {
    pub packages: Vec<LocalInstallation>,
    pub shortcuts: Vec<String>,
    pub credentials: Credentials,
}

impl View for InstallationDatabase {
    type V = InstallationDatabaseView;

    open spec fn view(&self) -> InstallationDatabaseView {
        InstallationDatabaseView {
            packages: views_of(self.packages@),
            shortcuts: views_of(self.shortcuts@),
            credentials: self.credentials@,
        }
    }
}

impl InstallationDatabase {
    /// Creates a new, empty installation database.
    pub fn new() -> (r: InstallationDatabase)
        ensures
            r@.packages.len() == 0,
            r@.shortcuts.len() == 0,
            r@.credentials.username.len() == 0,
            r@.credentials.token.len() == 0,
    {
        InstallationDatabase {
            packages: Vec::new(),
            shortcuts: Vec::new(),
            credentials: Credentials { username: String::new(), token: String::new() },
        }
    }

    /// A copy of this database with the same content.
    pub fn duplicate(&self) -> (r: Self)
        ensures
            r@ == self@,
    {
        let mut packages: Vec<LocalInstallation> = Vec::new();
        let mut i: usize = 0;
        while i < self.packages.len()
            invariant
                i <= self.packages@.len(),
                packages@.len() == i,
                forall|j: int| 0 <= j < i ==> packages@[j]@ == self.packages@[j]@,
            decreases self.packages@.len() - i,
        {
            packages.push(self.packages[i].duplicate());
            i = i + 1;
        }
        let r = InstallationDatabase {
            packages,
            shortcuts: clone_strings(&self.shortcuts),
            credentials: self.credentials.duplicate(),
        };
        proof {
            assert(r@ =~~= self@);
        }
        r
    }
}

/// The mathematical content of an installation status report.
#[verifier::ext_equal]
pub struct InstallationStatusView {
    pub database: InstallationDatabaseView,
    pub install_path: Option<Seq<char>>,
    pub preexisting_install: bool,
    pub is_launcher: bool,
    pub launcher_path: Option<Seq<char>>,
}

/// Basic properties on the status of the session: the part of the
/// framework a frontend displays.
#[derive(Debug)]
pub struct InstallationStatus {
    pub database: InstallationDatabase,
    pub install_path: Option<String>,
    pub preexisting_install: bool,
    pub is_launcher: bool,
    pub launcher_path: Option<String>,
}

impl View for InstallationStatus {
    type V = InstallationStatusView;

    open spec fn view(&self) -> InstallationStatusView {
        InstallationStatusView {
            database: self.database@,
            install_path: match self.install_path {
                Some(ref s) => Some(s@),
                None => None,
            },
            preexisting_install: self.preexisting_install,
            is_launcher: self.is_launcher,
            launcher_path: match self.launcher_path {
                Some(ref s) => Some(s@),
                None => None,
            },
        }
    }
}

/// The mathematical content of a release listing answer.
#[verifier::ext_equal]
pub struct ReleasesAnswerView {
    pub package: Seq<char>,
    pub result: Result<Seq<ReleaseView>, Seq<char>>,
}

/// What a release source answered for one package.
#[derive(Debug)]
pub struct ReleasesAnswer {
    pub package: String,
    pub result: Result<Vec<Release>, String>,
}

impl View for ReleasesAnswer {
    type V = ReleasesAnswerView;

    open spec fn view(&self) -> ReleasesAnswerView {
        ReleasesAnswerView {
            package: self.package@,
            result: match self.result {
                Ok(ref rs) => Ok(views_of(rs@)),
                Err(ref e) => Err(e@),
            },
        }
    }
}

/// The mathematical content of a download answer.
#[verifier::ext_equal]
pub struct DownloadAnswerView {
    pub url: Seq<char>,
    pub result: Result<Seq<u8>, Seq<char>>,
}

/// What the network answered for one download URL.
#[derive(Debug)]
pub struct DownloadAnswer {
    pub url: String,
    pub result: Result<Vec<u8>, String>,
}

impl View for DownloadAnswer {
    type V = DownloadAnswerView;

    open spec fn view(&self) -> DownloadAnswerView {
        DownloadAnswerView {
            url: self.url@,
            result: match self.result {
                Ok(ref bytes) => Ok(bytes@),
                Err(ref e) => Err(e@),
            },
        }
    }
}

/// The mathematical content of an authentication answer.
#[verifier::ext_equal]
pub struct AuthAnswerView {
    pub result: Result<(Seq<char>, JWTClaimsView), Seq<char>>,
}

/// What the authentication endpoint answered: a bearer token with its
/// validated claims, or the failure reason.
#[derive(Debug)]
pub struct AuthAnswer {
    pub result: Result<(String, JWTClaims), String>,
}

impl View for AuthAnswer {
    type V = AuthAnswerView;

    open spec fn view(&self) -> AuthAnswerView {
        AuthAnswerView {
            result: match self.result {
                Ok((ref tok, ref claims)) => Ok((tok@, claims@)),
                Err(ref e) => Err(e@),
            },
        }
    }
}

/// The mathematical content of an environment snapshot.
#[verifier::ext_equal]
pub struct EnvironmentView {
    pub releases: Seq<ReleasesAnswerView>,
    pub downloads: Seq<DownloadAnswerView>,
    pub auth: Option<AuthAnswerView>,
    pub processes: Seq<ProcessView>,
    pub current_pid: u64,
    pub install_dir_exists: bool,
    pub install_dir_entry_count: u64,
    pub shortcut_dir: Option<Seq<char>>,
    pub os_name: Seq<char>,
    pub is_windows: bool,
}

/// A snapshot of everything the outside world has answered so far.
#[derive(Debug)]
pub struct Environment {
    pub releases: Vec<ReleasesAnswer>,
    pub downloads: Vec<DownloadAnswer>,
    pub auth: Option<AuthAnswer>,
    pub processes: Vec<Process>,
    pub current_pid: u64,
    pub install_dir_exists: bool,
    pub install_dir_entry_count: u64,
    pub shortcut_dir: Option<String>,
    pub os_name: String,
    pub is_windows: bool,
}

impl View for Environment {
    type V = EnvironmentView;

    open spec fn view(&self) -> EnvironmentView {
        EnvironmentView {
            releases: views_of(self.releases@),
            downloads: views_of(self.downloads@),
            auth: match self.auth {
                Some(ref a) => Some(a@),
                None => None,
            },
            processes: views_of(self.processes@),
            current_pid: self.current_pid,
            install_dir_exists: self.install_dir_exists,
            install_dir_entry_count: self.install_dir_entry_count,
            shortcut_dir: match self.shortcut_dir {
                Some(ref s) => Some(s@),
                None => None,
            },
            os_name: self.os_name@,
            is_windows: self.is_windows,
        }
    }
}

impl Environment {
    /// An environment in which the world has answered nothing yet.
    pub fn empty() -> (r: Environment)
        ensures
            r@.releases.len() == 0,
            r@.downloads.len() == 0,
            r@.auth is None,
            r@.processes.len() == 0,
            r@.current_pid == 0,
            r@.install_dir_exists == false,
            r@.install_dir_entry_count == 0,
            r@.shortcut_dir is None,
            r@.os_name =~= "linux"@,
            r@.is_windows == false,
    {
        Environment {
            releases: Vec::new(),
            downloads: Vec::new(),
            auth: None,
            processes: Vec::new(),
            current_pid: 0,
            install_dir_exists: false,
            install_dir_entry_count: 0,
            shortcut_dir: None,
            os_name: String::from_str("linux"),
            is_windows: false,
        }
    }

    /// The first release answer recorded for `package`, if any.
    pub open spec fn spec_find_releases(
        answers: Seq<ReleasesAnswerView>,
        package: Seq<char>,
    ) -> Option<ReleasesAnswerView>
        decreases answers.len(),
    {
        if answers.len() == 0 {
            None
        } else if answers[0].package == package {
            Some(answers[0])
        } else {
            Self::spec_find_releases(answers.drop_first(), package)
        }
    }

    /// Looks up the release answer recorded for `package`.
    pub fn find_releases(&self, package: &str) -> (r: Option<&ReleasesAnswer>)
        ensures
            match r {
                Some(a) => Self::spec_find_releases(self@.releases, package@) == Some(a@),
                None => Self::spec_find_releases(self@.releases, package@) is None,
            },
    {
        let ghost all = views_of(self.releases@);
        let mut i: usize = 0;
        proof {
            assert(all.skip(0) =~= all);
        }
        while i < self.releases.len()
            invariant
                i <= self.releases@.len(),
                all == views_of(self.releases@),
                Self::spec_find_releases(all, package@) == Self::spec_find_releases(
                    all.skip(i as int),
                    package@,
                ),
            decreases self.releases@.len() - i,
        {
            proof {
                assert(all.skip(i as int).drop_first() =~= all.skip(i as int + 1));
                assert(all.skip(i as int)[0] == self.releases@[i as int]@);
            }
            if str_eq(self.releases[i].package.as_str(), package) {
                return Some(&self.releases[i]);
            }
            i = i + 1;
        }
        proof {
            assert(all.skip(i as int).len() == 0);
        }
        None
    }

    /// The first download answer recorded for `url`, if any.
    pub open spec fn spec_find_download(
        answers: Seq<DownloadAnswerView>,
        url: Seq<char>,
    ) -> Option<DownloadAnswerView>
        decreases answers.len(),
    {
        if answers.len() == 0 {
            None
        } else if answers[0].url == url {
            Some(answers[0])
        } else {
            Self::spec_find_download(answers.drop_first(), url)
        }
    }

    /// Looks up the download answer recorded for `url`.
    pub fn find_download(&self, url: &str) -> (r: Option<&DownloadAnswer>)
        ensures
            match r {
                Some(a) => Self::spec_find_download(self@.downloads, url@) == Some(a@),
                None => Self::spec_find_download(self@.downloads, url@) is None,
            },
    {
        let ghost all = views_of(self.downloads@);
        let mut i: usize = 0;
        proof {
            assert(all.skip(0) =~= all);
        }
        while i < self.downloads.len()
            invariant
                i <= self.downloads@.len(),
                all == views_of(self.downloads@),
                Self::spec_find_download(all, url@) == Self::spec_find_download(
                    all.skip(i as int),
                    url@,
                ),
            decreases self.downloads@.len() - i,
        {
            proof {
                assert(all.skip(i as int).drop_first() =~= all.skip(i as int + 1));
                assert(all.skip(i as int)[0] == self.downloads@[i as int]@);
            }
            if str_eq(self.downloads[i].url.as_str(), url) {
                return Some(&self.downloads[i]);
            }
            i = i + 1;
        }
        proof {
            assert(all.skip(i as int).len() == 0);
        }
        None
    }
}

/// The mathematical content of a requested world effect.
#[verifier::ext_equal]
pub enum EffectView {
    CreateDirAll(Seq<char>),
    WriteFile { path: Seq<char>, data: Seq<u8> },
    DeleteFile(Seq<char>),
    DeleteDir(Seq<char>),
    CreateShortcut {
        path: Seq<char>,
        name: Seq<char>,
        description: Seq<char>,
        target: Seq<char>,
        args: Seq<char>,
        working_dir: Seq<char>,
        exe_path: Seq<char>,
    },
    SaveDatabase(InstallationDatabaseView),
    CopyCurrentExe(Seq<char>),
    ClearDirectory { path: Seq<char>, keep_maintenance_tool: bool },
    Marker(Seq<char>),
}

/// A request that the host change the world on the installer's behalf,
/// recorded in the order the requests were made.
#[derive(Debug)]
pub enum Effect {
    /// Create a directory and any missing parents.
    CreateDirAll(String),
    /// Write a file with restrictive permissions, failing if it exists.
    WriteFile { path: String, data: Vec<u8> },
    /// Delete a single file, tolerating failure.
    DeleteFile(String),
    /// Delete a single, by then empty, directory, tolerating failure.
    DeleteDir(String),
    /// Build a platform shortcut artifact at `path`.
    CreateShortcut {
        path: String,
        name: String,
        description: String,
        target: String,
        args: String,
        working_dir: String,
        exe_path: String,
    },
    /// Persist this snapshot of the installation database.
    SaveDatabase(InstallationDatabase),
    /// Copy the running installer binary to `path`.
    CopyCurrentExe(String),
    /// Empty the install directory, keeping the maintenance tool if asked.
    ClearDirectory { path: String, keep_maintenance_tool: bool },
    /// No world change: a marker recording that a scripted task ran.
    Marker(String),
}

impl View for Effect {
    type V = EffectView;

    open spec fn view(&self) -> EffectView {
        match self {
            Effect::CreateDirAll(p) => EffectView::CreateDirAll(p@),
            Effect::WriteFile { path, data } => EffectView::WriteFile {
                path: path@,
                data: data@,
            },
            Effect::DeleteFile(p) => EffectView::DeleteFile(p@),
            Effect::DeleteDir(p) => EffectView::DeleteDir(p@),
            Effect::CreateShortcut { path, name, description, target, args, working_dir, exe_path } => EffectView::CreateShortcut {
                path: path@,
                name: name@,
                description: description@,
                target: target@,
                args: args@,
                working_dir: working_dir@,
                exe_path: exe_path@,
            },
            Effect::SaveDatabase(db) => EffectView::SaveDatabase(db@),
            Effect::CopyCurrentExe(p) => EffectView::CopyCurrentExe(p@),
            Effect::ClearDirectory { path, keep_maintenance_tool } => EffectView::ClearDirectory {
                path: path@,
                keep_maintenance_tool: *keep_maintenance_tool,
            },
            Effect::Marker(s) => EffectView::Marker(s@),
        }
    }
}

/// The mathematical content of the installer framework.
#[verifier::ext_equal]
pub struct InstallerFrameworkView {
    pub base_attributes: BaseAttributesView,
    pub config: Option<ConfigView>,
    pub database: InstallationDatabaseView,
    pub install_path: Option<Seq<char>>,
    pub preexisting_install: bool,
    pub is_launcher: bool,
    pub burn_after_exit: bool,
    pub launcher_path: Option<Seq<char>>,
    pub env: EnvironmentView,
    pub effects: Seq<EffectView>,
}

/// The installer framework: metadata about packages, what is installed, and
/// the boundary to the outside world.
#[derive(Debug)]
pub struct InstallerFramework {
    pub base_attributes: BaseAttributes,
    pub config: Option<Config>,
    pub database: InstallationDatabase,
    pub install_path: Option<String>,
    pub preexisting_install: bool,
    pub is_launcher: bool,
    pub burn_after_exit: bool,
    pub launcher_path: Option<String>,
    pub env: Environment,
    pub effects: Vec<Effect>,
}

impl View for InstallerFramework {
    type V = InstallerFrameworkView;

    open spec fn view(&self) -> InstallerFrameworkView {
        InstallerFrameworkView {
            base_attributes: self.base_attributes@,
            config: match self.config {
                Some(ref c) => Some(c@),
                None => None,
            },
            database: self.database@,
            install_path: match self.install_path {
                Some(ref s) => Some(s@),
                None => None,
            },
            preexisting_install: self.preexisting_install,
            is_launcher: self.is_launcher,
            burn_after_exit: self.burn_after_exit,
            launcher_path: match self.launcher_path {
                Some(ref s) => Some(s@),
                None => None,
            },
            env: self.env@,
            effects: views_of(self.effects@),
        }
    }
}

/// The view of a framework after one more effect has been recorded.
pub open spec fn spec_with_effect(v: InstallerFrameworkView, e: EffectView)
    -> InstallerFrameworkView {
    InstallerFrameworkView { effects: v.effects.push(e), ..v }
}

impl InstallerFramework {
    /// Creates a new instance of the installer framework from its base
    /// attributes, with nothing installed and no configuration loaded.
    pub fn new(attrs: BaseAttributes) -> (r: Self)
        ensures
            r@.base_attributes == attrs@,
            r@.config is None,
            r@.database.packages.len() == 0,
            r@.database.shortcuts.len() == 0,
            r@.install_path is None,
            r@.preexisting_install == false,
            r@.is_launcher == false,
            r@.burn_after_exit == false,
            r@.launcher_path is None,
            r@.effects.len() == 0,
    {
        InstallerFramework {
            base_attributes: attrs,
            config: None,
            database: InstallationDatabase::new(),
            install_path: None,
            preexisting_install: false,
            is_launcher: false,
            burn_after_exit: false,
            launcher_path: None,
            env: Environment::empty(),
            effects: Vec::new(),
        }
    }

    /// Creates a new instance of the installer framework managing a
    /// pre-existing installation whose database the host has already read
    /// back from disk.
    pub fn new_with_db(attrs: BaseAttributes, install_path: String, database: InstallationDatabase)
        -> (r: Self)
        ensures
            r@.base_attributes == attrs@,
            r@.config is None,
            r@.database == database@,
            r@.install_path == Some(install_path@),
            r@.preexisting_install == true,
            r@.is_launcher == false,
            r@.burn_after_exit == false,
            r@.launcher_path is None,
            r@.effects.len() == 0,
    {
        InstallerFramework {
            base_attributes: attrs,
            config: None,
            database,
            install_path: Some(install_path),
            preexisting_install: true,
            is_launcher: false,
            burn_after_exit: false,
            launcher_path: None,
            env: Environment::empty(),
            effects: Vec::new(),
        }
    }

    /// Configures this installer to install to the specified location.
    pub fn set_install_dir(&mut self, dir: &str)
        ensures
            final(self)@ == (InstallerFrameworkView { install_path: Some(dir@), ..old(self)@ }),
    {
        self.install_path = Some(dir.to_owned());
        proof {
            assert(self@ =~~= (InstallerFrameworkView {
                install_path: Some(dir@),
                ..old(self)@
            }));
        }
    }

    /// Returns a copy of the configuration, without its authentication
    /// section.
    pub fn get_config(&self) -> (r: Option<Config>)
        ensures
            match r {
                Some(c) => self@.config == Some(c@),
                None => self@.config is None,
            },
    {
        match &self.config {
            Some(c) => Some(c.duplicate_without_authentication()),
            None => None,
        }
    }

    /// Returns metadata on the current status of the installation.
    pub fn get_installation_status(&self) -> (r: InstallationStatus)
        ensures
            r@.database == self@.database,
            r@.install_path == self@.install_path,
            r@.preexisting_install == self@.preexisting_install,
            r@.is_launcher == self@.is_launcher,
            r@.launcher_path == self@.launcher_path,
    {
        InstallationStatus {
            database: self.database.duplicate(),
            install_path: match &self.install_path {
                Some(s) => Some(s.clone()),
                None => None,
            },
            preexisting_install: self.preexisting_install,
            is_launcher: self.is_launcher,
            launcher_path: match &self.launcher_path {
                Some(s) => Some(s.clone()),
                None => None,
            },
        }
    }

    /// Records a request that the host change the world.
    pub fn push_effect(&mut self, e: Effect)
        ensures
            final(self)@ == spec_with_effect(old(self)@, e@),
    {
        self.effects.push(e);
        proof {
            assert(self@ =~~= spec_with_effect(old(self)@, self.effects@.last()@));
        }
    }

    /// Requests that the host persist the applications database, as it
    /// stands right now. Fails when no install directory is configured.
    pub fn save_database(&mut self) -> (r: Result<(), String>)
        ensures
            match r {
                Ok(_) => old(self)@.install_path is Some && final(self)@ == spec_with_effect(
                    old(self)@,
                    EffectView::SaveDatabase(old(self)@.database),
                ),
                Err(e) => e@ == "No install directory for installer"@ && old(
                    self,
                )@.install_path is None && final(self)@ == old(self)@,
            },
    {
        if self.install_path.is_none() {
            return Err(String::from_str("No install directory for installer"));
        }
        let snapshot = self.database.duplicate();
        self.push_effect(Effect::SaveDatabase(snapshot));
        Ok(())
    }
}

} // verus!
