//! Tasks that turn remote release metadata into a downloadable file: name
//! resolution against the configured file pattern, the authorization check
//! for gated packages, and the download step itself.

use vstd::prelude::*;

use crate::config::spec_find_package;
use crate::installer::Environment;
use crate::installer::InstallerFramework;
use crate::installer::InstallerFrameworkView;
use crate::progress::Progress;
use crate::sources::File;
use crate::sources::FileView;
use crate::sources::Release;
use crate::sources::ReleaseView;
use crate::sources::spec_version_lt;
use crate::sources::Version;
use crate::strutil::replace_all;
use crate::strutil::spec_replace_all;
use crate::strutil::views_of;
use crate::tasks::step_matches;
use crate::tasks::MessageLog;
use crate::tasks::ParamView;
use crate::tasks::StepOutcome;
use crate::tasks::TaskMessageView;
use crate::tasks::TaskParamType;

verus! {

/// Whether this pattern is a valid file-matching pattern: what
/// `regex::Regex::new` accepts, a function of the pattern alone.
pub uninterp spec fn regex_compiles(pattern: Seq<char>) -> bool;

/// Whether the pattern matches the text: what `regex::Regex::is_match`
/// answers, a function of the pattern and the text alone.
pub uninterp spec fn regex_matches(pattern: Seq<char>, text: Seq<char>) -> bool;

/// Relies on `regex::Regex::new` and `regex::Regex::is_match`: compiling
/// the same pattern always succeeds or fails the same way, and matching is
/// a function of the pattern and the text alone.
#[verifier::external_body]
fn regex_is_match(pattern: &str, text: &str) -> (r: Option<bool>)
    ensures
        r is Some <==> regex_compiles(pattern@),
        r matches Some(b) ==> b == regex_matches(pattern@, text@),
{
    match regex::Regex::new(pattern) {
        Ok(re) => Some(re.is_match(text)),
        Err(_) => None,
    }
}

/// Whether some file of the release matches the pattern.
pub open spec fn spec_release_matches(files: Seq<FileView>, pattern: Seq<char>) -> bool {
    exists|i: int| 0 <= i < files.len() && regex_matches(pattern, files[i].name)
}

/// The best release among the first `i`: the one with the greatest version
/// among those with a matching file, later entries winning ties.
pub open spec fn spec_best_upto(releases: Seq<ReleaseView>, pattern: Seq<char>, i: int) -> Option<
    ReleaseView,
>
    decreases i,
{
    if i <= 0 {
        None
    } else {
        let prev = spec_best_upto(releases, pattern, i - 1);
        let cur = releases[i - 1];
        if spec_release_matches(cur.files, pattern) && (prev is None || !spec_version_lt(
            cur.version,
            prev->Some_0.version,
        )) {
            Some(cur)
        } else {
            prev
        }
    }
}

/// The first file of the list that matches the pattern.
pub open spec fn spec_first_matching_file(files: Seq<FileView>, pattern: Seq<char>) -> Option<
    FileView,
>
    decreases files.len(),
{
    if files.len() == 0 {
        None
    } else if regex_matches(pattern, files[0].name) {
        Some(files[0])
    } else {
        spec_first_matching_file(files.drop_first(), pattern)
    }
}

/// Whether any file of `files` matches, decided with the compiled pattern.
#[verifier::loop_isolation(false)]
fn release_has_match(files: &Vec<File>, pattern: &str) -> (r: bool)
    requires
        regex_compiles(pattern@),
    ensures
        r == spec_release_matches(views_of(files@), pattern@),
{
    let mut i: usize = 0;
    while i < files.len()
        invariant
            i <= files@.len(),
            forall|j: int| 0 <= j < i ==> !regex_matches(pattern@, files@[j]@.name),
        decreases files@.len() - i,
    {
        let m = regex_is_match(pattern, files[i].name.as_str());
        if m.unwrap() {
            proof {
                assert(regex_matches(pattern@, views_of(files@)[i as int].name));
            }
            return true;
        }
        i = i + 1;
    }
    proof {
        assert(forall|j: int|
            0 <= j < files@.len() ==> views_of(files@)[j].name == files@[j]@.name);
    }
    false
}

/// The first file of `files` that matches, as a copy.
#[verifier::loop_isolation(false)]
fn first_matching_file(files: &Vec<File>, pattern: &str) -> (r: Option<File>)
    requires
        regex_compiles(pattern@),
    ensures
        match r {
            Some(f) => spec_first_matching_file(views_of(files@), pattern@) == Some(f@),
            None => spec_first_matching_file(views_of(files@), pattern@) is None,
        },
{
    let ghost all = views_of(files@);
    let mut i: usize = 0;
    proof {
        assert(all.skip(0) =~= all);
    }
    while i < files.len()
        invariant
            i <= files@.len(),
            spec_first_matching_file(all, pattern@) == spec_first_matching_file(
                all.skip(i as int),
                pattern@,
            ),
        decreases files@.len() - i,
    {
        proof {
            assert(all.skip(i as int)[0] == files@[i as int]@);
            assert(all.skip(i as int).drop_first() =~= all.skip(i as int + 1));
        }
        let m = regex_is_match(pattern, files[i].name.as_str());
        if m.unwrap() {
            return Some(files[i].duplicate());
        }
        i = i + 1;
    }
    proof {
        assert(all.skip(i as int).len() == 0);
    }
    None
}

/// Resolves a package name into a release version plus file metadata, by
/// picking the newest release that carries a file matching the package's
/// platform-substituted file pattern.
#[derive(Debug)]
pub struct ResolvePackageTask {
    pub name: String,
}

impl ResolvePackageTask {
    pub open spec fn spec_name(&self) -> Seq<char> {
        "ResolvePackageTask (for "@ + self.name@ + ")"@
    }

    /// The step, given the release listing the host fetched for
    /// this package: among the listed releases that hold a file matching
    /// the configured pattern (with the platform name substituted), it
    /// picks the one with the greatest version and hands back that version
    /// with the first matching file; it fails when the package is unknown,
    /// the listing is missing or failed, the pattern does not compile, or
    /// no release has a matching file.
    pub open spec fn step(
        &self,
        input: Seq<ParamView>,
        ctx: InstallerFrameworkView,
    ) -> StepOutcome {
        if input.len() != 0 {
            StepOutcome {
                context: ctx,
                result: Err("Unexpected input to ResolvePackageTask"@),
                messages: Seq::empty(),
            }
        } else {
            match ctx.config {
                Option::None => StepOutcome {
                    context: ctx,
                    result: Err("Should have packages by now"@),
                    messages: Seq::empty(),
                },
                Option::Some(cfg) => {
                    match spec_find_package(cfg.packages, self.name@) {
                        Option::None => StepOutcome {
                            context: ctx,
                            result: Err(
                                "Package "@ + self.name@ + " could not be found."@,
                            ),
                            messages: Seq::empty(),
                        },
                        Option::Some(desc) => {
                            let m1 = TaskMessageView::Display {
                                text: "Polling "@ + desc.source.name + " for latest version of "@
                                    + self.name@ + "..."@,
                                progress: Progress::spec_zero(),
                            };
                            match Environment::spec_find_releases(ctx.env.releases, self.name@) {
                                Option::None => StepOutcome {
                                    context: ctx,
                                    result: Err(
                                        "No release information available for "@ + self.name@,
                                    ),
                                    messages: seq![m1],
                                },
                                Option::Some(answer) => match answer.result {
                                    Result::Err(e) => StepOutcome {
                                        context: ctx,
                                        result: Err(e),
                                        messages: seq![m1],
                                    },
                                    Result::Ok(releases) => {
                                        let m2 = TaskMessageView::Display {
                                            text: "Resolving dependency for "@ + self.name@
                                                + "..."@,
                                            progress: Progress::spec_of_ratio(1, 2),
                                        };
                                        let msgs = seq![m1, m2];
                                        let pattern = spec_replace_all(
                                            desc.source.match_regex,
                                            "#PLATFORM#"@,
                                            ctx.env.os_name,
                                        );
                                        if !regex_compiles(pattern) {
                                            StepOutcome {
                                                context: ctx,
                                                result: Err(
                                                    "An error occurred while compiling the file pattern"@,
                                                ),
                                                messages: msgs,
                                            }
                                        } else {
                                            match spec_best_upto(
                                                releases,
                                                pattern,
                                                releases.len() as int,
                                            ) {
                                                Option::None => StepOutcome {
                                                    context: ctx,
                                                    result: Err(
                                                        "No release with correct file found"@,
                                                    ),
                                                    messages: msgs,
                                                },
                                                Option::Some(best) => match
                                                    spec_first_matching_file(best.files, pattern) {
                                                    Option::None => StepOutcome {
                                                        context: ctx,
                                                        result: Err(
                                                            "No release with correct file found"@,
                                                        ),
                                                        messages: msgs,
                                                    },
                                                    Option::Some(f) => StepOutcome {
                                                        context: ctx,
                                                        result: Ok(
                                                            ParamView::File(best.version, f),
                                                        ),
                                                        messages: msgs,
                                                    },
                                                },
                                            }
                                        }
                                    },
                                },
                            }
                        },
                    }
                },
            }
        }
    }

    /// Picks the best release among `releases`, as a copy.
    #[verifier::loop_isolation(false)]
    fn best_release(releases: &Vec<Release>, pattern: &str) -> (r: Option<Release>)
        requires
            regex_compiles(pattern@),
        ensures
            match r {
                Some(b) => spec_best_upto(
                    views_of(releases@),
                    pattern@,
                    releases@.len() as int,
                ) == Some(b@),
                None => spec_best_upto(
                    views_of(releases@),
                    pattern@,
                    releases@.len() as int,
                ) is None,
            },
    {
        let mut best: Option<Release> = None;
        let mut i: usize = 0;
        while i < releases.len()
            invariant
                i <= releases@.len(),
                match best {
                    Some(b) => spec_best_upto(views_of(releases@), pattern@, i as int) == Some(
                        b@,
                    ),
                    None => spec_best_upto(views_of(releases@), pattern@, i as int) is None,
                },
            decreases releases@.len() - i,
        {
            proof {
                assert(views_of(releases@)[i as int] == releases@[i as int]@);
            }
            let matches = release_has_match(&releases[i].files, pattern);
            proof {
                assert(views_of(releases@[i as int].files@) =~= releases@[i as int]@.files);
            }
            let take = if matches {
                match &best {
                    Option::None => true,
                    Option::Some(b) => !releases[i].version.lt(&b.version),
                }
            } else {
                false
            };
            if take {
                best = Some(releases[i].duplicate());
            }
            i = i + 1;
        }
        best
    }

    #[verifier::loop_isolation(false)]
    pub fn run(
        &self,
        input: Vec<TaskParamType>,
        context: &mut InstallerFramework,
        log: &mut MessageLog,
    ) -> (r: Result<TaskParamType, String>)
        ensures
            step_matches(
                self.step(views_of(input@), old(context)@),
                r,
                final(context)@,
                old(log)@,
                final(log)@,
            ),
    {
        proof {
            assert(log@ =~= old(log)@ + Seq::<TaskMessageView>::empty());
        }
        if input.len() != 0 {
            return Err(String::from_str("Unexpected input to ResolvePackageTask"));
        }
        let desc = match &context.config {
            Option::Some(cfg) => crate::config::find_package(&cfg.packages, self.name.as_str()),
            Option::None => {
                return Err(String::from_str("Should have packages by now"));
            },
        };
        let desc = match desc {
            Option::Some(d) => d,
            Option::None => {
                let mut e = String::from_str("Package ");
                e.append(self.name.as_str());
                e.append(" could not be found.");
                return Err(e);
            },
        };
        let mut t1 = String::from_str("Polling ");
        t1.append(desc.source.name.as_str());
        t1.append(" for latest version of ");
        t1.append(self.name.as_str());
        t1.append("...");
        log.display(t1, Progress::zero());
        proof {
            let s = self.step(views_of(input@), old(context)@);
            assert(s.messages.len() >= 1);
            assert(log@ =~= old(log)@ + seq![s.messages[0]]);
        }
        let answer = match context.env.find_releases(self.name.as_str()) {
            Option::Some(a) => a,
            Option::None => {
                let mut e = String::from_str("No release information available for ");
                e.append(self.name.as_str());
                return Err(e);
            },
        };
        let releases = match &answer.result {
            Result::Ok(rs) => rs,
            Result::Err(e) => {
                return Err(e.clone());
            },
        };
        let mut t2 = String::from_str("Resolving dependency for ");
        t2.append(self.name.as_str());
        t2.append("...");
        log.display(t2, Progress::ratio(1, 2));
        proof {
            let s = self.step(views_of(input@), old(context)@);
            assert(s.messages.len() == 2);
            assert(log@ =~= old(log)@ + s.messages);
        }
        proof {
            reveal_strlit("#PLATFORM#");
        }
        let pattern = replace_all(
            desc.source.match_regex.as_str(),
            "#PLATFORM#",
            context.env.os_name.as_str(),
        );
        if regex_is_match(pattern.as_str(), "").is_none() {
            return Err(String::from_str("An error occurred while compiling the file pattern"));
        }
        let best = match Self::best_release(releases, pattern.as_str()) {
            Option::Some(b) => b,
            Option::None => {
                return Err(String::from_str("No release with correct file found"));
            },
        };
        match first_matching_file(&best.files, pattern.as_str()) {
            Option::Some(f) => Ok(TaskParamType::File(best.version, f)),
            Option::None => Err(String::from_str("No release with correct file found")),
        }
    }
}


/// The version at which a package is currently installed, if any.
pub open spec fn spec_installed_version(
    packages: Seq<crate::installer::LocalInstallationView>,
    name: Seq<char>,
) -> Option<Version>
    decreases packages.len(),
{
    if packages.len() == 0 {
        None
    } else if packages[0].name == name {
        Some(packages[0].version)
    } else {
        spec_installed_version(packages.drop_first(), name)
    }
}

/// The version at which a package is currently installed, if any.
#[verifier::loop_isolation(false)]
pub fn installed_version(
    packages: &Vec<crate::installer::LocalInstallation>,
    name: &str,
) -> (r: Option<Version>)
    ensures
        r == spec_installed_version(views_of(packages@), name@),
{
    let ghost all = views_of(packages@);
    let mut i: usize = 0;
    proof {
        assert(all.skip(0) =~= all);
    }
    while i < packages.len()
        invariant
            i <= packages@.len(),
            spec_installed_version(all, name@) == spec_installed_version(
                all.skip(i as int),
                name@,
            ),
        decreases packages@.len() - i,
    {
        proof {
            assert(all.skip(i as int)[0] == packages@[i as int]@);
            assert(all.skip(i as int).drop_first() =~= all.skip(i as int + 1));
        }
        if crate::strutil::str_eq(packages[i].name.as_str(), name) {
            return Some(packages[i].version);
        }
        i = i + 1;
    }
    proof {
        assert(all.skip(i as int).len() == 0);
    }
    None
}

/// Validates that the user is authorized to download a gated package,
/// downgrading gracefully to "no token" on any failure to authenticate.
#[derive(Debug)]
pub struct CheckAuthorizationTask {
    pub name: String,
}

impl CheckAuthorizationTask {
    pub open spec fn spec_name(&self) -> Seq<char> {
        "CheckAuthorizationTask (for "@ + self.name@ + ")"@
    }

    /// The step, given the resolved file and the host's
    /// authentication answer: a file that needs no authorization passes
    /// through without a token; otherwise the token is attached only when
    /// authentication succeeded and the validated claims entitle the user,
    /// and is dropped silently in every other case.
    pub open spec fn step(
        &self,
        input: Seq<ParamView>,
        ctx: InstallerFrameworkView,
    ) -> StepOutcome {
        if input.len() != 1 || !(input[0] is File) {
            StepOutcome {
                context: ctx,
                result: Err("Unexpected TaskParamType in CheckAuthorization"@),
                messages: Seq::empty(),
            }
        } else {
            let version = input[0]->File_0;
            let file = input[0]->File_1;
            if !file.requires_authorization {
                StepOutcome {
                    context: ctx,
                    result: Ok(ParamView::Authentication(version, file, None)),
                    messages: Seq::empty(),
                }
            } else {
                let token = match ctx.env.auth {
                    Option::None => Option::<Seq<char>>::None,
                    Option::Some(answer) => match answer.result {
                        Result::Err(_) => None,
                        Result::Ok((tok, claims)) => if crate::config::spec_claims_entitled(
                            claims,
                        ) {
                            Some(tok)
                        } else {
                            None
                        },
                    },
                };
                StepOutcome {
                    context: ctx,
                    result: Ok(ParamView::Authentication(version, file, token)),
                    messages: Seq::empty(),
                }
            }
        }
    }

    pub fn run(
        &self,
        input: Vec<TaskParamType>,
        context: &mut InstallerFramework,
        log: &mut MessageLog,
    ) -> (r: Result<TaskParamType, String>)
        ensures
            step_matches(
                self.step(views_of(input@), old(context)@),
                r,
                final(context)@,
                old(log)@,
                final(log)@,
            ),
    {
        proof {
            assert(log@ =~= old(log)@ + Seq::<TaskMessageView>::empty());
        }
        let mut input = input;
        if input.len() != 1 {
            return Err(String::from_str("Unexpected TaskParamType in CheckAuthorization"));
        }
        let first = input.remove(0);
        let (version, file) = match first {
            TaskParamType::File(v, f) => (v, f),
            _ => {
                return Err(String::from_str("Unexpected TaskParamType in CheckAuthorization"));
            },
        };
        if !file.requires_authorization {
            return Ok(TaskParamType::Authentication(version, file, None));
        }
        let token: Option<String> = match &context.env.auth {
            Option::None => None,
            Option::Some(answer) => match &answer.result {
                Result::Err(_) => None,
                Result::Ok((tok, claims)) => if claims.entitled() {
                    Some(tok.clone())
                } else {
                    None
                },
            },
        };
        Ok(TaskParamType::Authentication(version, file, token))
    }
}

/// Downloads a resolved package file into memory, skipping the download
/// entirely when the installed version is already the resolved one.
#[derive(Debug)]
pub struct DownloadPackageTask {
    pub name: String,
}

impl DownloadPackageTask {
    pub open spec fn spec_name(&self) -> Seq<char> {
        "DownloadPackageTask (for "@ + self.name@ + ")"@
    }

    /// The step, given the authorized file and the host's
    /// download answer: it breaks when authorization is required but
    /// missing, and when the package is already installed at the resolved
    /// version; otherwise it hands on the downloaded bytes, failing when
    /// the host has no answer for the file's URL or the transfer failed.
    pub open spec fn step(
        &self,
        input: Seq<ParamView>,
        ctx: InstallerFrameworkView,
    ) -> StepOutcome {
        if input.len() != 1 || !(input[0] is Authentication) {
            StepOutcome {
                context: ctx,
                result: Err("Unexpected param type to download package"@),
                messages: Seq::empty(),
            }
        } else {
            let version = input[0]->Authentication_0;
            let file = input[0]->Authentication_1;
            let auth = input[0]->Authentication_2;
            if file.requires_authorization && auth is None {
                StepOutcome {
                    context: ctx,
                    result: Ok(ParamView::Break),
                    messages: Seq::empty(),
                }
            } else if spec_installed_version(ctx.database.packages, self.name@) == Some(
                version,
            ) {
                StepOutcome {
                    context: ctx,
                    result: Ok(ParamView::Break),
                    messages: Seq::empty(),
                }
            } else {
                let m = TaskMessageView::Display {
                    text: "Downloading package "@ + self.name@ + "..."@,
                    progress: Progress::spec_zero(),
                };
                match Environment::spec_find_download(ctx.env.downloads, file.url) {
                    Option::None => StepOutcome {
                        context: ctx,
                        result: Err("No downloaded data available for "@ + file.url),
                        messages: seq![m],
                    },
                    Option::Some(answer) => match answer.result {
                        Result::Err(e) => StepOutcome {
                            context: ctx,
                            result: Err(e),
                            messages: seq![m],
                        },
                        Result::Ok(bytes) => StepOutcome {
                            context: ctx,
                            result: Ok(ParamView::FileContents(version, file, bytes)),
                            messages: seq![m],
                        },
                    },
                }
            }
        }
    }

    pub fn run(
        &self,
        input: Vec<TaskParamType>,
        context: &mut InstallerFramework,
        log: &mut MessageLog,
    ) -> (r: Result<TaskParamType, String>)
        ensures
            step_matches(
                self.step(views_of(input@), old(context)@),
                r,
                final(context)@,
                old(log)@,
                final(log)@,
            ),
    {
        proof {
            assert(log@ =~= old(log)@ + Seq::<TaskMessageView>::empty());
        }
        let mut input = input;
        if input.len() != 1 {
            return Err(String::from_str("Unexpected param type to download package"));
        }
        let first = input.remove(0);
        let (version, file, auth) = match first {
            TaskParamType::Authentication(v, f, a) => (v, f, a),
            _ => {
                return Err(String::from_str("Unexpected param type to download package"));
            },
        };
        if file.requires_authorization && auth.is_none() {
            return Ok(TaskParamType::Break);
        }
        let installed = installed_version(&context.database.packages, self.name.as_str());
        let same = match installed {
            Option::Some(v) => !v.lt(&version) && !version.lt(&v) && v == version,
            Option::None => false,
        };
        if same {
            return Ok(TaskParamType::Break);
        }
        proof {
            assert(spec_installed_version(
                old(context)@.database.packages,
                self.name@,
            ) != Some(version));
        }
        let mut t = String::from_str("Downloading package ");
        t.append(self.name.as_str());
        t.append("...");
        log.display(t, Progress::zero());
        let answer = match context.env.find_download(file.url.as_str()) {
            Option::Some(a) => a,
            Option::None => {
                let mut e = String::from_str("No downloaded data available for ");
                e.append(file.url.as_str());
                return Err(e);
            },
        };
        match &answer.result {
            Result::Ok(bytes) => Ok(
                TaskParamType::FileContents(version, file, crate::strutil::clone_bytes(bytes)),
            ),
            Result::Err(e) => Err(e.clone()),
        }
    }
}

/// The idempotence of resolve-plus-download: when the package is already
/// installed at the resolved version and authorization is not blocking,
/// the download step breaks immediately, with no download consulted, no
/// message and no change to the shared state.
pub proof fn lemma_download_idempotent(
    t: DownloadPackageTask,
    input: Seq<ParamView>,
    ctx: InstallerFrameworkView,
)
    requires
        input.len() == 1,
        input[0] is Authentication,
        !(input[0]->Authentication_1.requires_authorization && input[0]->Authentication_2
            is None),
        spec_installed_version(ctx.database.packages, t.name@) == Some(
            input[0]->Authentication_0,
        ),
    ensures
        t.step(input, ctx).result == Ok::<ParamView, Seq<char>>(ParamView::Break),
        t.step(input, ctx).context == ctx,
        t.step(input, ctx).messages == Seq::<TaskMessageView>::empty(),
{
}

} // verus!
