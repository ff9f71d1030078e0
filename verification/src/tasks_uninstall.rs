//! Tasks that remove an installed package: its shortcuts, its tracked
//! files and directories, and the whole-application uninstall aggregate.

use vstd::prelude::*;

use crate::installer::Effect;
use crate::installer::EffectView;
use crate::installer::InstallerFramework;
use crate::installer::InstallerFrameworkView;
use crate::installer::LocalInstallation;
use crate::installer::LocalInstallationView;
use crate::progress::Progress;
use crate::strutil::count_char;
use crate::strutil::path_join;
use crate::strutil::spec_count_char;
use crate::strutil::spec_starts_with;
use crate::strutil::str_starts_with;
use crate::strutil::views_of;
use crate::tasks::step_matches;
use crate::tasks::MessageLog;
use crate::tasks::ParamView;
use crate::tasks::StepOutcome;
use crate::tasks::TaskMessageView;
use crate::tasks::TaskParamType;

verus! {

/// The first package record named `name` together with the records that
/// remain once it is taken out, or nothing when no record matches.
pub open spec fn spec_take_package(
    packages: Seq<LocalInstallationView>,
    name: Seq<char>,
) -> Option<(LocalInstallationView, Seq<LocalInstallationView>)>
    decreases packages.len(),
{
    if packages.len() == 0 {
        None
    } else if packages[0].name == name {
        Some((packages[0], packages.drop_first()))
    } else {
        match spec_take_package(packages.drop_first(), name) {
            Option::None => None,
            Option::Some((found, rest)) => Some((found, seq![packages[0]] + rest)),
        }
    }
}

/// Taking out the record at the first matching index is what the recursive
/// description says.
proof fn lemma_take_package_at(packages: Seq<LocalInstallationView>, name: Seq<char>, i: int)
    requires
        0 <= i < packages.len(),
        packages[i].name == name,
        forall|j: int| 0 <= j < i ==> packages[j].name != name,
    ensures
        spec_take_package(packages, name) == Some(
            (packages[i], packages.remove(i)),
        ),
    decreases i,
{
    if i == 0 {
        assert(packages.remove(0) =~= packages.drop_first());
    } else {
        lemma_take_package_at(packages.drop_first(), name, i - 1);
        assert(packages.drop_first()[i - 1] == packages[i]);
        assert(seq![packages[0]] + packages.drop_first().remove(i - 1) =~= packages.remove(i));
    }
}

/// Whether a tracked path is a directory: some other tracked path sits
/// strictly beneath it.
pub open spec fn spec_is_dir_entry(files: Seq<Seq<char>>, p: Seq<char>) -> bool {
    exists|j: int| 0 <= j < files.len() && spec_starts_with(files[j], p + "/"@)
}

/// Whether `p` is a directory among the tracked `files`.
#[verifier::loop_isolation(false)]
fn is_dir_entry(files: &Vec<String>, p: &str) -> (r: bool)
    ensures
        r == spec_is_dir_entry(views_of(files@), p@),
{
    let mut probe = p.to_owned();
    probe.append("/");
    let mut j: usize = 0;
    while j < files.len()
        invariant
            j <= files@.len(),
            probe@ == p@ + "/"@,
            forall|k: int| 0 <= k < j ==> !spec_starts_with(files@[k]@, p@ + "/"@),
        decreases files@.len() - j,
    {
        if str_starts_with(files[j].as_str(), probe.as_str()) {
            proof {
                assert(spec_starts_with(views_of(files@)[j as int], p@ + "/"@));
            }
            return true;
        }
        j = j + 1;
    }
    proof {
        assert(forall|k: int| 0 <= k < files@.len() ==> views_of(files@)[k] == files@[k]@);
    }
    false
}

/// The depth of a path: how many separators it holds.
pub open spec fn spec_depth(p: Seq<char>) -> nat {
    spec_count_char(p, '/')
}

/// A path list sorted by descending depth, by stable insertion: equal
/// depths keep their relative order, deeper paths come first.
pub open spec fn spec_insert_by_depth(sorted: Seq<Seq<char>>, d: Seq<char>) -> Seq<Seq<char>>
    decreases sorted.len(),
{
    if sorted.len() == 0 {
        seq![d]
    } else if spec_depth(sorted[0]) >= spec_depth(d) {
        seq![sorted[0]] + spec_insert_by_depth(sorted.drop_first(), d)
    } else {
        seq![d] + sorted
    }
}

/// The list sorted by descending depth, inserting left to right.
pub open spec fn spec_sort_by_depth_upto(dirs: Seq<Seq<char>>, i: int) -> Seq<Seq<char>>
    decreases i,
{
    if i <= 0 {
        Seq::empty()
    } else {
        spec_insert_by_depth(spec_sort_by_depth_upto(dirs, i - 1), dirs[i - 1])
    }
}

/// Inserts `d` into a list sorted by descending depth, after any entries
/// of the same depth.
#[verifier::loop_isolation(false)]
fn insert_by_depth(sorted: &mut Vec<String>, d: String)
    ensures
        views_of(final(sorted)@) == spec_insert_by_depth(views_of(old(sorted)@), d@),
{
    let depth_d = count_char(d.as_str(), '/');
    let mut k: usize = 0;
    while k < sorted.len() && count_char(sorted[k].as_str(), '/') >= depth_d
        invariant
            k <= sorted@.len(),
            sorted@ == old(sorted)@,
            forall|m: int| 0 <= m < k ==> spec_depth(sorted@[m]@) >= spec_depth(d@),
        decreases sorted@.len() - k,
    {
        k = k + 1;
    }
    let ghost dview = d@;
    sorted.insert(k, d);
    proof {
        lemma_insert_by_depth_at(views_of(old(sorted)@), dview, k as int);
        assert(views_of(sorted@) =~= views_of(old(sorted)@).insert(k as int, dview));
    }
}

/// Inserting at the first index whose depth is smaller matches the
/// recursive description of insertion.
proof fn lemma_insert_by_depth_at(sorted: Seq<Seq<char>>, d: Seq<char>, k: int)
    requires
        0 <= k <= sorted.len(),
        forall|m: int| 0 <= m < k ==> spec_depth(sorted[m]) >= spec_depth(d),
        k < sorted.len() ==> spec_depth(sorted[k]) < spec_depth(d),
    ensures
        spec_insert_by_depth(sorted, d) == sorted.insert(k, d),
    decreases k,
{
    if sorted.len() == 0 {
        assert(sorted.insert(0, d) =~= seq![d]);
    } else if k == 0 {
        assert(sorted.insert(0, d) =~= seq![d] + sorted);
    } else {
        lemma_insert_by_depth_at(sorted.drop_first(), d, k - 1);
        assert(seq![sorted[0]] + sorted.drop_first().insert(k - 1, d) =~= sorted.insert(k, d));
    }
}

/// Uninstalls the shortcuts tracked for a specific package.
#[derive(Debug)]
pub struct UninstallShortcutsTask {
    pub name: String,
    pub optional: bool,
}

impl UninstallShortcutsTask {
    pub open spec fn spec_name(&self) -> Seq<char> {
        if self.optional {
            "UninstallShortcutsTask (for "@ + self.name@ + ", optional = true)"@
        } else {
            "UninstallShortcutsTask (for "@ + self.name@ + ", optional = false)"@
        }
    }

    /// The deletion requests for every tracked shortcut, in order.
    pub open spec fn spec_shortcut_deletions(shortcuts: Seq<Seq<char>>) -> Seq<EffectView> {
        Seq::new(shortcuts.len(), |i: int| EffectView::DeleteFile(shortcuts[i]))
    }

    /// The step: it requests deletion of every shortcut tracked
    /// for the package, in order; an unknown package fails unless
    /// it is optional.
    pub open spec fn step(
        &self,
        input: Seq<ParamView>,
        ctx: InstallerFrameworkView,
    ) -> StepOutcome {
        if input.len() != 0 {
            StepOutcome {
                context: ctx,
                result: Err("Unexpected input to UninstallShortcutsTask"@),
                messages: Seq::empty(),
            }
        } else {
            match ctx.install_path {
                Option::None => StepOutcome {
                    context: ctx,
                    result: Err("No install path specified"@),
                    messages: Seq::empty(),
                },
                Option::Some(path) => {
                    match spec_take_package(ctx.database.packages, self.name@) {
                        Option::None => {
                            if self.optional {
                                StepOutcome {
                                    context: ctx,
                                    result: Ok(ParamView::Empty),
                                    messages: Seq::empty(),
                                }
                            } else {
                                StepOutcome {
                                    context: ctx,
                                    result: Err(
                                        "Package "@ + self.name@
                                            + " could not be found for uninstall."@,
                                    ),
                                    messages: Seq::empty(),
                                }
                            }
                        },
                        Option::Some((package, _)) => {
                            let m = TaskMessageView::Display {
                                text: "Uninstalling shortcuts for package "@ + self.name@
                                    + "..."@,
                                progress: Progress::spec_zero(),
                            };
                            StepOutcome {
                                context: InstallerFrameworkView {
                                    effects: ctx.effects + Self::spec_shortcut_deletions(
                                        package.shortcuts,
                                    ),
                                    ..ctx
                                },
                                result: Ok(ParamView::Empty),
                                messages: seq![m],
                            }
                        },
                    }
                },
            }
        }
    }

    /// Looks up the first package record named `name`, as a copy.
    #[verifier::loop_isolation(false)]
    fn find_record(
        packages: &Vec<LocalInstallation>,
        name: &str,
    ) -> (r: Option<LocalInstallation>)
        ensures
            match r {
                Some(p) => exists|rest: Seq<LocalInstallationView>|
                    spec_take_package(views_of(packages@), name@) == Some((p@, rest)),
                None => spec_take_package(views_of(packages@), name@) is None,
            },
    {
        let mut i: usize = 0;
        while i < packages.len()
            invariant
                i <= packages@.len(),
                forall|j: int| 0 <= j < i ==> packages@[j]@.name != name@,
            decreases packages@.len() - i,
        {
            if crate::strutil::str_eq(packages[i].name.as_str(), name) {
                proof {
                    lemma_take_package_at(views_of(packages@), name@, i as int);
                    assert(views_of(packages@)[i as int] == packages@[i as int]@);
                }
                return Some(packages[i].duplicate());
            }
            i = i + 1;
        }
        proof {
            lemma_take_package_none(views_of(packages@), name@);
        }
        None
    }

    #[verifier::loop_isolation(false)]
    pub fn run(
        &self,
        input: Vec<TaskParamType>,
        context: &mut InstallerFramework,
        log: &mut MessageLog,
    ) -> (r: Result<TaskParamType, String>)
        ensures
            step_matches(
                self.step(views_of(input@), old(context)@),
                r,
                final(context)@,
                old(log)@,
                final(log)@,
            ),
    {
        proof {
            assert(log@ =~= old(log)@ + Seq::<TaskMessageView>::empty());
        }
        if input.len() != 0 {
            return Err(String::from_str("Unexpected input to UninstallShortcutsTask"));
        }
        if context.install_path.is_none() {
            return Err(String::from_str("No install path specified"));
        }
        let package = match Self::find_record(&context.database.packages, self.name.as_str()) {
            Option::Some(p) => p,
            Option::None => {
                if self.optional {
                    return Ok(TaskParamType::Empty);
                }
                let mut e = String::from_str("Package ");
                e.append(self.name.as_str());
                e.append(" could not be found for uninstall.");
                return Err(e);
            },
        };
        let mut t = String::from_str("Uninstalling shortcuts for package ");
        t.append(self.name.as_str());
        t.append("...");
        log.display(t, Progress::zero());
        let mut i: usize = 0;
        while i < package.shortcuts.len()
            invariant
                i <= package.shortcuts@.len(),
                context@ == (InstallerFrameworkView {
                    effects: old(context)@.effects + Self::spec_shortcut_deletions(
                        package@.shortcuts,
                    ).take(i as int),
                    ..old(context)@
                }),
            decreases package.shortcuts@.len() - i,
        {
            context.push_effect(Effect::DeleteFile(package.shortcuts[i].clone()));
            proof {
                assert(old(context)@.effects + Self::spec_shortcut_deletions(
                    package@.shortcuts,
                ).take(i as int + 1) =~= (old(context)@.effects + Self::spec_shortcut_deletions(
                    package@.shortcuts,
                ).take(i as int)).push(
                    EffectView::DeleteFile(package@.shortcuts[i as int]),
                ));
                assert(context@ =~~= (InstallerFrameworkView {
                    effects: old(context)@.effects + Self::spec_shortcut_deletions(
                        package@.shortcuts,
                    ).take(i as int + 1),
                    ..old(context)@
                }));
            }
            i = i + 1;
        }
        proof {
            assert(Self::spec_shortcut_deletions(package@.shortcuts).take(
                package.shortcuts@.len() as int,
            ) =~= Self::spec_shortcut_deletions(package@.shortcuts));
            assert(context@ =~~= self.step(views_of(input@), old(context)@).context);
        }
        Ok(TaskParamType::Empty)
    }
}

/// A missing name means the recursive lookup finds nothing.
proof fn lemma_take_package_none(packages: Seq<LocalInstallationView>, name: Seq<char>)
    requires
        forall|j: int| 0 <= j < packages.len() ==> packages[j].name != name,
    ensures
        spec_take_package(packages, name) is None,
    decreases packages.len(),
{
    if packages.len() > 0 {
        lemma_take_package_none(packages.drop_first(), name);
    }
}

/// Uninstalls the global maintenance-tool shortcuts.
#[derive(Debug)]
pub struct UninstallGlobalShortcutsTask {}

impl UninstallGlobalShortcutsTask {
    pub open spec fn spec_name(&self) -> Seq<char> {
        "UninstallGlobalShortcutsTask"@
    }

    /// The deletion requests for the global shortcuts, last tracked first.
    pub open spec fn spec_reversed_deletions(shortcuts: Seq<Seq<char>>) -> Seq<EffectView> {
        Seq::new(
            shortcuts.len(),
            |i: int| EffectView::DeleteFile(shortcuts[shortcuts.len() - 1 - i]),
        )
    }

    /// The step: it requests deletion of every global shortcut,
    /// most recently tracked first, and forgets them all.
    pub open spec fn step(
        &self,
        input: Seq<ParamView>,
        ctx: InstallerFrameworkView,
    ) -> StepOutcome {
        if input.len() != 0 {
            StepOutcome {
                context: ctx,
                result: Err("Unexpected input to UninstallGlobalShortcutsTask"@),
                messages: Seq::empty(),
            }
        } else {
            let m = TaskMessageView::Display {
                text: "Uninstalling global shortcut..."@,
                progress: Progress::spec_zero(),
            };
            StepOutcome {
                context: InstallerFrameworkView {
                    database: crate::installer::InstallationDatabaseView {
                        shortcuts: Seq::empty(),
                        ..ctx.database
                    },
                    effects: ctx.effects + Self::spec_reversed_deletions(
                        ctx.database.shortcuts,
                    ),
                    ..ctx
                },
                result: Ok(ParamView::Empty),
                messages: seq![m],
            }
        }
    }

    #[verifier::loop_isolation(false)]
    pub fn run(
        &self,
        input: Vec<TaskParamType>,
        context: &mut InstallerFramework,
        log: &mut MessageLog,
    ) -> (r: Result<TaskParamType, String>)
        ensures
            step_matches(
                self.step(views_of(input@), old(context)@),
                r,
                final(context)@,
                old(log)@,
                final(log)@,
            ),
    {
        proof {
            assert(log@ =~= old(log)@ + Seq::<TaskMessageView>::empty());
        }
        if input.len() != 0 {
            return Err(String::from_str("Unexpected input to UninstallGlobalShortcutsTask"));
        }
        log.display(String::from_str("Uninstalling global shortcut..."), Progress::zero());
        let ghost orig = views_of(old(context).database.shortcuts@);
        let ghost mut done: int = 0;
        while context.database.shortcuts.len() > 0
            invariant
                0 <= done <= orig.len(),
                views_of(context.database.shortcuts@) =~= orig.take(orig.len() - done),
                context@ == (InstallerFrameworkView {
                    database: crate::installer::InstallationDatabaseView {
                        shortcuts: orig.take(orig.len() - done),
                        ..old(context)@.database
                    },
                    effects: old(context)@.effects
                        + UninstallGlobalShortcutsTask::spec_reversed_deletions(orig).take(done),
                    ..old(context)@
                }),
                log@ == old(log)@ + self.step(views_of(input@), old(context)@).messages,
            decreases context.database.shortcuts@.len(),
        {
            let s = context.database.shortcuts.pop().unwrap();
            let ghost sv = s@;
            context.push_effect(Effect::DeleteFile(s));
            proof {
                done = done + 1;
                assert(sv == orig.take(orig.len() - done + 1)[orig.len() - done]);
                assert(sv == orig[orig.len() - done]);
                assert(views_of(context.database.shortcuts@) =~= orig.take(orig.len() - done));
                assert(old(context)@.effects
                    + UninstallGlobalShortcutsTask::spec_reversed_deletions(orig).take(done)
                    =~= (old(context)@.effects
                    + UninstallGlobalShortcutsTask::spec_reversed_deletions(orig).take(done - 1)
                ).push(EffectView::DeleteFile(orig[orig.len() - done])));
                assert(context@ =~~= (InstallerFrameworkView {
                    database: crate::installer::InstallationDatabaseView {
                        shortcuts: orig.take(orig.len() - done),
                        ..old(context)@.database
                    },
                    effects: old(context)@.effects
                        + UninstallGlobalShortcutsTask::spec_reversed_deletions(orig).take(done),
                    ..old(context)@
                }));
            }
        }
        proof {
            assert(done == orig.len());
            assert(UninstallGlobalShortcutsTask::spec_reversed_deletions(orig).take(done)
                =~= UninstallGlobalShortcutsTask::spec_reversed_deletions(orig));
            assert(context@ =~~= self.step(views_of(input@), old(context)@).context);
        }
        Ok(TaskParamType::Empty)
    }
}


/// The file-deletion requests among the first `i` tracked paths: one per
/// path that is not a directory, in order.
pub open spec fn spec_scan_effects(
    files: Seq<Seq<char>>,
    path: Seq<char>,
    i: int,
) -> Seq<EffectView>
    decreases i,
{
    if i <= 0 {
        Seq::empty()
    } else {
        let prev = spec_scan_effects(files, path, i - 1);
        if spec_is_dir_entry(files, files[i - 1]) {
            prev
        } else {
            prev.push(EffectView::DeleteFile(path + "/"@ + files[i - 1]))
        }
    }
}

/// The directories among the first `i` tracked paths, joined under the
/// install path, in order.
pub open spec fn spec_scan_dirs(files: Seq<Seq<char>>, path: Seq<char>, i: int) -> Seq<Seq<char>>
    decreases i,
{
    if i <= 0 {
        Seq::empty()
    } else {
        let prev = spec_scan_dirs(files, path, i - 1);
        if spec_is_dir_entry(files, files[i - 1]) {
            prev.push(path + "/"@ + files[i - 1])
        } else {
            prev
        }
    }
}

/// The directory-deletion requests for a sorted directory list, in order.
pub open spec fn spec_dir_deletions(dirs: Seq<Seq<char>>) -> Seq<EffectView> {
    Seq::new(dirs.len(), |i: int| EffectView::DeleteDir(dirs[i]))
}

/// The progress reports of a removal scan: one per tracked path, at its
/// position among all tracked paths.
pub open spec fn spec_scan_messages(files: Seq<Seq<char>>, i: int) -> Seq<TaskMessageView>
    decreases i,
{
    if i <= 0 {
        Seq::empty()
    } else {
        spec_scan_messages(files, i - 1).push(
            TaskMessageView::Display {
                text: "Deleting "@ + files[i - 1],
                progress: Progress::spec_of_ratio(i - 1, files.len() as int),
            },
        )
    }
}

/// The removal scan reports one message per tracked path, at the path's
/// position among all of them.
pub proof fn lemma_scan_messages(files: Seq<Seq<char>>, i: int)
    requires
        0 <= i <= files.len(),
    ensures
        spec_scan_messages(files, i).len() == i,
        forall|k: int|
            0 <= k < i ==> ((#[trigger] spec_scan_messages(files, i)[k])
                matches TaskMessageView::Display { progress, .. } && progress
                == Progress::spec_of_ratio(k, files.len() as int)),
    decreases i,
{
    if i > 0 {
        lemma_scan_messages(files, i - 1);
        assert(forall|k: int|
            0 <= k < i - 1 ==> spec_scan_messages(files, i)[k] == spec_scan_messages(
                files,
                i - 1,
            )[k]);
    }
}

/// Uninstalls a specific package: its tracked files first, then its
/// tracked directories, children before parents.
#[derive(Debug)]
pub struct UninstallPackageTask {
    pub name: String,
    pub optional: bool,
}

impl UninstallPackageTask {
    pub open spec fn spec_name(&self) -> Seq<char> {
        if self.optional {
            "UninstallPackageTask (for "@ + self.name@ + ", optional = true)"@
        } else {
            "UninstallPackageTask (for "@ + self.name@ + ", optional = false)"@
        }
    }

    /// The step: it forgets the package's record, requests
    /// deletion of each tracked file, and then of each tracked directory
    /// in order of descending depth, so children go before parents. A
    /// tracked path counts as a directory when another tracked path sits
    /// beneath it. An unknown package fails unless removal is optional.
    pub open spec fn step(
        &self,
        input: Seq<ParamView>,
        ctx: InstallerFrameworkView,
    ) -> StepOutcome {
        if input.len() != 1 {
            StepOutcome {
                context: ctx,
                result: Err("Unexpected input to UninstallPackageTask"@),
                messages: Seq::empty(),
            }
        } else {
            match ctx.install_path {
                Option::None => StepOutcome {
                    context: ctx,
                    result: Err("No install path specified"@),
                    messages: Seq::empty(),
                },
                Option::Some(path) => {
                    match spec_take_package(ctx.database.packages, self.name@) {
                        Option::None => {
                            if self.optional {
                                StepOutcome {
                                    context: ctx,
                                    result: Ok(ParamView::Empty),
                                    messages: Seq::empty(),
                                }
                            } else {
                                StepOutcome {
                                    context: ctx,
                                    result: Err(
                                        "Package "@ + self.name@
                                            + " could not be found for uninstall."@,
                                    ),
                                    messages: Seq::empty(),
                                }
                            }
                        },
                        Option::Some((package, remaining)) => {
                            let m = TaskMessageView::Display {
                                text: "Uninstalling package "@ + self.name@ + "..."@,
                                progress: Progress::spec_zero(),
                            };
                            let n = package.files.len() as int;
                            let file_effects = spec_scan_effects(package.files, path, n);
                            let dirs = spec_scan_dirs(package.files, path, n);
                            let sorted = spec_sort_by_depth_upto(dirs, dirs.len() as int);
                            StepOutcome {
                                context: InstallerFrameworkView {
                                    database: crate::installer::InstallationDatabaseView {
                                        packages: remaining,
                                        ..ctx.database
                                    },
                                    effects: ctx.effects + file_effects + spec_dir_deletions(
                                        sorted,
                                    ),
                                    ..ctx
                                },
                                result: Ok(ParamView::Empty),
                                messages: seq![m] + spec_scan_messages(package.files, n),
                            }
                        },
                    }
                },
            }
        }
    }

    /// Takes the first package record named `name` out of the list.
    #[verifier::loop_isolation(false)]
    fn take_record(
        packages: &mut Vec<LocalInstallation>,
        name: &str,
    ) -> (r: Option<LocalInstallation>)
        ensures
            match r {
                Some(p) => spec_take_package(views_of(old(packages)@), name@) == Some(
                    (p@, views_of(final(packages)@)),
                ),
                None => spec_take_package(views_of(old(packages)@), name@) is None
                    && final(packages)@ == old(packages)@,
            },
    {
        let mut i: usize = 0;
        while i < packages.len()
            invariant
                i <= packages@.len(),
                packages@ == old(packages)@,
                forall|j: int| 0 <= j < i ==> packages@[j]@.name != name@,
            decreases packages@.len() - i,
        {
            if crate::strutil::str_eq(packages[i].name.as_str(), name) {
                proof {
                    lemma_take_package_at(views_of(packages@), name@, i as int);
                    assert(views_of(packages@)[i as int] == packages@[i as int]@);
                }
                let p = packages.remove(i);
                proof {
                    assert(views_of(packages@) =~= views_of(old(packages)@).remove(i as int));
                }
                return Some(p);
            }
            i = i + 1;
        }
        proof {
            lemma_take_package_none(views_of(packages@), name@);
        }
        None
    }

    #[verifier::loop_isolation(false)]
    #[verifier::rlimit(60)]
    pub fn run(
        &self,
        input: Vec<TaskParamType>,
        context: &mut InstallerFramework,
        log: &mut MessageLog,
    ) -> (r: Result<TaskParamType, String>)
        ensures
            step_matches(
                self.step(views_of(input@), old(context)@),
                r,
                final(context)@,
                old(log)@,
                final(log)@,
            ),
    {
        proof {
            assert(log@ =~= old(log)@ + Seq::<TaskMessageView>::empty());
        }
        if input.len() != 1 {
            return Err(String::from_str("Unexpected input to UninstallPackageTask"));
        }
        let path = match &context.install_path {
            Option::Some(p) => p.clone(),
            Option::None => {
                return Err(String::from_str("No install path specified"));
            },
        };
        let package = match Self::take_record(&mut context.database.packages, self.name.as_str()) {
            Option::Some(p) => p,
            Option::None => {
                if self.optional {
                    return Ok(TaskParamType::Empty);
                }
                let mut e = String::from_str("Package ");
                e.append(self.name.as_str());
                e.append(" could not be found for uninstall.");
                return Err(e);
            },
        };
        let mut t = String::from_str("Uninstalling package ");
        t.append(self.name.as_str());
        t.append("...");
        log.display(t, Progress::zero());
        let ghost ctx1 = context@;
        let ghost log1 = log@;
        let ghost fviews = package@.files;
        let ghost pview = path@;
        let mut dirs: Vec<String> = Vec::new();
        let mut i: usize = 0;
        proof {
            assert(log@ =~= log1 + spec_scan_messages(fviews, 0));
        }
        while i < package.files.len()
            invariant
                i <= package.files@.len(),
                fviews == package@.files,
                context@ == (InstallerFrameworkView {
                    effects: ctx1.effects + spec_scan_effects(fviews, pview, i as int),
                    ..ctx1
                }),
                views_of(dirs@) =~= spec_scan_dirs(fviews, pview, i as int),
                log@ == log1 + spec_scan_messages(fviews, i as int),
            decreases package.files@.len() - i,
        {
            let f = &package.files[i];
            proof {
                assert(fviews[i as int] == package.files@[i as int]@);
            }
            let mut dmsg = String::from_str("Deleting ");
            dmsg.append(f.as_str());
            log.display(
                dmsg,
                Progress::ratio(i as u64, package.files.len() as u64),
            );
            proof {
                assert(log@ =~= log1 + spec_scan_messages(fviews, i as int + 1));
            }
            let full = path_join(path.as_str(), f.as_str());
            if is_dir_entry(&package.files, f.as_str()) {
                dirs.push(full);
                proof {
                    assert(views_of(dirs@) =~= spec_scan_dirs(fviews, pview, i as int + 1));
                }
            } else {
                context.push_effect(Effect::DeleteFile(full));
                proof {
                    assert(context@ =~~= (InstallerFrameworkView {
                        effects: ctx1.effects + spec_scan_effects(fviews, pview, i as int + 1),
                        ..ctx1
                    }));
                }
            }
            i = i + 1;
        }
        let ghost alldirs = spec_scan_dirs(fviews, pview, fviews.len() as int);
        let mut sorted: Vec<String> = Vec::new();
        let mut j: usize = 0;
        proof {
            assert(views_of(sorted@) =~= spec_sort_by_depth_upto(alldirs, 0));
        }
        while j < dirs.len()
            invariant
                j <= dirs@.len(),
                views_of(dirs@) =~= alldirs,
                views_of(sorted@) =~= spec_sort_by_depth_upto(alldirs, j as int),
                context@ == (InstallerFrameworkView {
                    effects: ctx1.effects + spec_scan_effects(
                        fviews,
                        pview,
                        fviews.len() as int,
                    ),
                    ..ctx1
                }),
                log@ == old(log)@ + self.step(views_of(input@), old(context)@).messages,
            decreases dirs@.len() - j,
        {
            proof {
                assert(alldirs[j as int] == dirs@[j as int]@);
            }
            insert_by_depth(&mut sorted, dirs[j].clone());
            j = j + 1;
        }
        let ghost sortedview = spec_sort_by_depth_upto(alldirs, alldirs.len() as int);
        let mut k: usize = 0;
        while k < sorted.len()
            invariant
                k <= sorted@.len(),
                views_of(sorted@) =~= sortedview,
                context@ == (InstallerFrameworkView {
                    effects: ctx1.effects + spec_scan_effects(
                        fviews,
                        pview,
                        fviews.len() as int,
                    ) + spec_dir_deletions(sortedview).take(k as int),
                    ..ctx1
                }),
                log@ == old(log)@ + self.step(views_of(input@), old(context)@).messages,
            decreases sorted@.len() - k,
        {
            proof {
                assert(sortedview[k as int] == sorted@[k as int]@);
            }
            context.push_effect(Effect::DeleteDir(sorted[k].clone()));
            proof {
                assert(ctx1.effects + spec_scan_effects(fviews, pview, fviews.len() as int)
                    + spec_dir_deletions(sortedview).take(k as int + 1) =~= (ctx1.effects
                    + spec_scan_effects(fviews, pview, fviews.len() as int)
                    + spec_dir_deletions(sortedview).take(k as int)).push(
                    EffectView::DeleteDir(sortedview[k as int]),
                ));
                assert(context@ =~~= (InstallerFrameworkView {
                    effects: ctx1.effects + spec_scan_effects(
                        fviews,
                        pview,
                        fviews.len() as int,
                    ) + spec_dir_deletions(sortedview).take(k as int + 1),
                    ..ctx1
                }));
            }
            k = k + 1;
        }
        proof {
            assert(spec_dir_deletions(sortedview).take(sorted@.len() as int) =~= spec_dir_deletions(
                sortedview,
            ));
            assert(context@ =~~= self.step(views_of(input@), old(context)@).context);
        }
        Ok(TaskParamType::Empty)
    }
}

/// Uninstalls every named package, wrapping up with a completion report.
#[derive(Debug)]
pub struct UninstallTask {
    pub items: Vec<String>,
}

impl UninstallTask {
    pub open spec fn spec_name(&self) -> Seq<char> {
        "UninstallTask"@
    }

    /// The step of the aggregate itself once its per-package dependencies
    /// have run: it reports that it is wrapping up, then completion.
    pub open spec fn step(
        &self,
        input: Seq<ParamView>,
        ctx: InstallerFrameworkView,
    ) -> StepOutcome {
        StepOutcome {
            context: ctx,
            result: Ok(ParamView::Empty),
            messages: seq![
                TaskMessageView::Display {
                    text: "Wrapping up..."@,
                    progress: Progress::spec_zero(),
                },
                TaskMessageView::Display {
                    text: "Wrapping up..."@,
                    progress: Progress::spec_one(),
                },
            ],
        }
    }

    pub fn run(
        &self,
        input: Vec<TaskParamType>,
        context: &mut InstallerFramework,
        log: &mut MessageLog,
    ) -> (r: Result<TaskParamType, String>)
        ensures
            step_matches(
                self.step(views_of(input@), old(context)@),
                r,
                final(context)@,
                old(log)@,
                final(log)@,
            ),
    {
        log.display(String::from_str("Wrapping up..."), Progress::zero());
        log.display(String::from_str("Wrapping up..."), Progress::one());
        proof {
            assert(log@ =~= old(log)@ + self.step(views_of(input@), old(context)@).messages);
        }
        Ok(TaskParamType::Empty)
    }
}

} // verus!
