//! Tasks that install a package: generating its shortcuts, extracting the
//! downloaded archive into the install directory while tracking every file
//! and directory created, and the whole-application install aggregate.

use vstd::prelude::*;

use crate::archives::spec_read_archive;
use crate::archives::ArchiveEntryView;
use crate::config::spec_find_package;
use crate::config::PackageDescription;
use crate::config::PackageShortcutView;
use crate::installer::Effect;
use crate::installer::EffectView;
use crate::installer::InstallerFramework;
use crate::installer::InstallerFrameworkView;
use crate::installer::LocalInstallation;
use crate::installer::LocalInstallationView;
use crate::progress::Progress;
use crate::strutil::path_join;
use crate::strutil::spec_ancestors;
use crate::strutil::spec_clean;
use crate::strutil::spec_components;
use crate::strutil::spec_contains_string;
use crate::strutil::spec_join;
use crate::strutil::vec_contains_string;
use crate::strutil::views_of;
use crate::tasks::step_matches;
use crate::tasks::MessageLog;
use crate::tasks::ParamView;
use crate::tasks::StepOutcome;
use crate::tasks::TaskMessage;
use crate::tasks::TaskMessageView;
use crate::tasks::TaskParamType;
use crate::tasks_misc::spec_tool_name;
use crate::tasks_misc::tool_name;

verus! {

/// What turning a shortcut name into a file-system-safe slug yields: what
/// `slug::slugify` computes, a function of the name alone.
pub uninterp spec fn slug_of(s: Seq<char>) -> Seq<char>;

/// Relies on `slug::slugify`: the slug is a function of the name alone.
#[verifier::external_body]
fn slugify(s: &str) -> (r: String)
    ensures
        r@ == slug_of(s@),
{
    slug::slugify(s)
}

/// The file a shortcut artifact is written to.
pub open spec fn spec_shortcut_file(dir: Seq<char>, sc: PackageShortcutView) -> Seq<char> {
    dir + "/"@ + slug_of(sc.name) + ".desktop"@
}

/// The launcher arguments a shortcut carries.
pub open spec fn spec_shortcut_args(exe_path: Seq<char>) -> Seq<char> {
    "--launcher \""@ + exe_path + "\""@
}

/// The shortcut-creation request for one configured shortcut.
pub open spec fn spec_shortcut_effect(
    path: Seq<char>,
    tool: Seq<char>,
    dir: Seq<char>,
    sc: PackageShortcutView,
) -> EffectView {
    EffectView::CreateShortcut {
        path: spec_shortcut_file(dir, sc),
        name: sc.name,
        description: sc.description,
        target: tool,
        args: spec_shortcut_args(path + "/"@ + sc.relative_path),
        working_dir: path,
        exe_path: path + "/"@ + sc.relative_path,
    }
}

/// The creation requests for the first `i` configured shortcuts.
pub open spec fn spec_shortcut_effects(
    shortcuts: Seq<PackageShortcutView>,
    path: Seq<char>,
    tool: Seq<char>,
    dir: Seq<char>,
    i: int,
) -> Seq<EffectView>
    decreases i,
{
    if i <= 0 {
        Seq::empty()
    } else {
        spec_shortcut_effects(shortcuts, path, tool, dir, i - 1).push(
            spec_shortcut_effect(path, tool, dir, shortcuts[i - 1]),
        )
    }
}

/// The artifact files of the first `i` configured shortcuts.
pub open spec fn spec_shortcut_files(
    shortcuts: Seq<PackageShortcutView>,
    dir: Seq<char>,
    i: int,
) -> Seq<Seq<char>>
    decreases i,
{
    if i <= 0 {
        Seq::empty()
    } else {
        spec_shortcut_files(shortcuts, dir, i - 1).push(
            spec_shortcut_file(dir, shortcuts[i - 1]),
        )
    }
}

/// Requests creation of every configured shortcut of `desc`, handing back
/// the artifact file paths.
#[verifier::loop_isolation(false)]
fn generate_shortcuts(
    desc: &PackageDescription,
    path: &str,
    dir: &str,
    is_windows: bool,
    context: &mut InstallerFramework,
) -> (r: Vec<String>)
    ensures
        final(context)@ == (InstallerFrameworkView {
            effects: old(context)@.effects + spec_shortcut_effects(
                desc@.shortcuts,
                path@,
                path@ + "/"@ + spec_tool_name(is_windows),
                dir@,
                desc@.shortcuts.len() as int,
            ),
            ..old(context)@
        }),
        views_of(r@) == spec_shortcut_files(desc@.shortcuts, dir@, desc@.shortcuts.len() as int),
{
    let tool = path_join(path, tool_name(is_windows));
    let mut files: Vec<String> = Vec::new();
    let mut i: usize = 0;
    proof {
        assert(old(context)@.effects + Seq::<EffectView>::empty() =~= old(context)@.effects);
        assert(context@ =~~= (InstallerFrameworkView {
            effects: old(context)@.effects + spec_shortcut_effects(
                desc@.shortcuts,
                path@,
                path@ + "/"@ + spec_tool_name(is_windows),
                dir@,
                0,
            ),
            ..old(context)@
        }));
    }
    while i < desc.shortcuts.len()
        invariant
            i <= desc.shortcuts@.len(),
            tool@ == path@ + "/"@ + spec_tool_name(is_windows),
            context@ == (InstallerFrameworkView {
                effects: old(context)@.effects + spec_shortcut_effects(
                    desc@.shortcuts,
                    path@,
                    path@ + "/"@ + spec_tool_name(is_windows),
                    dir@,
                    i as int,
                ),
                ..old(context)@
            }),
            views_of(files@) =~= spec_shortcut_files(desc@.shortcuts, dir@, i as int),
        decreases desc.shortcuts@.len() - i,
    {
        let sc = &desc.shortcuts[i];
        proof {
            assert(desc@.shortcuts[i as int] == desc.shortcuts@[i as int]@);
        }
        let exe_path = path_join(path, sc.relative_path.as_str());
        let mut args = String::from_str("--launcher \"");
        args.append(exe_path.as_str());
        args.append("\"");
        let mut file = dir.to_owned();
        file.append("/");
        file.append(slugify(sc.name.as_str()).as_str());
        file.append(".desktop");
        files.push(file.clone());
        context.push_effect(
            Effect::CreateShortcut {
                path: file,
                name: sc.name.clone(),
                description: sc.description.clone(),
                target: tool.clone(),
                args,
                working_dir: path.to_owned(),
                exe_path,
            },
        );
        proof {
            assert(context@ =~~= (InstallerFrameworkView {
                effects: old(context)@.effects + spec_shortcut_effects(
                    desc@.shortcuts,
                    path@,
                    path@ + "/"@ + spec_tool_name(is_windows),
                    dir@,
                    i as int + 1,
                ),
                ..old(context)@
            }));
            assert(views_of(files@) =~= spec_shortcut_files(
                desc@.shortcuts,
                dir@,
                i as int + 1,
            ));
        }
        i = i + 1;
    }
    files
}

/// Generates the configured shortcuts for a specified package.
#[derive(Debug)]
pub struct InstallShortcutsTask {
    pub name: String,
}

impl InstallShortcutsTask {
    pub open spec fn spec_name(&self) -> Seq<char> {
        "InstallShortcutsTask (for "@ + self.name@ + ")"@
    }

    /// The step: it requests creation of each shortcut the
    /// configuration describes for the package, and hands back the
    /// artifact paths; it fails when the package or the shortcut
    /// directory is unknown.
    pub open spec fn step(
        &self,
        input: Seq<ParamView>,
        ctx: InstallerFrameworkView,
    ) -> StepOutcome {
        let m = TaskMessageView::Display {
            text: "Generating shortcuts for package "@ + self.name@ + "..."@,
            progress: Progress::spec_zero(),
        };
        match ctx.install_path {
            Option::None => StepOutcome {
                context: ctx,
                result: Err("No install path specified"@),
                messages: seq![m],
            },
            Option::Some(path) => match ctx.config {
                Option::None => StepOutcome {
                    context: ctx,
                    result: Err("Should have packages by now"@),
                    messages: seq![m],
                },
                Option::Some(cfg) => match spec_find_package(cfg.packages, self.name@) {
                    Option::None => StepOutcome {
                        context: ctx,
                        result: Err("Package "@ + self.name@ + " could not be found."@),
                        messages: seq![m],
                    },
                    Option::Some(desc) => match ctx.env.shortcut_dir {
                        Option::None => StepOutcome {
                            context: ctx,
                            result: Err("Unable to determine local data directory"@),
                            messages: seq![m],
                        },
                        Option::Some(dir) => StepOutcome {
                            context: InstallerFrameworkView {
                                effects: ctx.effects + spec_shortcut_effects(
                                    desc.shortcuts,
                                    path,
                                    path + "/"@ + spec_tool_name(ctx.env.is_windows),
                                    dir,
                                    desc.shortcuts.len() as int,
                                ),
                                ..ctx
                            },
                            result: Ok(
                                ParamView::GeneratedShortcuts(
                                    spec_shortcut_files(
                                        desc.shortcuts,
                                        dir,
                                        desc.shortcuts.len() as int,
                                    ),
                                ),
                            ),
                            messages: seq![m],
                        },
                    },
                },
            },
        }
    }

    pub fn run(
        &self,
        input: Vec<TaskParamType>,
        context: &mut InstallerFramework,
        log: &mut MessageLog,
    ) -> (r: Result<TaskParamType, String>)
        ensures
            step_matches(
                self.step(views_of(input@), old(context)@),
                r,
                final(context)@,
                old(log)@,
                final(log)@,
            ),
    {
        let mut t = String::from_str("Generating shortcuts for package ");
        t.append(self.name.as_str());
        t.append("...");
        log.display(t, Progress::zero());
        proof {
            assert(log@ =~= old(log)@ + self.step(views_of(input@), old(context)@).messages);
        }
        let path = match &context.install_path {
            Option::Some(p) => p.clone(),
            Option::None => {
                return Err(String::from_str("No install path specified"));
            },
        };
        let desc = match &context.config {
            Option::Some(cfg) => crate::config::find_package(&cfg.packages, self.name.as_str()),
            Option::None => {
                return Err(String::from_str("Should have packages by now"));
            },
        };
        let desc = match desc {
            Option::Some(d) => d,
            Option::None => {
                let mut e = String::from_str("Package ");
                e.append(self.name.as_str());
                e.append(" could not be found.");
                return Err(e);
            },
        };
        let dir = match &context.env.shortcut_dir {
            Option::Some(d) => d.clone(),
            Option::None => {
                return Err(String::from_str("Unable to determine local data directory"));
            },
        };
        let is_windows = context.env.is_windows;
        let files = generate_shortcuts(&desc, path.as_str(), dir.as_str(), is_windows, context);
        proof {
            assert(context@ =~~= self.step(views_of(input@), old(context)@).context);
        }
        Ok(TaskParamType::GeneratedShortcuts(files))
    }
}

/// Generates desktop shortcuts for a specified package, when asked to.
#[derive(Debug)]
pub struct InstallDesktopShortcutTask {
    pub name: String,
    pub should_run: bool,
}

impl InstallDesktopShortcutTask {
    pub open spec fn spec_name(&self) -> Seq<char> {
        if self.should_run {
            "InstallDesktopShortcutTask (for "@ + self.name@ + ", should_run = true)"@
        } else {
            "InstallDesktopShortcutTask (for "@ + self.name@ + ", should_run = false)"@
        }
    }

    /// The package records with the artifact files appended to the
    /// matching package's tracked shortcuts.
    pub open spec fn spec_extend_shortcuts(
        packages: Seq<LocalInstallationView>,
        name: Seq<char>,
        files: Seq<Seq<char>>,
    ) -> Seq<LocalInstallationView> {
        Seq::new(
            packages.len(),
            |i: int|
                if packages[i].name == name {
                    LocalInstallationView { shortcuts: packages[i].shortcuts + files, ..packages[i] }
                } else {
                    packages[i]
                },
        )
    }

    /// The step: nothing when not asked to run; otherwise the same
    /// shortcut generation as the ordinary shortcut task, under the
    /// desktop message, also recording the artifacts in the matching
    /// package's database entry.
    pub open spec fn step(
        &self,
        input: Seq<ParamView>,
        ctx: InstallerFrameworkView,
    ) -> StepOutcome {
        if !self.should_run {
            StepOutcome {
                context: ctx,
                result: Ok(ParamView::GeneratedShortcuts(Seq::empty())),
                messages: Seq::empty(),
            }
        } else {
            let m = TaskMessageView::Display {
                text: "Generating desktop shortcuts for package "@ + self.name@ + "..."@,
                progress: Progress::spec_zero(),
            };
            match ctx.install_path {
                Option::None => StepOutcome {
                    context: ctx,
                    result: Err("No install path specified"@),
                    messages: seq![m],
                },
                Option::Some(path) => match ctx.config {
                    Option::None => StepOutcome {
                        context: ctx,
                        result: Err("Should have packages by now"@),
                        messages: seq![m],
                    },
                    Option::Some(cfg) => match spec_find_package(cfg.packages, self.name@) {
                        Option::None => StepOutcome {
                            context: ctx,
                            result: Err(
                                "Package "@ + self.name@ + " could not be found."@,
                            ),
                            messages: seq![m],
                        },
                        Option::Some(desc) => match ctx.env.shortcut_dir {
                            Option::None => StepOutcome {
                                context: ctx,
                                result: Err("Unable to determine local data directory"@),
                                messages: seq![m],
                            },
                            Option::Some(dir) => {
                                let files = spec_shortcut_files(
                                    desc.shortcuts,
                                    dir,
                                    desc.shortcuts.len() as int,
                                );
                                StepOutcome {
                                    context: InstallerFrameworkView {
                                        database: crate::installer::InstallationDatabaseView {
                                            packages: Self::spec_extend_shortcuts(
                                                ctx.database.packages,
                                                self.name@,
                                                files,
                                            ),
                                            ..ctx.database
                                        },
                                        effects: ctx.effects + spec_shortcut_effects(
                                            desc.shortcuts,
                                            path,
                                            path + "/"@ + spec_tool_name(ctx.env.is_windows),
                                            dir,
                                            desc.shortcuts.len() as int,
                                        ),
                                        ..ctx
                                    },
                                    result: Ok(ParamView::GeneratedShortcuts(files)),
                                    messages: seq![m],
                                }
                            },
                        },
                    },
                },
            }
        }
    }

    #[verifier::loop_isolation(false)]
    #[verifier::rlimit(60)]
    pub fn run(
        &self,
        input: Vec<TaskParamType>,
        context: &mut InstallerFramework,
        log: &mut MessageLog,
    ) -> (r: Result<TaskParamType, String>)
        ensures
            step_matches(
                self.step(views_of(input@), old(context)@),
                r,
                final(context)@,
                old(log)@,
                final(log)@,
            ),
    {
        if !self.should_run {
            proof {
                assert(log@ =~= old(log)@ + Seq::<TaskMessageView>::empty());
                assert(views_of(Seq::<String>::empty()) =~= Seq::<Seq<char>>::empty());
            }
            let empty: Vec<String> = Vec::new();
            proof {
                assert(views_of(empty@) =~= Seq::<Seq<char>>::empty());
            }
            return Ok(TaskParamType::GeneratedShortcuts(empty));
        }
        let mut t = String::from_str("Generating desktop shortcuts for package ");
        t.append(self.name.as_str());
        t.append("...");
        log.display(t, Progress::zero());
        proof {
            assert(log@ =~= old(log)@ + self.step(views_of(input@), old(context)@).messages);
        }
        let path = match &context.install_path {
            Option::Some(p) => p.clone(),
            Option::None => {
                return Err(String::from_str("No install path specified"));
            },
        };
        let desc = match &context.config {
            Option::Some(cfg) => crate::config::find_package(&cfg.packages, self.name.as_str()),
            Option::None => {
                return Err(String::from_str("Should have packages by now"));
            },
        };
        let desc = match desc {
            Option::Some(d) => d,
            Option::None => {
                let mut e = String::from_str("Package ");
                e.append(self.name.as_str());
                e.append(" could not be found.");
                return Err(e);
            },
        };
        let dir = match &context.env.shortcut_dir {
            Option::Some(d) => d.clone(),
            Option::None => {
                return Err(String::from_str("Unable to determine local data directory"));
            },
        };
        let is_windows = context.env.is_windows;
        let files = generate_shortcuts(&desc, path.as_str(), dir.as_str(), is_windows, context);
        let ghost fviews = views_of(files@);
        let mut updated: Vec<LocalInstallation> = Vec::new();
        let mut i: usize = 0;
        while i < context.database.packages.len()
            invariant
                i <= context.database.packages@.len(),
                updated@.len() == i,
                forall|j: int|
                    0 <= j < i ==> #[trigger] updated@[j]@ == Self::spec_extend_shortcuts(
                        views_of(context.database.packages@),
                        self.name@,
                        fviews,
                    )[j],
            decreases context.database.packages@.len() - i,
        {
            let record = &context.database.packages[i];
            if crate::strutil::str_eq(record.name.as_str(), self.name.as_str()) {
                let mut extended = record.duplicate();
                let mut k: usize = 0;
                while k < files.len()
                    invariant
                        k <= files@.len(),
                        i < context.database.packages@.len(),
                        extended@.name == context.database.packages@[i as int]@.name,
                        extended@.version == context.database.packages@[i as int]@.version,
                        extended@.files == context.database.packages@[i as int]@.files,
                        extended@.shortcuts =~= context.database.packages@[
                            i as int]@.shortcuts + fviews.take(k as int),
                    decreases files@.len() - k,
                {
                    let ghost before = views_of(extended.shortcuts@);
                    extended.shortcuts.push(files[k].clone());
                    proof {
                        assert(fviews[k as int] == files@[k as int]@);
                        assert(views_of(extended.shortcuts@) =~= before.push(fviews[k as int]));
                        assert(fviews.take(k as int + 1) =~= fviews.take(k as int).push(
                            fviews[k as int],
                        ));
                        assert(views_of(extended.shortcuts@) =~= context.database.packages@[
                            i as int]@.shortcuts + fviews.take(k as int + 1));
                    }
                    k = k + 1;
                }
                proof {
                    assert(fviews.take(files@.len() as int) =~= fviews);
                    assert(extended@ =~~= Self::spec_extend_shortcuts(
                        views_of(context.database.packages@),
                        self.name@,
                        fviews,
                    )[i as int]);
                }
                updated.push(extended);
            } else {
                proof {
                    assert(context.database.packages@[i as int]@
                        =~~= Self::spec_extend_shortcuts(
                        views_of(context.database.packages@),
                        self.name@,
                        fviews,
                    )[i as int]);
                }
                updated.push(context.database.packages[i].duplicate());
            }
            i = i + 1;
        }
        context.database.packages = updated;
        proof {
            assert(views_of(context.database.packages@) =~= Self::spec_extend_shortcuts(
                views_of(old(context).database.packages@),
                self.name@,
                fviews,
            ));
            assert(context@ =~~= self.step(views_of(input@), old(context)@).context);
        }
        Ok(TaskParamType::GeneratedShortcuts(files))
    }
}

/// Generates the global maintenance-tool shortcut and tracks it.
#[derive(Debug)]
pub struct InstallGlobalShortcutsTask {}

impl InstallGlobalShortcutsTask {
    pub open spec fn spec_name(&self) -> Seq<char> {
        "InstallGlobalShortcutsTask"@
    }

    /// The name under which the maintenance tool's shortcut appears.
    pub open spec fn spec_tool_shortcut_name(app: Seq<char>) -> Seq<char> {
        app + " Maintenance Tool"@
    }

    /// The step: it requests one shortcut for the maintenance
    /// tool itself and tracks the artifact path as a global shortcut.
    pub open spec fn step(
        &self,
        input: Seq<ParamView>,
        ctx: InstallerFrameworkView,
    ) -> StepOutcome {
        let m = TaskMessageView::Display {
            text: "Generating global shortcut..."@,
            progress: Progress::spec_zero(),
        };
        match ctx.install_path {
            Option::None => StepOutcome {
                context: ctx,
                result: Err("No install path specified"@),
                messages: seq![m],
            },
            Option::Some(path) => match ctx.env.shortcut_dir {
                Option::None => StepOutcome {
                    context: ctx,
                    result: Err("Unable to determine local data directory"@),
                    messages: seq![m],
                },
                Option::Some(dir) => {
                    let sname = Self::spec_tool_shortcut_name(ctx.base_attributes.name);
                    let tool = path + "/"@ + spec_tool_name(ctx.env.is_windows);
                    let file = dir + "/"@ + slug_of(sname) + ".desktop"@;
                    let effect = EffectView::CreateShortcut {
                        path: file,
                        name: sname,
                        description: "Launch the "@ + ctx.base_attributes.name
                            + " Maintenance Tool to update, modify and uninstall the application."@,
                        target: tool,
                        args: Seq::empty(),
                        working_dir: path,
                        exe_path: Seq::empty(),
                    };
                    StepOutcome {
                        context: InstallerFrameworkView {
                            database: crate::installer::InstallationDatabaseView {
                                shortcuts: ctx.database.shortcuts.push(file),
                                ..ctx.database
                            },
                            effects: ctx.effects.push(effect),
                            ..ctx
                        },
                        result: Ok(ParamView::Empty),
                        messages: seq![m],
                    }
                },
            },
        }
    }

    pub fn run(
        &self,
        input: Vec<TaskParamType>,
        context: &mut InstallerFramework,
        log: &mut MessageLog,
    ) -> (r: Result<TaskParamType, String>)
        ensures
            step_matches(
                self.step(views_of(input@), old(context)@),
                r,
                final(context)@,
                old(log)@,
                final(log)@,
            ),
    {
        log.display(String::from_str("Generating global shortcut..."), Progress::zero());
        proof {
            assert(log@ =~= old(log)@ + self.step(views_of(input@), old(context)@).messages);
        }
        let path = match &context.install_path {
            Option::Some(p) => p.clone(),
            Option::None => {
                return Err(String::from_str("No install path specified"));
            },
        };
        let dir = match &context.env.shortcut_dir {
            Option::Some(d) => d.clone(),
            Option::None => {
                return Err(String::from_str("Unable to determine local data directory"));
            },
        };
        let mut sname = context.base_attributes.name.clone();
        sname.append(" Maintenance Tool");
        let tool = path_join(path.as_str(), tool_name(context.env.is_windows));
        let mut file = dir.clone();
        file.append("/");
        file.append(slugify(sname.as_str()).as_str());
        file.append(".desktop");
        let mut description = String::from_str("Launch the ");
        description.append(context.base_attributes.name.as_str());
        description.append(" Maintenance Tool to update, modify and uninstall the application.");
        context.database.shortcuts.push(file.clone());
        let ghost mid = context@;
        context.push_effect(
            Effect::CreateShortcut {
                path: file,
                name: sname,
                description,
                target: tool,
                args: String::new(),
                working_dir: path,
                exe_path: String::new(),
            },
        );
        proof {
            assert(context@ =~~= self.step(views_of(input@), old(context)@).context);
        }
        Ok(TaskParamType::Empty)
    }
}

/// Wraps up an installation: its real work happens in its dependencies.
#[derive(Debug)]
pub struct InstallTask {
    pub items: Vec<String>,
    pub uninstall_items: Vec<String>,
    pub fresh_install: bool,
}

impl InstallTask {
    pub open spec fn spec_name(&self) -> Seq<char> {
        "InstallTask"@
    }

    /// The step of the aggregate itself once its dependencies have run: it
    /// reports that it is wrapping up, then completion.
    pub open spec fn step(
        &self,
        input: Seq<ParamView>,
        ctx: InstallerFrameworkView,
    ) -> StepOutcome {
        StepOutcome {
            context: ctx,
            result: Ok(ParamView::Empty),
            messages: seq![
                TaskMessageView::Display {
                    text: "Wrapping up..."@,
                    progress: Progress::spec_zero(),
                },
                TaskMessageView::Display {
                    text: "Wrapping up..."@,
                    progress: Progress::spec_one(),
                },
            ],
        }
    }

    pub fn run(
        &self,
        input: Vec<TaskParamType>,
        context: &mut InstallerFramework,
        log: &mut MessageLog,
    ) -> (r: Result<TaskParamType, String>)
        ensures
            step_matches(
                self.step(views_of(input@), old(context)@),
                r,
                final(context)@,
                old(log)@,
                final(log)@,
            ),
    {
        log.display(String::from_str("Wrapping up..."), Progress::zero());
        log.display(String::from_str("Wrapping up..."), Progress::one());
        proof {
            assert(log@ =~= old(log)@ + self.step(views_of(input@), old(context)@).messages);
        }
        Ok(TaskParamType::Empty)
    }
}


/// The tracked paths and requested effects of an extraction in progress.
#[verifier::ext_equal]
pub struct WalkState {
    pub files: Seq<Seq<char>>,
    pub effects: Seq<EffectView>,
    pub messages: Seq<TaskMessageView>,
}

/// Tracks the first `k` ancestors of an entry: each not yet tracked is
/// recorded and its creation requested, nearest ancestor first.
pub open spec fn spec_add_parents(
    files: Seq<Seq<char>>,
    effects: Seq<EffectView>,
    parents: Seq<Seq<char>>,
    base: Seq<char>,
    k: int,
) -> (Seq<Seq<char>>, Seq<EffectView>)
    decreases k,
{
    if k <= 0 {
        (files, effects)
    } else {
        let prev = spec_add_parents(files, effects, parents, base, k - 1);
        let p = parents[k - 1];
        if spec_contains_string(prev.0, p) {
            prev
        } else {
            (prev.0.push(p), prev.1.push(EffectView::CreateDirAll(base + "/"@ + p)))
        }
    }
}

/// The extraction of the first `j` archive entries: each entry's path is
/// cleaned, its missing ancestor directories are tracked and requested
/// once each in first-seen order, the file itself is tracked once and its
/// write requested, and one progress message is reported per entry.
pub open spec fn spec_install_walk(
    entries: Seq<ArchiveEntryView>,
    base: Seq<char>,
    j: int,
) -> WalkState
    decreases j,
{
    if j <= 0 {
        WalkState { files: Seq::empty(), effects: Seq::empty(), messages: Seq::empty() }
    } else {
        let prev = spec_install_walk(entries, base, j - 1);
        let entry = entries[j - 1];
        let cleaned = spec_clean(spec_components(entry.name));
        let sname = spec_join(cleaned);
        let parents = spec_ancestors(cleaned);
        let added = spec_add_parents(
            prev.files,
            prev.effects,
            parents,
            base,
            parents.len() as int,
        );
        let files = if spec_contains_string(added.0, sname) {
            added.0
        } else {
            added.0.push(sname)
        };
        let effects = added.1.push(
            EffectView::WriteFile { path: base + "/"@ + sname, data: entry.data },
        );
        let m = TaskMessageView::Display {
            text: "Extracting "@ + sname,
            progress: Progress::spec_of_ratio(j - 1, entries.len() as int),
        };
        WalkState { files, effects, messages: prev.messages.push(m) }
    }
}

/// The progress reports of an extraction walk: one per entry, at the
/// entry's position among all entries.
pub proof fn lemma_walk_messages(entries: Seq<ArchiveEntryView>, base: Seq<char>, j: int)
    requires
        0 <= j <= entries.len(),
    ensures
        spec_install_walk(entries, base, j).messages.len() == j,
        forall|k: int|
            0 <= k < j ==> ((#[trigger] spec_install_walk(entries, base, j).messages[k])
                matches TaskMessageView::Display { progress, .. } && progress
                == Progress::spec_of_ratio(k, entries.len() as int)),
    decreases j,
{
    if j > 0 {
        lemma_walk_messages(entries, base, j - 1);
        assert(forall|k: int|
            0 <= k < j - 1 ==> spec_install_walk(entries, base, j).messages[k]
                == spec_install_walk(entries, base, j - 1).messages[k]);
    }
}

/// Installs a specific package: extracts the downloaded archive into the
/// install directory and appends a record of everything created.
#[derive(Debug)]
pub struct InstallPackageTask {
    pub name: String,
}

impl InstallPackageTask {
    pub open spec fn spec_name(&self) -> Seq<char> {
        "InstallPackageTask (for "@ + self.name@ + ")"@
    }

    /// The step, given the downloaded file contents and the
    /// generated shortcuts: it unwinds silently when the download broke,
    /// and otherwise decodes the archive, requests the directory
    /// creations and file writes of every entry while tracking each
    /// created path exactly once in first-seen order, and appends a
    /// package record holding the resolved version, the tracked paths and
    /// the shortcut artifacts.
    pub open spec fn step(
        &self,
        input: Seq<ParamView>,
        ctx: InstallerFrameworkView,
    ) -> StepOutcome {
        let m0 = TaskMessageView::Display {
            text: "Installing package "@ + self.name@ + "..."@,
            progress: Progress::spec_zero(),
        };
        match ctx.install_path {
            Option::None => StepOutcome {
                context: ctx,
                result: Err("No install path specified"@),
                messages: seq![m0],
            },
            Option::Some(path) => match ctx.config {
                Option::None => StepOutcome {
                    context: ctx,
                    result: Err("Should have packages by now"@),
                    messages: seq![m0],
                },
                Option::Some(cfg) => match spec_find_package(cfg.packages, self.name@) {
                    Option::None => StepOutcome {
                        context: ctx,
                        result: Err("Package "@ + self.name@ + " could not be found."@),
                        messages: seq![m0],
                    },
                    Option::Some(desc) => {
                        if input.len() == 0 {
                            StepOutcome {
                                context: ctx,
                                result: Err("Unexpected input to install package"@),
                                messages: seq![m0],
                            }
                        } else if input.last() is Break {
                            StepOutcome {
                                context: ctx,
                                result: Ok(ParamView::Empty),
                                messages: seq![m0],
                            }
                        } else if !(input.last() is GeneratedShortcuts) {
                            StepOutcome {
                                context: ctx,
                                result: Err(
                                    "Unexpected shortcuts param type to install package"@,
                                ),
                                messages: seq![m0],
                            }
                        } else if input.len() != 3 {
                            StepOutcome {
                                context: ctx,
                                result: Err("Unexpected input to install package"@),
                                messages: seq![m0],
                            }
                        } else if !(input[0] is FileContents) {
                            StepOutcome {
                                context: ctx,
                                result: Err(
                                    "Unexpected file contents param type to install package"@,
                                ),
                                messages: seq![m0],
                            }
                        } else {
                            let shortcuts = input.last()->GeneratedShortcuts_0;
                            let version = input[0]->FileContents_0;
                            let file = input[0]->FileContents_1;
                            let data = input[0]->FileContents_2;
                            match spec_read_archive(file.name, data) {
                                Result::Err(e) => StepOutcome {
                                    context: ctx,
                                    result: Err(e),
                                    messages: seq![m0],
                                },
                                Result::Ok(entries) => {
                                    let walk = spec_install_walk(
                                        entries,
                                        path,
                                        entries.len() as int,
                                    );
                                    StepOutcome {
                                        context: InstallerFrameworkView {
                                            database: crate::installer::InstallationDatabaseView {
                                                packages: ctx.database.packages.push(
                                                    LocalInstallationView {
                                                        name: desc.name,
                                                        version,
                                                        files: walk.files,
                                                        shortcuts,
                                                    },
                                                ),
                                                ..ctx.database
                                            },
                                            effects: ctx.effects + walk.effects,
                                            ..ctx
                                        },
                                        result: Ok(ParamView::Empty),
                                        messages: seq![m0] + walk.messages + seq![
                                            TaskMessageView::PackageInstalled,
                                        ],
                                    }
                                },
                            }
                        }
                    },
                },
            },
        }
    }

    #[verifier::loop_isolation(false)]
    #[verifier::rlimit(90)]
    pub fn run(
        &self,
        input: Vec<TaskParamType>,
        context: &mut InstallerFramework,
        log: &mut MessageLog,
    ) -> (r: Result<TaskParamType, String>)
        ensures
            step_matches(
                self.step(views_of(input@), old(context)@),
                r,
                final(context)@,
                old(log)@,
                final(log)@,
            ),
    {
        let ghost iviews = views_of(input@);
        let mut t = String::from_str("Installing package ");
        t.append(self.name.as_str());
        t.append("...");
        log.display(t, Progress::zero());
        proof {
            let s = self.step(iviews, old(context)@);
            assert(s.messages.len() >= 1);
            assert(log@ =~= old(log)@ + seq![s.messages[0]]);
        }
        let path = match &context.install_path {
            Option::Some(p) => p.clone(),
            Option::None => {
                return Err(String::from_str("No install path specified"));
            },
        };
        let desc = match &context.config {
            Option::Some(cfg) => crate::config::find_package(&cfg.packages, self.name.as_str()),
            Option::None => {
                return Err(String::from_str("Should have packages by now"));
            },
        };
        let desc = match desc {
            Option::Some(d) => d,
            Option::None => {
                let mut e = String::from_str("Package ");
                e.append(self.name.as_str());
                e.append(" could not be found.");
                return Err(e);
            },
        };
        let mut input = input;
        if input.len() == 0 {
            return Err(String::from_str("Unexpected input to install package"));
        }
        let last = input.pop().unwrap();
        proof {
            assert(last@ == iviews.last());
        }
        let shortcut_files = match last {
            TaskParamType::Break => {
                return Ok(TaskParamType::Empty);
            },
            TaskParamType::GeneratedShortcuts(files) => files,
            _ => {
                return Err(String::from_str("Unexpected shortcuts param type to install package"));
            },
        };
        if input.len() != 2 {
            return Err(String::from_str("Unexpected input to install package"));
        }
        let data_param = input.remove(0);
        proof {
            assert(data_param@ == iviews[0]);
        }
        let (version, file, data) = match data_param {
            TaskParamType::FileContents(v, f, d) => (v, f, d),
            _ => {
                return Err(
                    String::from_str("Unexpected file contents param type to install package"),
                );
            },
        };
        let entries = match crate::archives::read_archive(file.name.as_str(), &data) {
            Result::Ok(es) => es,
            Result::Err(e) => {
                return Err(e);
            },
        };
        let ghost eviews = views_of(entries@);
        let ghost pv = path@;
        let ghost ctx1 = context@;
        let ghost logmid = log@;
        let mut installed: Vec<String> = Vec::new();
        let n = entries.len();
        let mut j: usize = 0;
        proof {
            assert(views_of(installed@) =~= spec_install_walk(eviews, pv, 0).files);
            assert(ctx1.effects + spec_install_walk(eviews, pv, 0).effects =~= ctx1.effects);
            assert(context@ =~~= (InstallerFrameworkView {
                effects: ctx1.effects + spec_install_walk(eviews, pv, 0).effects,
                ..ctx1
            }));
            assert(log@ =~= logmid + spec_install_walk(eviews, pv, 0).messages);
        }
        while j < n
            invariant
                j <= n,
                n == entries@.len(),
                eviews == views_of(entries@),
                pv == path@,
                ({
                    let w = spec_install_walk(eviews, pv, j as int);
                    &&& views_of(installed@) == w.files
                    &&& context@ == (InstallerFrameworkView {
                        effects: ctx1.effects + w.effects,
                        ..ctx1
                    })
                    &&& log@ == logmid + w.messages
                }),
            decreases n - j,
        {
            let ghost w = spec_install_walk(eviews, pv, j as int);
            proof {
                assert(eviews[j as int] == entries@[j as int]@);
            }
            let raw = crate::strutil::split_components(entries[j].name.as_str());
            let comps = crate::strutil::clean_components(raw);
            let sname = crate::strutil::join_components(&comps);
            let parents = crate::strutil::ancestors(&comps);
            let ghost parentviews = views_of(parents@);
            let ghost cleaned = spec_clean(spec_components(eviews[j as int].name));
            proof {
                assert(views_of(comps@) == cleaned);
                assert(parentviews == spec_ancestors(cleaned));
                assert(sname@ == spec_join(cleaned));
            }
            let mut k: usize = 0;
            proof {
                assert(spec_add_parents(w.files, w.effects, parentviews, pv, 0) == (
                    w.files,
                    w.effects,
                ));
            }
            while k < parents.len()
                invariant
                    k <= parents@.len(),
                    parentviews == views_of(parents@),
                    ({
                        let added = spec_add_parents(
                            w.files,
                            w.effects,
                            parentviews,
                            pv,
                            k as int,
                        );
                        &&& views_of(installed@) == added.0
                        &&& context@ == (InstallerFrameworkView {
                            effects: ctx1.effects + added.1,
                            ..ctx1
                        })
                    }),
                    log@ == logmid + w.messages,
                decreases parents@.len() - k,
            {
                proof {
                    assert(parentviews[k as int] == parents@[k as int]@);
                }
                if !vec_contains_string(&installed, parents[k].as_str()) {
                    installed.push(parents[k].clone());
                    context.push_effect(
                        Effect::CreateDirAll(path_join(path.as_str(), parents[k].as_str())),
                    );
                    proof {
                        let added = spec_add_parents(
                            w.files,
                            w.effects,
                            parentviews,
                            pv,
                            k as int + 1,
                        );
                        assert(views_of(installed@) =~= added.0);
                        assert(ctx1.effects + added.1 =~= (ctx1.effects + spec_add_parents(
                            w.files,
                            w.effects,
                            parentviews,
                            pv,
                            k as int,
                        ).1).push(EffectView::CreateDirAll(pv + "/"@ + parentviews[k as int])));
                        assert(context@ =~~= (InstallerFrameworkView {
                            effects: ctx1.effects + added.1,
                            ..ctx1
                        }));
                    }
                }
                k = k + 1;
            }
            let ghost added = spec_add_parents(
                w.files,
                w.effects,
                parentviews,
                pv,
                parentviews.len() as int,
            );
            if !vec_contains_string(&installed, sname.as_str()) {
                installed.push(sname.clone());
                proof {
                    assert(views_of(installed@) =~= added.0.push(sname@));
                }
            }
            context.push_effect(
                Effect::WriteFile {
                    path: path_join(path.as_str(), sname.as_str()),
                    data: crate::strutil::clone_bytes(&entries[j].data),
                },
            );
            let mut msg = String::from_str("Extracting ");
            msg.append(sname.as_str());
            log.display(msg, Progress::ratio(j as u64, n as u64));
            proof {
                let w1 = spec_install_walk(eviews, pv, j as int + 1);
                assert(views_of(installed@) =~= w1.files);
                assert(ctx1.effects + w1.effects =~= (ctx1.effects + added.1).push(
                    EffectView::WriteFile { path: pv + "/"@ + sname@, data: eviews[j as int].data },
                ));
                assert(context@ =~~= (InstallerFrameworkView {
                    effects: ctx1.effects + w1.effects,
                    ..ctx1
                }));
                assert(log@ =~= logmid + w1.messages);
            }
            j = j + 1;
        }
        let ghost walk = spec_install_walk(eviews, pv, n as int);
        context.database.packages.push(
            LocalInstallation {
                name: desc.name,
                version,
                files: installed,
                shortcuts: shortcut_files,
            },
        );
        log.push(TaskMessage::PackageInstalled);
        proof {
            let s = self.step(iviews, old(context)@);
            assert(context@ =~~= s.context);
            assert(log@ =~= old(log)@ + s.messages);
        }
        Ok(TaskParamType::Empty)
    }
}

} // verus!
