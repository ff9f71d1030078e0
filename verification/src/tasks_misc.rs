//! Housekeeping tasks: persisting the database, copying the installer
//! binary, checking the installation directory and the running processes,
//! and wiring the launch-on-exit behaviour.

use vstd::prelude::*;

use crate::config::spec_find_package;
use crate::installer::spec_with_effect;
use crate::installer::Effect;
use crate::installer::EffectView;
use crate::installer::InstallerFramework;
use crate::installer::InstallerFrameworkView;
use crate::installer::LocalInstallationView;
use crate::native::ProcessView;
use crate::progress::Progress;
use crate::strutil::path_join;
use crate::strutil::spec_ends_with;
use crate::strutil::str_ends_with;
use crate::strutil::views_of;
use crate::tasks::step_matches;
use crate::tasks::MessageLog;
use crate::tasks::ParamView;
use crate::tasks::StepOutcome;
use crate::tasks::TaskMessageView;
use crate::tasks::TaskParamType;

verus! {

/// The platform name of the maintenance tool binary.
pub open spec fn spec_tool_name(is_windows: bool) -> Seq<char> {
    if is_windows {
        "maintenancetool.exe"@
    } else {
        "maintenancetool"@
    }
}

/// The platform name of the maintenance tool binary.
pub fn tool_name(is_windows: bool) -> (r: &'static str)
    ensures
        r@ == spec_tool_name(is_windows),
{
    if is_windows {
        "maintenancetool.exe"
    } else {
        "maintenancetool"
    }
}

/// Saves the main database into the installation directory.
#[derive(Debug)]
pub struct SaveDatabaseTask {}

impl SaveDatabaseTask {
    pub open spec fn spec_name(&self) -> Seq<char> {
        "SaveDatabaseTask"@
    }

    /// The step: it reports that it is saving, then records a
    /// request to persist the database as it stands, failing only when no
    /// install directory is configured or when it was handed inputs.
    pub open spec fn step(
        &self,
        input: Seq<ParamView>,
        ctx: InstallerFrameworkView,
    ) -> StepOutcome {
        if input.len() != 0 {
            StepOutcome {
                context: ctx,
                result: Err("Unexpected input to SaveDatabaseTask"@),
                messages: Seq::empty(),
            }
        } else {
            let m = TaskMessageView::Display {
                text: "Saving application database..."@,
                progress: Progress::spec_zero(),
            };
            if ctx.install_path is None {
                StepOutcome {
                    context: ctx,
                    result: Err("No install directory for installer"@),
                    messages: seq![m],
                }
            } else {
                StepOutcome {
                    context: spec_with_effect(ctx, EffectView::SaveDatabase(ctx.database)),
                    result: Ok(ParamView::Empty),
                    messages: seq![m],
                }
            }
        }
    }

    pub fn run(
        &self,
        input: Vec<TaskParamType>,
        context: &mut InstallerFramework,
        log: &mut MessageLog,
    ) -> (r: Result<TaskParamType, String>)
        ensures
            step_matches(
                self.step(views_of(input@), old(context)@),
                r,
                final(context)@,
                old(log)@,
                final(log)@,
            ),
    {
        if input.len() != 0 {
            proof {
                assert(log@ =~= old(log)@ + Seq::<TaskMessageView>::empty());
            }
            return Err(String::from_str("Unexpected input to SaveDatabaseTask"));
        }
        log.display(String::from_str("Saving application database..."), Progress::zero());
        proof {
            assert(log@ =~= old(log)@ + self.step(views_of(input@), old(context)@).messages);
        }
        match context.save_database() {
            Ok(_) => Ok(TaskParamType::Empty),
            Err(e) => Err(e),
        }
    }
}

/// Saves the installer executable into the install directory.
#[derive(Debug)]
pub struct SaveExecutableTask {}

impl SaveExecutableTask {
    pub open spec fn spec_name(&self) -> Seq<char> {
        "SaveExecutableTask"@
    }

    /// The step: it requests that the running installer binary
    /// be copied into the install directory under the maintenance tool
    /// name, failing when no install directory is configured.
    pub open spec fn step(
        &self,
        input: Seq<ParamView>,
        ctx: InstallerFrameworkView,
    ) -> StepOutcome {
        if input.len() != 0 {
            StepOutcome {
                context: ctx,
                result: Err("Unexpected input to SaveExecutableTask"@),
                messages: Seq::empty(),
            }
        } else {
            let m = TaskMessageView::Display {
                text: "Copying installer binary..."@,
                progress: Progress::spec_zero(),
            };
            match ctx.install_path {
                Option::None => StepOutcome {
                    context: ctx,
                    result: Err("No install path specified"@),
                    messages: seq![m],
                },
                Option::Some(path) => StepOutcome {
                    context: spec_with_effect(
                        ctx,
                        EffectView::CopyCurrentExe(
                            path + "/"@ + spec_tool_name(ctx.env.is_windows),
                        ),
                    ),
                    result: Ok(ParamView::Empty),
                    messages: seq![m],
                },
            }
        }
    }

    pub fn run(
        &self,
        input: Vec<TaskParamType>,
        context: &mut InstallerFramework,
        log: &mut MessageLog,
    ) -> (r: Result<TaskParamType, String>)
        ensures
            step_matches(
                self.step(views_of(input@), old(context)@),
                r,
                final(context)@,
                old(log)@,
                final(log)@,
            ),
    {
        if input.len() != 0 {
            proof {
                assert(log@ =~= old(log)@ + Seq::<TaskMessageView>::empty());
            }
            return Err(String::from_str("Unexpected input to SaveExecutableTask"));
        }
        log.display(String::from_str("Copying installer binary..."), Progress::zero());
        proof {
            assert(log@ =~= old(log)@ + self.step(views_of(input@), old(context)@).messages);
        }
        let dest = match &context.install_path {
            Option::Some(path) => path_join(path.as_str(), tool_name(context.env.is_windows)),
            Option::None => {
                return Err(String::from_str("No install path specified"));
            },
        };
        context.push_effect(Effect::CopyCurrentExe(dest));
        Ok(TaskParamType::Empty)
    }
}

/// Verifies properties about the installation directory.
#[derive(Debug)]
pub struct VerifyInstallDirTask {
    pub clean_install: bool,
}

impl VerifyInstallDirTask {
    pub open spec fn spec_name(&self) -> Seq<char> {
        if self.clean_install {
            "VerifyInstallDirTask (with clean-install = true)"@
        } else {
            "VerifyInstallDirTask (with clean-install = false)"@
        }
    }

    /// The step: it requests creation of a missing install
    /// directory, and for a clean install rejects a destination the host
    /// reported as non-empty.
    pub open spec fn step(
        &self,
        input: Seq<ParamView>,
        ctx: InstallerFrameworkView,
    ) -> StepOutcome {
        if input.len() != 0 {
            StepOutcome {
                context: ctx,
                result: Err("Unexpected input to VerifyInstallDirTask"@),
                messages: Seq::empty(),
            }
        } else {
            let m = TaskMessageView::Display {
                text: "Polling installation directory..."@,
                progress: Progress::spec_zero(),
            };
            match ctx.install_path {
                Option::None => StepOutcome {
                    context: ctx,
                    result: Err("No install path specified"@),
                    messages: seq![m],
                },
                Option::Some(path) => {
                    let ctx1 = if !ctx.env.install_dir_exists {
                        spec_with_effect(ctx, EffectView::CreateDirAll(path))
                    } else {
                        ctx
                    };
                    if self.clean_install && ctx.env.install_dir_entry_count != 0 {
                        StepOutcome {
                            context: ctx1,
                            result: Err("Install destination is not empty."@),
                            messages: seq![m],
                        }
                    } else {
                        StepOutcome { context: ctx1, result: Ok(ParamView::Empty), messages: seq![m] }
                    }
                },
            }
        }
    }

    pub fn run(
        &self,
        input: Vec<TaskParamType>,
        context: &mut InstallerFramework,
        log: &mut MessageLog,
    ) -> (r: Result<TaskParamType, String>)
        ensures
            step_matches(
                self.step(views_of(input@), old(context)@),
                r,
                final(context)@,
                old(log)@,
                final(log)@,
            ),
    {
        if input.len() != 0 {
            proof {
                assert(log@ =~= old(log)@ + Seq::<TaskMessageView>::empty());
            }
            return Err(String::from_str("Unexpected input to VerifyInstallDirTask"));
        }
        log.display(String::from_str("Polling installation directory..."), Progress::zero());
        proof {
            assert(log@ =~= old(log)@ + self.step(views_of(input@), old(context)@).messages);
        }
        let path = match &context.install_path {
            Option::Some(p) => p.clone(),
            Option::None => {
                return Err(String::from_str("No install path specified"));
            },
        };
        if !context.env.install_dir_exists {
            context.push_effect(Effect::CreateDirAll(path));
        }
        if self.clean_install && context.env.install_dir_entry_count != 0 {
            return Err(String::from_str("Install destination is not empty."));
        }
        Ok(TaskParamType::Empty)
    }
}

/// Whether a running executable name ends in one of a package's tracked
/// files.
pub open spec fn spec_hits_files(packages: Seq<LocalInstallationView>, exe: Seq<char>) -> bool {
    exists|i: int, j: int|
        0 <= i < packages.len() && 0 <= j < packages[i].files.len() && spec_ends_with(
            exe,
            packages[i].files[j],
        )
}

/// The first problem in the process list, scanning in order: another
/// maintenance tool instance, or a running installed application.
pub open spec fn spec_instance_error(
    procs: Seq<ProcessView>,
    packages: Seq<LocalInstallationView>,
    current_pid: u64,
) -> Option<Seq<char>>
    decreases procs.len(),
{
    if procs.len() == 0 {
        None
    } else {
        let p = procs[0];
        if p.pid != current_pid && (spec_ends_with(p.name, "maintenancetool.exe"@)
            || spec_ends_with(p.name, "maintenancetool"@)) {
            Some("Maintenance tool is already running!"@)
        } else if p.pid != current_pid && spec_hits_files(packages, p.name) {
            Some("The installed application is currently running!"@)
        } else {
            spec_instance_error(procs.drop_first(), packages, current_pid)
        }
    }
}

/// Verifies that this is the only running installer instance and that the
/// installed application is not running.
#[derive(Debug)]
pub struct EnsureOnlyInstanceTask {}

impl EnsureOnlyInstanceTask {
    pub open spec fn spec_name(&self) -> Seq<char> {
        "EnsureOnlyInstanceTask"@
    }

    /// The step: it scans the host-reported process list and
    /// fails when another maintenance tool or a tracked installed file is
    /// running; otherwise it does nothing.
    pub open spec fn step(
        &self,
        input: Seq<ParamView>,
        ctx: InstallerFrameworkView,
    ) -> StepOutcome {
        if input.len() != 0 {
            StepOutcome {
                context: ctx,
                result: Err("Unexpected input to EnsureOnlyInstanceTask"@),
                messages: Seq::empty(),
            }
        } else {
            match spec_instance_error(ctx.env.processes, ctx.database.packages, ctx.env.current_pid) {
                Option::Some(e) => StepOutcome {
                    context: ctx,
                    result: Err(e),
                    messages: Seq::empty(),
                },
                Option::None => StepOutcome {
                    context: ctx,
                    result: Ok(ParamView::Empty),
                    messages: Seq::empty(),
                },
            }
        }
    }

    /// Whether `exe` ends in one of the tracked files of some package.
    #[verifier::loop_isolation(false)]
    fn hits_files(packages: &Vec<crate::installer::LocalInstallation>, exe: &str) -> (r: bool)
        ensures
            r == spec_hits_files(views_of(packages@), exe@),
    {
        let mut i: usize = 0;
        while i < packages.len()
            invariant
                i <= packages@.len(),
                forall|a: int, b: int|
                    0 <= a < i && 0 <= b < packages@[a]@.files.len() ==> !spec_ends_with(
                        exe@,
                        packages@[a]@.files[b],
                    ),
            decreases packages@.len() - i,
        {
            let mut j: usize = 0;
            while j < packages[i].files.len()
                invariant
                    i < packages@.len(),
                    j <= packages@[i as int].files@.len(),
                    forall|b: int|
                        0 <= b < j ==> !spec_ends_with(exe@, packages@[i as int]@.files[b]),
                decreases packages@[i as int].files@.len() - j,
            {
                if str_ends_with(exe, packages[i].files[j].as_str()) {
                    proof {
                        assert(views_of(packages@)[i as int].files[j as int] == packages@[
                            i as int].files@[j as int]@);
                    }
                    return true;
                }
                proof {
                    assert(packages@[i as int]@.files[j as int] == packages@[i as int].files@[
                        j as int]@);
                }
                j = j + 1;
            }
            proof {
                assert(forall|b: int|
                    0 <= b < packages@[i as int]@.files.len() ==> !spec_ends_with(
                        exe@,
                        packages@[i as int]@.files[b],
                    ));
            }
            i = i + 1;
        }
        proof {
            assert forall|a: int, b: int|
                0 <= a < views_of(packages@).len() && 0 <= b < views_of(packages@)[a].files.len()
                    implies !spec_ends_with(exe@, views_of(packages@)[a].files[b]) by {
                assert(views_of(packages@)[a].files[b] == packages@[a]@.files[b]);
            }
        }
        false
    }

    #[verifier::loop_isolation(false)]
    pub fn run(
        &self,
        input: Vec<TaskParamType>,
        context: &mut InstallerFramework,
        log: &mut MessageLog,
    ) -> (r: Result<TaskParamType, String>)
        ensures
            step_matches(
                self.step(views_of(input@), old(context)@),
                r,
                final(context)@,
                old(log)@,
                final(log)@,
            ),
    {
        proof {
            assert(log@ =~= old(log)@ + Seq::<TaskMessageView>::empty());
        }
        if input.len() != 0 {
            return Err(String::from_str("Unexpected input to EnsureOnlyInstanceTask"));
        }
        let ghost allprocs = views_of(context.env.processes@);
        let mut i: usize = 0;
        proof {
            assert(allprocs.skip(0) =~= allprocs);
        }
        while i < context.env.processes.len()
            invariant
                i <= context.env.processes@.len(),
                allprocs == views_of(context.env.processes@),
                context == old(context),
                log@ == old(log)@,
                spec_instance_error(
                    allprocs,
                    views_of(context.database.packages@),
                    context.env.current_pid,
                ) == spec_instance_error(
                    allprocs.skip(i as int),
                    views_of(context.database.packages@),
                    context.env.current_pid,
                ),
            decreases context.env.processes@.len() - i,
        {
            proof {
                assert(allprocs.skip(i as int)[0] == context.env.processes@[i as int]@);
                assert(allprocs.skip(i as int).drop_first() =~= allprocs.skip(i as int + 1));
            }
            let p = &context.env.processes[i];
            if p.pid != context.env.current_pid {
                if str_ends_with(p.name.as_str(), "maintenancetool.exe") || str_ends_with(
                    p.name.as_str(),
                    "maintenancetool",
                ) {
                    proof {
                        assert(spec_instance_error(
                            allprocs.skip(i as int),
                            views_of(context.database.packages@),
                            context.env.current_pid,
                        ) == Some("Maintenance tool is already running!"@));
                    }
                    return Err(String::from_str("Maintenance tool is already running!"));
                }
                if Self::hits_files(&context.database.packages, p.name.as_str()) {
                    proof {
                        assert(spec_instance_error(
                            allprocs.skip(i as int),
                            views_of(context.database.packages@),
                            context.env.current_pid,
                        ) == Some("The installed application is currently running!"@));
                    }
                    return Err(String::from_str("The installed application is currently running!"));
                }
            }
            i = i + 1;
        }
        proof {
            assert(allprocs.skip(i as int).len() == 0);
        }
        Ok(TaskParamType::Empty)
    }
}

/// Configures the installer to launch the installed application when it
/// exits: the first shortcut of the first installed package, if any.
#[derive(Debug)]
pub struct LaunchOnExitTask {}

impl LaunchOnExitTask {
    pub open spec fn spec_name(&self) -> Seq<char> {
        "LaunchOnExitTask"@
    }

    /// The step: when a package is installed and described in
    /// the configuration, it points the launcher path at that package's
    /// first shortcut target, or clears it when the package has none.
    pub open spec fn step(
        &self,
        input: Seq<ParamView>,
        ctx: InstallerFrameworkView,
    ) -> StepOutcome {
        if ctx.database.packages.len() == 0 {
            StepOutcome { context: ctx, result: Ok(ParamView::Empty), messages: Seq::empty() }
        } else {
            match ctx.install_path {
                Option::None => StepOutcome {
                    context: ctx,
                    result: Err("No install path specified"@),
                    messages: Seq::empty(),
                },
                Option::Some(path) => {
                    match ctx.config {
                        Option::None => StepOutcome {
                            context: ctx,
                            result: Err("In-memory configuration doesn't exist"@),
                            messages: Seq::empty(),
                        },
                        Option::Some(cfg) => {
                            match spec_find_package(
                                cfg.packages,
                                ctx.database.packages[0].name,
                            ) {
                                Option::None => StepOutcome {
                                    context: ctx,
                                    result: Ok(ParamView::Empty),
                                    messages: Seq::empty(),
                                },
                                Option::Some(desc) => {
                                    let launcher = if desc.shortcuts.len() == 0 {
                                        Option::<Seq<char>>::None
                                    } else {
                                        Option::Some(
                                            path + "/"@ + desc.shortcuts[0].relative_path,
                                        )
                                    };
                                    StepOutcome {
                                        context: InstallerFrameworkView {
                                            launcher_path: launcher,
                                            ..ctx
                                        },
                                        result: Ok(ParamView::Empty),
                                        messages: Seq::empty(),
                                    }
                                },
                            }
                        },
                    }
                },
            }
        }
    }

    pub fn run(
        &self,
        input: Vec<TaskParamType>,
        context: &mut InstallerFramework,
        log: &mut MessageLog,
    ) -> (r: Result<TaskParamType, String>)
        ensures
            step_matches(
                self.step(views_of(input@), old(context)@),
                r,
                final(context)@,
                old(log)@,
                final(log)@,
            ),
    {
        proof {
            assert(log@ =~= old(log)@ + Seq::<TaskMessageView>::empty());
        }
        if context.database.packages.len() == 0 {
            return Ok(TaskParamType::Empty);
        }
        let path = match &context.install_path {
            Option::Some(p) => p.clone(),
            Option::None => {
                return Err(String::from_str("No install path specified"));
            },
        };
        let first_name = context.database.packages[0].name.clone();
        let desc = match &context.config {
            Option::Some(cfg) => crate::config::find_package(&cfg.packages, first_name.as_str()),
            Option::None => {
                return Err(String::from_str("In-memory configuration doesn't exist"));
            },
        };
        let desc = match desc {
            Option::Some(d) => d,
            Option::None => {
                return Ok(TaskParamType::Empty);
            },
        };
        if desc.shortcuts.len() == 0 {
            context.launcher_path = None;
        } else {
            context.launcher_path = Some(
                path_join(path.as_str(), desc.shortcuts[0].relative_path.as_str()),
            );
        }
        proof {
            assert(context@ =~~= self.step(views_of(input@), old(context)@).context);
        }
        Ok(TaskParamType::Empty)
    }
}

/// Removes the whole target directory, clearing the tracked packages.
#[derive(Debug)]
pub struct RemoveTargetDirTask {}

impl RemoveTargetDirTask {
    pub open spec fn spec_name(&self) -> Seq<char> {
        "RemoveTargetDirTask"@
    }

    /// The step: it forgets every tracked package and, when an
    /// install directory is configured, requests that it be emptied,
    /// keeping the maintenance tool when repairing an existing install.
    pub open spec fn step(
        &self,
        input: Seq<ParamView>,
        ctx: InstallerFrameworkView,
    ) -> StepOutcome {
        let m = TaskMessageView::Display {
            text: "Removing previous install..."@,
            progress: Progress::spec_of_ratio(1, 10),
        };
        let cleared = InstallerFrameworkView {
            database: crate::installer::InstallationDatabaseView {
                packages: Seq::empty(),
                ..ctx.database
            },
            ..ctx
        };
        match ctx.install_path {
            Option::None => StepOutcome {
                context: cleared,
                result: Ok(ParamView::Empty),
                messages: seq![m],
            },
            Option::Some(path) => StepOutcome {
                context: spec_with_effect(
                    cleared,
                    EffectView::ClearDirectory {
                        path,
                        keep_maintenance_tool: ctx.preexisting_install,
                    },
                ),
                result: Ok(ParamView::Empty),
                messages: seq![m],
            },
        }
    }

    pub fn run(
        &self,
        input: Vec<TaskParamType>,
        context: &mut InstallerFramework,
        log: &mut MessageLog,
    ) -> (r: Result<TaskParamType, String>)
        ensures
            step_matches(
                self.step(views_of(input@), old(context)@),
                r,
                final(context)@,
                old(log)@,
                final(log)@,
            ),
    {
        log.display(String::from_str("Removing previous install..."), Progress::ratio(1, 10));
        proof {
            assert(log@ =~= old(log)@ + self.step(views_of(input@), old(context)@).messages);
        }
        context.database.packages = Vec::new();
        proof {
            assert(views_of(context.database.packages@) =~= Seq::<LocalInstallationView>::empty());
        }
        let path = match &context.install_path {
            Option::Some(p) => p.clone(),
            Option::None => {
                proof {
                    assert(context@ =~~= self.step(views_of(input@), old(context)@).context);
                }
                return Ok(TaskParamType::Empty);
            },
        };
        let keep = context.preexisting_install;
        context.push_effect(Effect::ClearDirectory { path, keep_maintenance_tool: keep });
        proof {
            assert(context@ =~~= self.step(views_of(input@), old(context)@).context);
        }
        Ok(TaskParamType::Empty)
    }
}

} // verus!
