//! The closed set of task kinds the installer runs, with the dependency
//! declarations that wire them together, and a scripted task whose
//! behaviour is plain data, for driving the engine in tests.

use vstd::prelude::*;

use crate::installer::spec_with_effect;
use crate::installer::Effect;
use crate::installer::EffectView;
use crate::installer::InstallerFramework;
use crate::installer::InstallerFrameworkView;
use crate::strutil::views_of;
use crate::tasks::step_matches;
use crate::tasks::MessageLog;
use crate::tasks::ParamView;
use crate::tasks::StepOutcome;
use crate::tasks::Task;
use crate::tasks::TaskDependency;
use crate::tasks::TaskMessage;
use crate::tasks::TaskOrdering;
use crate::tasks::TaskParamType;
use crate::tasks_fetch::CheckAuthorizationTask;
use crate::tasks_fetch::DownloadPackageTask;
use crate::tasks_fetch::ResolvePackageTask;
use crate::tasks_install::InstallDesktopShortcutTask;
use crate::tasks_install::InstallGlobalShortcutsTask;
use crate::tasks_install::InstallPackageTask;
use crate::tasks_install::InstallShortcutsTask;
use crate::tasks_install::InstallTask;
use crate::tasks_misc::EnsureOnlyInstanceTask;
use crate::tasks_misc::LaunchOnExitTask;
use crate::tasks_misc::RemoveTargetDirTask;
use crate::tasks_misc::SaveDatabaseTask;
use crate::tasks_misc::SaveExecutableTask;
use crate::tasks_misc::VerifyInstallDirTask;
use crate::tasks_uninstall::UninstallGlobalShortcutsTask;
use crate::tasks_uninstall::UninstallPackageTask;
use crate::tasks_uninstall::UninstallShortcutsTask;
use crate::tasks_uninstall::UninstallTask;

verus! {

/// A task whose whole behaviour is data: the result it returns and the
/// messages it reports. Each run records a marker effect carrying its
/// name, so executions leave a visible trace. It declares no dependencies
/// of its own; tests compose scripted trees directly.
#[derive(Debug)]
pub struct ScriptedTask {
    pub name: String,
    pub outcome: Result<TaskParamType, String>,
    pub messages: Vec<TaskMessage>,
}

/// One of the installer's tasks.
#[derive(Debug)]
pub enum TaskKind {
    SaveDatabase(SaveDatabaseTask),
    SaveExecutable(SaveExecutableTask),
    EnsureOnlyInstance(EnsureOnlyInstanceTask),
    VerifyInstallDir(VerifyInstallDirTask),
    LaunchOnExit(LaunchOnExitTask),
    RemoveTargetDir(RemoveTargetDirTask),
    Resolve(ResolvePackageTask),
    CheckAuthorization(CheckAuthorizationTask),
    Download(DownloadPackageTask),
    InstallShortcuts(InstallShortcutsTask),
    InstallDesktopShortcut(InstallDesktopShortcutTask),
    InstallGlobalShortcuts(InstallGlobalShortcutsTask),
    InstallPackage(InstallPackageTask),
    Install(InstallTask),
    UninstallShortcuts(UninstallShortcutsTask),
    UninstallGlobalShortcuts(UninstallGlobalShortcutsTask),
    UninstallPackage(UninstallPackageTask),
    Uninstall(UninstallTask),
    Scripted(ScriptedTask),
}

/// A bound on how deeply a task kind's dependency declarations nest: every
/// declared dependency has a strictly smaller rank.
pub open spec fn rank_of(t: TaskKind) -> nat
    decreases t,
{
    match t {
        TaskKind::SaveDatabase(_) => 0,
        TaskKind::SaveExecutable(_) => 0,
        TaskKind::EnsureOnlyInstance(_) => 0,
        TaskKind::VerifyInstallDir(_) => 0,
        TaskKind::LaunchOnExit(_) => 0,
        TaskKind::RemoveTargetDir(_) => 0,
        TaskKind::Resolve(_) => 0,
        TaskKind::InstallShortcuts(_) => 0,
        TaskKind::InstallDesktopShortcut(_) => 0,
        TaskKind::UninstallShortcuts(_) => 0,
        TaskKind::CheckAuthorization(_) => 1,
        TaskKind::InstallGlobalShortcuts(_) => 1,
        TaskKind::UninstallGlobalShortcuts(_) => 1,
        TaskKind::UninstallPackage(_) => 1,
        TaskKind::Download(_) => 2,
        TaskKind::Uninstall(_) => 2,
        TaskKind::InstallPackage(_) => 3,
        TaskKind::Install(_) => 4,
        TaskKind::Scripted(_) => 0,
    }
}

impl ScriptedTask {
    pub open spec fn spec_name(&self) -> Seq<char> {
        self.name@
    }

    /// What a scripted task does: it records a marker effect carrying its
    /// name, reports its scripted messages and returns its scripted
    /// outcome.
    pub open spec fn step(
        &self,
        input: Seq<ParamView>,
        ctx: InstallerFrameworkView,
    ) -> StepOutcome {
        StepOutcome {
            context: spec_with_effect(ctx, EffectView::Marker(self.name@)),
            result: match self.outcome {
                Result::Ok(ref p) => Ok(p@),
                Result::Err(ref e) => Err(e@),
            },
            messages: views_of(self.messages@),
        }
    }

    #[verifier::loop_isolation(false)]
    pub fn run(
        &self,
        input: Vec<TaskParamType>,
        context: &mut InstallerFramework,
        log: &mut MessageLog,
    ) -> (r: Result<TaskParamType, String>)
        ensures
            step_matches(
                self.step(views_of(input@), old(context)@),
                r,
                final(context)@,
                old(log)@,
                final(log)@,
            ),
    {
        context.push_effect(Effect::Marker(self.name.clone()));
        let mut k: usize = 0;
        proof {
            assert(log@ =~= old(log)@ + views_of(self.messages@).take(0));
        }
        while k < self.messages.len()
            invariant
                k <= self.messages@.len(),
                context@ == spec_with_effect(old(context)@, EffectView::Marker(self.name@)),
                log@ == old(log)@ + views_of(self.messages@).take(k as int),
            decreases self.messages@.len() - k,
        {
            log.push(self.messages[k].duplicate());
            proof {
                assert(log@ =~= old(log)@ + views_of(self.messages@).take(k as int + 1));
            }
            k = k + 1;
        }
        proof {
            assert(views_of(self.messages@).take(self.messages@.len() as int) =~= views_of(
                self.messages@,
            ));
        }
        match &self.outcome {
            Result::Ok(p) => Ok(p.duplicate()),
            Result::Err(e) => Err(e.clone()),
        }
    }
}

impl Task for TaskKind {
    open spec fn rank(&self) -> nat {
        rank_of(*self)
    }

    open spec fn spec_name(&self) -> Seq<char> {
        match self {
            TaskKind::SaveDatabase(t) => t.spec_name(),
            TaskKind::SaveExecutable(t) => t.spec_name(),
            TaskKind::EnsureOnlyInstance(t) => t.spec_name(),
            TaskKind::VerifyInstallDir(t) => t.spec_name(),
            TaskKind::LaunchOnExit(t) => t.spec_name(),
            TaskKind::RemoveTargetDir(t) => t.spec_name(),
            TaskKind::Resolve(t) => t.spec_name(),
            TaskKind::CheckAuthorization(t) => t.spec_name(),
            TaskKind::Download(t) => t.spec_name(),
            TaskKind::InstallShortcuts(t) => t.spec_name(),
            TaskKind::InstallDesktopShortcut(t) => t.spec_name(),
            TaskKind::InstallGlobalShortcuts(t) => t.spec_name(),
            TaskKind::InstallPackage(t) => t.spec_name(),
            TaskKind::Install(t) => t.spec_name(),
            TaskKind::UninstallShortcuts(t) => t.spec_name(),
            TaskKind::UninstallGlobalShortcuts(t) => t.spec_name(),
            TaskKind::UninstallPackage(t) => t.spec_name(),
            TaskKind::Uninstall(t) => t.spec_name(),
            TaskKind::Scripted(t) => t.spec_name(),
        }
    }

    open spec fn step(&self, input: Seq<ParamView>, context: InstallerFrameworkView)
        -> StepOutcome {
        match self {
            TaskKind::SaveDatabase(t) => t.step(input, context),
            TaskKind::SaveExecutable(t) => t.step(input, context),
            TaskKind::EnsureOnlyInstance(t) => t.step(input, context),
            TaskKind::VerifyInstallDir(t) => t.step(input, context),
            TaskKind::LaunchOnExit(t) => t.step(input, context),
            TaskKind::RemoveTargetDir(t) => t.step(input, context),
            TaskKind::Resolve(t) => t.step(input, context),
            TaskKind::CheckAuthorization(t) => t.step(input, context),
            TaskKind::Download(t) => t.step(input, context),
            TaskKind::InstallShortcuts(t) => t.step(input, context),
            TaskKind::InstallDesktopShortcut(t) => t.step(input, context),
            TaskKind::InstallGlobalShortcuts(t) => t.step(input, context),
            TaskKind::InstallPackage(t) => t.step(input, context),
            TaskKind::Install(t) => t.step(input, context),
            TaskKind::UninstallShortcuts(t) => t.step(input, context),
            TaskKind::UninstallGlobalShortcuts(t) => t.step(input, context),
            TaskKind::UninstallPackage(t) => t.step(input, context),
            TaskKind::Uninstall(t) => t.step(input, context),
            TaskKind::Scripted(t) => t.step(input, context),
        }
    }

    fn name(&self) -> (r: String) {
        match self {
            TaskKind::SaveDatabase(_) => String::from_str("SaveDatabaseTask"),
            TaskKind::SaveExecutable(_) => String::from_str("SaveExecutableTask"),
            TaskKind::EnsureOnlyInstance(_) => String::from_str("EnsureOnlyInstanceTask"),
            TaskKind::VerifyInstallDir(t) => {
                if t.clean_install {
                    String::from_str("VerifyInstallDirTask (with clean-install = true)")
                } else {
                    String::from_str("VerifyInstallDirTask (with clean-install = false)")
                }
            },
            TaskKind::LaunchOnExit(_) => String::from_str("LaunchOnExitTask"),
            TaskKind::RemoveTargetDir(_) => String::from_str("RemoveTargetDirTask"),
            TaskKind::Resolve(t) => {
                let mut s = String::from_str("ResolvePackageTask (for ");
                s.append(t.name.as_str());
                s.append(")");
                s
            },
            TaskKind::CheckAuthorization(t) => {
                let mut s = String::from_str("CheckAuthorizationTask (for ");
                s.append(t.name.as_str());
                s.append(")");
                s
            },
            TaskKind::Download(t) => {
                let mut s = String::from_str("DownloadPackageTask (for ");
                s.append(t.name.as_str());
                s.append(")");
                s
            },
            TaskKind::InstallShortcuts(t) => {
                let mut s = String::from_str("InstallShortcutsTask (for ");
                s.append(t.name.as_str());
                s.append(")");
                s
            },
            TaskKind::InstallDesktopShortcut(t) => {
                let mut s = String::from_str("InstallDesktopShortcutTask (for ");
                s.append(t.name.as_str());
                if t.should_run {
                    s.append(", should_run = true)");
                } else {
                    s.append(", should_run = false)");
                }
                s
            },
            TaskKind::InstallGlobalShortcuts(_) => String::from_str(
                "InstallGlobalShortcutsTask",
            ),
            TaskKind::InstallPackage(t) => {
                let mut s = String::from_str("InstallPackageTask (for ");
                s.append(t.name.as_str());
                s.append(")");
                s
            },
            TaskKind::Install(_) => String::from_str("InstallTask"),
            TaskKind::UninstallShortcuts(t) => {
                let mut s = String::from_str("UninstallShortcutsTask (for ");
                s.append(t.name.as_str());
                if t.optional {
                    s.append(", optional = true)");
                } else {
                    s.append(", optional = false)");
                }
                s
            },
            TaskKind::UninstallGlobalShortcuts(_) => String::from_str(
                "UninstallGlobalShortcutsTask",
            ),
            TaskKind::UninstallPackage(t) => {
                let mut s = String::from_str("UninstallPackageTask (for ");
                s.append(t.name.as_str());
                if t.optional {
                    s.append(", optional = true)");
                } else {
                    s.append(", optional = false)");
                }
                s
            },
            TaskKind::Uninstall(_) => String::from_str("UninstallTask"),
            TaskKind::Scripted(t) => t.name.clone(),
        }
    }

    #[verifier::loop_isolation(false)]
    open spec fn spec_dependencies(&self) -> Seq<TaskDependency<TaskKind>> {
        match self {
            TaskKind::CheckAuthorization(t) => seq![
                TaskDependency {
                    ordering: TaskOrdering::Pre,
                    task: TaskKind::Resolve(ResolvePackageTask { name: t.name }),
                },
            ],
            TaskKind::Download(t) => seq![
                TaskDependency {
                    ordering: TaskOrdering::Pre,
                    task: TaskKind::CheckAuthorization(CheckAuthorizationTask { name: t.name }),
                },
            ],
            TaskKind::InstallGlobalShortcuts(_) => seq![
                TaskDependency {
                    ordering: TaskOrdering::Post,
                    task: TaskKind::SaveDatabase(SaveDatabaseTask {  }),
                },
            ],
            TaskKind::UninstallGlobalShortcuts(_) => seq![
                TaskDependency {
                    ordering: TaskOrdering::Post,
                    task: TaskKind::SaveDatabase(SaveDatabaseTask {  }),
                },
            ],
            TaskKind::UninstallPackage(t) => seq![
                TaskDependency {
                    ordering: TaskOrdering::Pre,
                    task: TaskKind::UninstallShortcuts(
                        UninstallShortcutsTask { name: t.name, optional: t.optional },
                    ),
                },
                TaskDependency {
                    ordering: TaskOrdering::Post,
                    task: TaskKind::SaveDatabase(SaveDatabaseTask {  }),
                },
            ],
            TaskKind::InstallPackage(t) => seq![
                TaskDependency {
                    ordering: TaskOrdering::Pre,
                    task: TaskKind::Download(DownloadPackageTask { name: t.name }),
                },
                TaskDependency {
                    ordering: TaskOrdering::Pre,
                    task: TaskKind::UninstallPackage(
                        UninstallPackageTask { name: t.name, optional: true },
                    ),
                },
                TaskDependency {
                    ordering: TaskOrdering::Pre,
                    task: TaskKind::InstallShortcuts(InstallShortcutsTask { name: t.name }),
                },
                TaskDependency {
                    ordering: TaskOrdering::Post,
                    task: TaskKind::SaveDatabase(SaveDatabaseTask {  }),
                },
            ],
            TaskKind::Install(t) => seq![
                TaskDependency {
                    ordering: TaskOrdering::Pre,
                    task: TaskKind::EnsureOnlyInstance(EnsureOnlyInstanceTask {  }),
                },
                TaskDependency {
                    ordering: TaskOrdering::Pre,
                    task: TaskKind::VerifyInstallDir(
                        VerifyInstallDirTask { clean_install: t.fresh_install },
                    ),
                },
            ] + Seq::new(
                t.items@.len(),
                |i: int|
                    TaskDependency {
                        ordering: TaskOrdering::Pre,
                        task: TaskKind::InstallPackage(
                            InstallPackageTask { name: t.items@[i] },
                        ),
                    },
            ) + Seq::new(
                t.uninstall_items@.len(),
                |i: int|
                    TaskDependency {
                        ordering: TaskOrdering::Pre,
                        task: TaskKind::UninstallPackage(
                            UninstallPackageTask { name: t.uninstall_items@[i], optional: false },
                        ),
                    },
            ) + if t.fresh_install {
                seq![
                    TaskDependency {
                        ordering: TaskOrdering::Pre,
                        task: TaskKind::SaveExecutable(SaveExecutableTask {  }),
                    },
                    TaskDependency {
                        ordering: TaskOrdering::Pre,
                        task: TaskKind::InstallGlobalShortcuts(InstallGlobalShortcutsTask {  }),
                    },
                ]
            } else {
                Seq::empty()
            },
            TaskKind::Uninstall(t) => Seq::new(
                t.items@.len(),
                |i: int|
                    TaskDependency {
                        ordering: TaskOrdering::Pre,
                        task: TaskKind::UninstallPackage(
                            UninstallPackageTask { name: t.items@[i], optional: false },
                        ),
                    },
            ),
            _ => Seq::empty(),
        }
    }

    #[verifier::loop_isolation(false)]
    fn dependencies(&self) -> (r: Vec<TaskDependency<TaskKind>>) {
        match self {
            TaskKind::CheckAuthorization(t) => {
                let mut deps: Vec<TaskDependency<TaskKind>> = Vec::new();
                deps.push(
                    TaskDependency {
                        ordering: TaskOrdering::Pre,
                        task: TaskKind::Resolve(ResolvePackageTask { name: t.name.clone() }),
                    },
                );
                proof {
                    assert(deps@ =~= self.spec_dependencies());
                }
                deps
            },
            TaskKind::Download(t) => {
                let mut deps: Vec<TaskDependency<TaskKind>> = Vec::new();
                deps.push(
                    TaskDependency {
                        ordering: TaskOrdering::Pre,
                        task: TaskKind::CheckAuthorization(
                            CheckAuthorizationTask { name: t.name.clone() },
                        ),
                    },
                );
                proof {
                    assert(deps@ =~= self.spec_dependencies());
                }
                deps
            },
            TaskKind::InstallGlobalShortcuts(_) => {
                let mut deps: Vec<TaskDependency<TaskKind>> = Vec::new();
                deps.push(
                    TaskDependency {
                        ordering: TaskOrdering::Post,
                        task: TaskKind::SaveDatabase(SaveDatabaseTask {  }),
                    },
                );
                proof {
                    assert(deps@ =~= self.spec_dependencies());
                }
                deps
            },
            TaskKind::UninstallGlobalShortcuts(_) => {
                let mut deps: Vec<TaskDependency<TaskKind>> = Vec::new();
                deps.push(
                    TaskDependency {
                        ordering: TaskOrdering::Post,
                        task: TaskKind::SaveDatabase(SaveDatabaseTask {  }),
                    },
                );
                proof {
                    assert(deps@ =~= self.spec_dependencies());
                }
                deps
            },
            TaskKind::UninstallPackage(t) => {
                let mut deps: Vec<TaskDependency<TaskKind>> = Vec::new();
                deps.push(
                    TaskDependency {
                        ordering: TaskOrdering::Pre,
                        task: TaskKind::UninstallShortcuts(
                            UninstallShortcutsTask {
                                name: t.name.clone(),
                                optional: t.optional,
                            },
                        ),
                    },
                );
                deps.push(
                    TaskDependency {
                        ordering: TaskOrdering::Post,
                        task: TaskKind::SaveDatabase(SaveDatabaseTask {  }),
                    },
                );
                proof {
                    assert(deps@ =~= self.spec_dependencies());
                }
                deps
            },
            TaskKind::InstallPackage(t) => {
                let mut deps: Vec<TaskDependency<TaskKind>> = Vec::new();
                deps.push(
                    TaskDependency {
                        ordering: TaskOrdering::Pre,
                        task: TaskKind::Download(DownloadPackageTask { name: t.name.clone() }),
                    },
                );
                deps.push(
                    TaskDependency {
                        ordering: TaskOrdering::Pre,
                        task: TaskKind::UninstallPackage(
                            UninstallPackageTask { name: t.name.clone(), optional: true },
                        ),
                    },
                );
                deps.push(
                    TaskDependency {
                        ordering: TaskOrdering::Pre,
                        task: TaskKind::InstallShortcuts(
                            InstallShortcutsTask { name: t.name.clone() },
                        ),
                    },
                );
                deps.push(
                    TaskDependency {
                        ordering: TaskOrdering::Post,
                        task: TaskKind::SaveDatabase(SaveDatabaseTask {  }),
                    },
                );
                proof {
                    assert(deps@ =~= self.spec_dependencies());
                }
                deps
            },
            TaskKind::Install(t) => {
                let ghost declared = self.spec_dependencies();
                let mut deps: Vec<TaskDependency<TaskKind>> = Vec::new();
                deps.push(
                    TaskDependency {
                        ordering: TaskOrdering::Pre,
                        task: TaskKind::EnsureOnlyInstance(EnsureOnlyInstanceTask {  }),
                    },
                );
                deps.push(
                    TaskDependency {
                        ordering: TaskOrdering::Pre,
                        task: TaskKind::VerifyInstallDir(
                            VerifyInstallDirTask { clean_install: t.fresh_install },
                        ),
                    },
                );
                let mut i: usize = 0;
                while i < t.items.len()
                    invariant
                        i <= t.items@.len(),
                        deps@.len() == 2 + i,
                        forall|j: int| 0 <= j < deps@.len() ==> deps@[j] == declared[j],
                        forall|j: int|
                            0 <= j < deps@.len() ==> (#[trigger] deps@[j]).task.rank() < rank_of(
                                *self,
                            ),
                    decreases t.items@.len() - i,
                {
                    deps.push(
                        TaskDependency {
                            ordering: TaskOrdering::Pre,
                            task: TaskKind::InstallPackage(
                                InstallPackageTask { name: t.items[i].clone() },
                            ),
                        },
                    );
                    i = i + 1;
                }
                let mut k: usize = 0;
                while k < t.uninstall_items.len()
                    invariant
                        k <= t.uninstall_items@.len(),
                        deps@.len() == 2 + t.items@.len() + k,
                        forall|j: int| 0 <= j < deps@.len() ==> deps@[j] == declared[j],
                        forall|j: int|
                            0 <= j < deps@.len() ==> (#[trigger] deps@[j]).task.rank() < rank_of(
                                *self,
                            ),
                    decreases t.uninstall_items@.len() - k,
                {
                    deps.push(
                        TaskDependency {
                            ordering: TaskOrdering::Pre,
                            task: TaskKind::UninstallPackage(
                                UninstallPackageTask {
                                    name: t.uninstall_items[k].clone(),
                                    optional: false,
                                },
                            ),
                        },
                    );
                    k = k + 1;
                }
                if t.fresh_install {
                    deps.push(
                        TaskDependency {
                            ordering: TaskOrdering::Pre,
                            task: TaskKind::SaveExecutable(SaveExecutableTask {  }),
                        },
                    );
                    deps.push(
                        TaskDependency {
                            ordering: TaskOrdering::Pre,
                            task: TaskKind::InstallGlobalShortcuts(InstallGlobalShortcutsTask {  }),
                        },
                    );
                }
                proof {
                    assert(deps@ =~= declared);
                }
                deps
            },
            TaskKind::Uninstall(t) => {
                let ghost declared = self.spec_dependencies();
                let mut deps: Vec<TaskDependency<TaskKind>> = Vec::new();
                let mut i: usize = 0;
                while i < t.items.len()
                    invariant
                        i <= t.items@.len(),
                        deps@.len() == i,
                        forall|j: int| 0 <= j < deps@.len() ==> deps@[j] == declared[j],
                        forall|j: int|
                            0 <= j < deps@.len() ==> (#[trigger] deps@[j]).task.rank() < rank_of(
                                *self,
                            ),
                    decreases t.items@.len() - i,
                {
                    deps.push(
                        TaskDependency {
                            ordering: TaskOrdering::Pre,
                            task: TaskKind::UninstallPackage(
                                UninstallPackageTask { name: t.items[i].clone(), optional: false },
                            ),
                        },
                    );
                    i = i + 1;
                }
                proof {
                    assert(deps@ =~= declared);
                }
                deps
            },
            _ => {
                let deps: Vec<TaskDependency<TaskKind>> = Vec::new();
                proof {
                    assert(deps@ =~= self.spec_dependencies());
                }
                deps
            },
        }
    }

    fn execute(
        &self,
        input: Vec<TaskParamType>,
        context: &mut InstallerFramework,
        log: &mut MessageLog,
    ) -> (r: Result<TaskParamType, String>) {
        match self {
            TaskKind::SaveDatabase(t) => t.run(input, context, log),
            TaskKind::SaveExecutable(t) => t.run(input, context, log),
            TaskKind::EnsureOnlyInstance(t) => t.run(input, context, log),
            TaskKind::VerifyInstallDir(t) => t.run(input, context, log),
            TaskKind::LaunchOnExit(t) => t.run(input, context, log),
            TaskKind::RemoveTargetDir(t) => t.run(input, context, log),
            TaskKind::Resolve(t) => t.run(input, context, log),
            TaskKind::CheckAuthorization(t) => t.run(input, context, log),
            TaskKind::Download(t) => t.run(input, context, log),
            TaskKind::InstallShortcuts(t) => t.run(input, context, log),
            TaskKind::InstallDesktopShortcut(t) => t.run(input, context, log),
            TaskKind::InstallGlobalShortcuts(t) => t.run(input, context, log),
            TaskKind::InstallPackage(t) => t.run(input, context, log),
            TaskKind::Install(t) => t.run(input, context, log),
            TaskKind::UninstallShortcuts(t) => t.run(input, context, log),
            TaskKind::UninstallGlobalShortcuts(t) => t.run(input, context, log),
            TaskKind::UninstallPackage(t) => t.run(input, context, log),
            TaskKind::Uninstall(t) => t.run(input, context, log),
            TaskKind::Scripted(t) => t.run(input, context, log),
        }
    }
}


/// A tree built only from the installer's own task kinds, with no
/// scripted stand-ins anywhere.
pub open spec fn builtin_tree(tree: crate::tasks::DependencyTree<TaskKind>) -> bool
    decreases tree,
{
    !(tree.task is Scripted) && builtin_children(tree.dependencies@)
}

/// All trees in this child list are built-in.
pub open spec fn builtin_children(
    children: Seq<(TaskOrdering, crate::tasks::DependencyTree<TaskKind>)>,
) -> bool
    decreases children,
{
    if children.len() == 0 {
        true
    } else {
        proof {
            assert(decreases_to!(children => children[0]));
            assert(decreases_to!(children[0] => children[0].1));
        }
        builtin_tree(children[0].1) && builtin_children(children.drop_first())
    }
}

/// Every built-in task reports non-decreasing fractions within zero and
/// one, whatever its inputs and context.
#[verifier::rlimit(100)]
pub proof fn lemma_builtin_task_well_behaved(t: TaskKind)
    requires
        !(t is Scripted),
    ensures
        crate::laws::task_well_behaved(t),
{
    assert forall|input: Seq<ParamView>, c: InstallerFrameworkView|
        crate::laws::msgs_monotone((#[trigger] t.step(input, c)).messages)
            && crate::laws::msgs_wf(t.step(input, c).messages) by {
        crate::progress::Progress::lemma_value_forms();
        crate::progress::Progress::lemma_of_ratio_val(1, 10);
        crate::progress::Progress::lemma_of_ratio_val(1, 2);
        let ms = t.step(input, c).messages;
        match t {
            TaskKind::InstallPackage(task) => {
                lemma_install_package_messages_monotone(task, input, c);
            },
            TaskKind::UninstallPackage(task) => {
                lemma_uninstall_package_messages_monotone(task, input, c);
            },
            _ => {
                assert(ms.len() <= 2);
            },
        }
    }
}

/// The package-removal step reports non-decreasing fractions within zero
/// and one.
proof fn lemma_uninstall_package_messages_monotone(
    task: crate::tasks_uninstall::UninstallPackageTask,
    input: Seq<ParamView>,
    c: InstallerFrameworkView,
)
    ensures
        crate::laws::msgs_monotone(task.step(input, c).messages),
        crate::laws::msgs_wf(task.step(input, c).messages),
{
    crate::progress::Progress::lemma_value_forms();
    let ms = task.step(input, c).messages;
    if ms.len() > 1 {
        let package = crate::tasks_uninstall::spec_take_package(
            c.database.packages,
            task.name@,
        )->Some_0.0;
        let n = package.files.len() as int;
        crate::tasks_uninstall::lemma_scan_messages(package.files, n);
        let scan = crate::tasks_uninstall::spec_scan_messages(package.files, n);
        assert(ms =~= seq![
            crate::tasks::TaskMessageView::Display {
                text: "Uninstalling package "@ + task.name@ + "..."@,
                progress: crate::progress::Progress::spec_zero(),
            },
        ] + scan);
        assert forall|k: int|
            0 <= k < ms.len() && ms[k] is Display implies 0 <= crate::laws::frac_of(ms[k])
            <= crate::progress::SCALE by {
            if 1 <= k {
                assert(ms[k] == scan[k - 1]);
                crate::progress::Progress::lemma_of_ratio_val(k - 1, n);
            }
        }
        assert forall|i: int, j: int|
            0 <= i <= j < ms.len() && ms[i] is Display && ms[j] is Display implies
            crate::laws::frac_of(ms[i]) <= crate::laws::frac_of(ms[j]) by {
            if 1 <= i {
                assert(ms[i] == scan[i - 1]);
                assert(ms[j] == scan[j - 1]);
                crate::progress::Progress::lemma_of_ratio_val(i - 1, n);
                crate::progress::Progress::lemma_of_ratio_val(j - 1, n);
                crate::progress::Progress::lemma_ratio_monotone(i - 1, j - 1, n);
            } else if 1 <= j {
                assert(ms[j] == scan[j - 1]);
                crate::progress::Progress::lemma_of_ratio_val(j - 1, n);
            }
        }
    }
}

/// The package-extraction step reports non-decreasing fractions within
/// zero and one.
proof fn lemma_install_package_messages_monotone(
    task: crate::tasks_install::InstallPackageTask,
    input: Seq<ParamView>,
    c: InstallerFrameworkView,
)
    ensures
        crate::laws::msgs_monotone(task.step(input, c).messages),
        crate::laws::msgs_wf(task.step(input, c).messages),
{
    crate::progress::Progress::lemma_value_forms();
    let ms = task.step(input, c).messages;
    if ms.len() > 1 {
        let path = c.install_path->Some_0;
        let data = input[0]->FileContents_2;
        let file = input[0]->FileContents_1;
        let entries = crate::archives::spec_read_archive(file.name, data)->Ok_0;
        let n = entries.len() as int;
        crate::tasks_install::lemma_walk_messages(entries, path, n);
        let walk = crate::tasks_install::spec_install_walk(entries, path, n);
        assert(ms =~= seq![
            crate::tasks::TaskMessageView::Display {
                text: "Installing package "@ + task.name@ + "..."@,
                progress: crate::progress::Progress::spec_zero(),
            },
        ] + walk.messages + seq![crate::tasks::TaskMessageView::PackageInstalled]);
        assert forall|k: int|
            0 <= k < ms.len() && ms[k] is Display implies 0 <= crate::laws::frac_of(ms[k])
            <= crate::progress::SCALE by {
            if 1 <= k < n + 1 {
                assert(ms[k] == walk.messages[k - 1]);
                crate::progress::Progress::lemma_of_ratio_val(k - 1, n);
            }
        }
        assert forall|i: int, j: int|
            0 <= i <= j < ms.len() && ms[i] is Display && ms[j] is Display implies
            crate::laws::frac_of(ms[i]) <= crate::laws::frac_of(ms[j]) by {
            if 1 <= i {
                assert(ms[i] == walk.messages[i - 1]);
                assert(ms[j] == walk.messages[j - 1]);
                crate::progress::Progress::lemma_of_ratio_val(i - 1, n);
                crate::progress::Progress::lemma_of_ratio_val(j - 1, n);
                crate::progress::Progress::lemma_ratio_monotone(i - 1, j - 1, n);
            } else if 1 <= j {
                assert(ms[j] == walk.messages[j - 1]);
                crate::progress::Progress::lemma_of_ratio_val(j - 1, n);
            }
        }
    }
}

/// Every tree of built-in tasks is well behaved.
pub proof fn lemma_builtin_tree_well_behaved(tree: crate::tasks::DependencyTree<TaskKind>)
    requires
        builtin_tree(tree),
    ensures
        crate::laws::tree_well_behaved(tree),
    decreases tree, 1int,
{
    lemma_builtin_task_well_behaved(tree.task);
    assert(decreases_to!(tree => tree.dependencies));
    assert(decreases_to!(tree.dependencies => tree.dependencies@));
    lemma_builtin_children_well_behaved(tree.dependencies@);
}

/// Helper for the mutual recursion over child lists.
proof fn lemma_builtin_children_well_behaved(
    children: Seq<(TaskOrdering, crate::tasks::DependencyTree<TaskKind>)>,
)
    requires
        builtin_children(children),
    ensures
        crate::laws::children_well_behaved(children),
    decreases children, 0int,
{
    if children.len() > 0 {
        assert(decreases_to!(children => children[0]));
        assert(decreases_to!(children[0] => children[0].1));
        lemma_builtin_tree_well_behaved(children[0].1);
        lemma_builtin_children_well_behaved(children.drop_first());
    }
}

/// Progress monotonicity for the installer's own trees: any run of a tree
/// of built-in tasks reports a non-decreasing sequence of fractions, all
/// within zero and one.
pub proof fn lemma_builtin_run_monotone(
    tree: crate::tasks::DependencyTree<TaskKind>,
    ctx: InstallerFrameworkView,
)
    requires
        builtin_tree(tree),
    ensures
        crate::laws::msgs_monotone(tree.spec_run(ctx).messages),
        crate::laws::msgs_wf(tree.spec_run(ctx).messages),
{
    lemma_builtin_tree_well_behaved(tree);
    crate::laws::lemma_run_monotone(tree, ctx);
}

} // verus!
