//! The top-level installer operations: building the dependency tree for an
//! install or uninstall request and executing it against the framework.

use vstd::prelude::*;

use crate::installer::Effect;
use crate::installer::EffectView;
use crate::installer::InstallerFramework;
use crate::installer::InstallerFrameworkView;
use crate::installer::LocalInstallation;
use crate::kinds::TaskKind;
use crate::strutil::path_join;
use crate::strutil::spec_contains_string;
use crate::strutil::vec_contains_string;
use crate::strutil::views_of;
use crate::tasks::DependencyTree;
use crate::tasks::MessageLog;
use crate::tasks::ParamView;
use crate::tasks_install::InstallTask;
use crate::tasks_uninstall::UninstallGlobalShortcutsTask;
use crate::tasks_uninstall::UninstallTask;

verus! {

/// The names of the installed packages that an install request does not
/// keep: every record whose name is not among the requested items, in
/// recorded order.
pub open spec fn spec_stale_names(
    packages: Seq<LocalInstallation>,
    items: Seq<Seq<char>>,
) -> Seq<String>
    decreases packages.len(),
{
    if packages.len() == 0 {
        Seq::empty()
    } else {
        let rest = spec_stale_names(packages.drop_first(), items);
        if spec_contains_string(items, packages[0].name@) {
            rest
        } else {
            seq![packages[0].name] + rest
        }
    }
}

/// The names of the recorded packages, in order.
pub open spec fn spec_installed_names(packages: Seq<LocalInstallation>) -> Seq<String> {
    Seq::new(packages.len(), |i: int| packages[i].name)
}

/// Collects the names of the installed packages that are not requested.
#[verifier::loop_isolation(false)]
fn stale_packages(packages: &Vec<LocalInstallation>, items: &Vec<String>) -> (r: Vec<String>)
    ensures
        r@ == spec_stale_names(packages@, views_of(items@)),
{
    let mut r: Vec<String> = Vec::new();
    let mut i: usize = 0;
    proof {
        assert(packages@.skip(0) =~= packages@);
        assert(r@ + spec_stale_names(packages@.skip(0), views_of(items@)) =~= spec_stale_names(
            packages@,
            views_of(items@),
        ));
    }
    while i < packages.len()
        invariant
            i <= packages@.len(),
            spec_stale_names(packages@, views_of(items@)) == r@ + spec_stale_names(
                packages@.skip(i as int),
                views_of(items@),
            ),
        decreases packages@.len() - i,
    {
        proof {
            assert(packages@.skip(i as int)[0] == packages@[i as int]);
            assert(packages@.skip(i as int).drop_first() =~= packages@.skip(i as int + 1));
        }
        if !vec_contains_string(items, packages[i].name.as_str()) {
            r.push(packages[i].name.clone());
            proof {
                assert(r@ =~= r@.drop_last() + seq![packages@[i as int].name]);
            }
        }
        i = i + 1;
    }
    proof {
        assert(packages@.skip(packages@.len() as int).len() == 0);
        assert(r@ + Seq::<String>::empty() =~= r@);
    }
    r
}

impl InstallerFramework {
    /// Sends a request for the named packages to be installed or kept:
    /// every other recorded package is uninstalled alongside, unless this
    /// is a fresh install into an empty directory. The outcome is exactly
    /// the run of the mirrored expansion of that install task.
    pub fn install(
        &mut self,
        items: Vec<String>,
        fresh_install: bool,
        log: &mut MessageLog,
    ) -> (r: Result<(), String>)
        ensures
            exists|tree: DependencyTree<TaskKind>|
                {
                    let out = (#[trigger] tree.spec_run(old(self)@));
                    &&& tree.mirrors()
                    &&& tree.task matches TaskKind::Install(t)
                        && t.items == items
                        && t.uninstall_items@ == (if fresh_install {
                            Seq::<String>::empty()
                        } else {
                            spec_stale_names(
                                old(self).database.packages@,
                                views_of(items@),
                            )
                        })
                        && t.fresh_install == fresh_install
                    &&& final(self)@ == out.context
                    &&& final(log)@ == old(log)@ + out.messages
                    &&& match r {
                        Ok(_) => out.result is Ok,
                        Err(e) => out.result == Err::<ParamView, Seq<char>>(e@),
                    }
                },
    {
        let uninstall_items: Vec<String> = if fresh_install {
            Vec::new()
        } else {
            stale_packages(&self.database.packages, &items)
        };
        proof {
            if fresh_install {
                assert(uninstall_items@ =~= Seq::<String>::empty());
            }
        }
        let task = TaskKind::Install(InstallTask { items, uninstall_items, fresh_install });
        let tree = DependencyTree::build(task);
        let outcome = tree.execute(self, log);
        match outcome {
            Ok(_) => Ok(()),
            Err(e) => Err(e),
        }
    }

    /// Sends a request for everything to be uninstalled: the run of the
    /// mirrored uninstall tree over every recorded package name, then of
    /// the global-shortcuts removal tree, then the request to delete the
    /// persisted metadata file, after which the installer arranges its own
    /// removal. An error anywhere stops the sequence there and is handed
    /// back unchanged.
    pub fn uninstall(&mut self, log: &mut MessageLog) -> (r: Result<(), String>)
        ensures
            exists|t1: DependencyTree<TaskKind>, t2: DependencyTree<TaskKind>|
                #![trigger t1.spec_run(old(self)@), t2.spec_run(t1.spec_run(old(self)@).context)]
                {
                    let out1 = t1.spec_run(old(self)@);
                    let out2 = t2.spec_run(out1.context);
                    let globals = TaskKind::UninstallGlobalShortcuts(
                        UninstallGlobalShortcutsTask {  },
                    );
                    &&& t1.mirrors()
                    &&& t1.task matches TaskKind::Uninstall(u) && u.items@ == spec_installed_names(
                        old(self).database.packages@,
                    )
                    &&& match r {
                        Err(e) => {
                            ||| (out1.result == Err::<ParamView, Seq<char>>(e@) && final(self)@
                                == out1.context && final(log)@ == old(log)@ + out1.messages)
                            ||| (t2.mirrors() && t2.task == globals && out1.result is Ok
                                && out2.result == Err::<ParamView, Seq<char>>(e@) && final(self)@
                                == out2.context && final(log)@ == old(log)@ + out1.messages
                                + out2.messages)
                            ||| (t2.mirrors() && t2.task == globals && out1.result is Ok
                                && out2.result is Ok && out2.context.install_path is None && e@
                                == "No install path specified"@ && final(self)@ == out2.context
                                && final(log)@ == old(log)@ + out1.messages + out2.messages)
                        },
                        Ok(_) => {
                            &&& t2.mirrors()
                            &&& t2.task == globals
                            &&& out1.result is Ok
                            &&& out2.result is Ok
                            &&& out2.context.install_path is Some
                            &&& final(self)@ == (InstallerFrameworkView {
                                burn_after_exit: true,
                                effects: out2.context.effects.push(
                                    EffectView::DeleteFile(
                                        out2.context.install_path->Some_0 + "/"@
                                            + "metadata.json"@,
                                    ),
                                ),
                                ..out2.context
                            })
                            &&& final(log)@ == old(log)@ + out1.messages + out2.messages
                        },
                    }
                },
    {
        let mut names: Vec<String> = Vec::new();
        let mut i: usize = 0;
        proof {
            assert(names@ =~= spec_installed_names(self.database.packages@).take(0));
        }
        while i < self.database.packages.len()
            invariant
                i <= self.database.packages@.len(),
                self == old(self),
                log@ == old(log)@,
                names@ == spec_installed_names(old(self).database.packages@).take(i as int),
            decreases self.database.packages@.len() - i,
        {
            names.push(self.database.packages[i].name.clone());
            proof {
                assert(names@ =~= spec_installed_names(old(self).database.packages@).take(
                    i as int + 1,
                ));
            }
            i = i + 1;
        }
        proof {
            assert(spec_installed_names(old(self).database.packages@).take(
                old(self).database.packages@.len() as int,
            ) =~= spec_installed_names(old(self).database.packages@));
        }
        let task = TaskKind::Uninstall(UninstallTask { items: names });
        let tree = DependencyTree::build(task);
        let outcome = tree.execute(self, log);
        let ghost out1 = tree.spec_run(old(self)@);
        match outcome {
            Ok(_) => {},
            Err(e) => {
                proof {
                    // Seed the unconstrained second witness.
                    assert(tree.spec_run(out1.context) == tree.spec_run(out1.context));
                }
                return Err(e);
            },
        }
        let shortcut_task = TaskKind::UninstallGlobalShortcuts(
            UninstallGlobalShortcutsTask {  },
        );
        let shortcut_tree = DependencyTree::build(shortcut_task);
        match shortcut_tree.execute(self, log) {
            Ok(_) => {},
            Err(e) => {
                return Err(e);
            },
        }
        let path = match &self.install_path {
            Option::Some(p) => p.clone(),
            Option::None => {
                return Err(String::from_str("No install path specified"));
            },
        };
        self.push_effect(Effect::DeleteFile(path_join(path.as_str(), "metadata.json")));
        self.burn_after_exit = true;
        Ok(())
    }
}

} // verus!
