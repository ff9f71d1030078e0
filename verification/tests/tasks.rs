//! Exercises the concrete installer tasks against a scripted environment:
//! resolution, authorization, idempotent downloads, extraction and removal.

use std::io::Write;

use liftinstall::config::BaseAttributes;
use liftinstall::config::Config;
use liftinstall::config::JWTClaims;
use liftinstall::config::PackageDescription;
use liftinstall::config::PackageShortcut;
use liftinstall::config::PackageSource;
use liftinstall::installer::AuthAnswer;
use liftinstall::installer::DownloadAnswer;
use liftinstall::installer::Effect;
use liftinstall::installer::InstallerFramework;
use liftinstall::installer::LocalInstallation;
use liftinstall::installer::ReleasesAnswer;
use liftinstall::kinds::TaskKind;
use liftinstall::native::Process;
use liftinstall::progress::SCALE;
use liftinstall::sources::File;
use liftinstall::sources::Release;
use liftinstall::sources::SemVer;
use liftinstall::sources::Version;
use liftinstall::tasks::DependencyTree;
use liftinstall::tasks::MessageLog;
use liftinstall::tasks::Task;
use liftinstall::tasks::TaskMessage;
use liftinstall::tasks::TaskParamType;
use liftinstall::tasks_fetch::CheckAuthorizationTask;
use liftinstall::tasks_fetch::DownloadPackageTask;
use liftinstall::tasks_fetch::ResolvePackageTask;
use liftinstall::tasks_install::InstallTask;
use liftinstall::tasks_misc::EnsureOnlyInstanceTask;
use liftinstall::tasks_misc::SaveDatabaseTask;
use liftinstall::tasks_misc::VerifyInstallDirTask;
use liftinstall::tasks_uninstall::UninstallPackageTask;
use liftinstall::tasks_install::InstallDesktopShortcutTask;
use liftinstall::tasks_install::InstallGlobalShortcutsTask;
use liftinstall::tasks_misc::LaunchOnExitTask;
use liftinstall::tasks_misc::RemoveTargetDirTask;
use liftinstall::tasks_misc::SaveExecutableTask;

fn demo_framework() -> InstallerFramework {
    let mut fw = InstallerFramework::new(BaseAttributes {
        name: String::from("Demo"),
        target_url: String::from("https://example.invalid/config"),
    });
    fw.set_install_dir("/opt/demo");
    fw.env.install_dir_exists = true;
    fw.env.shortcut_dir = Some(String::from("/home/user/.local/share/applications"));
    fw.config = Some(Config {
        installing_message: String::from("Installing..."),
        new_tool: None,
        packages: vec![PackageDescription {
            name: String::from("pkgA"),
            description: String::from("The demo application"),
            default: Some(true),
            source: PackageSource {
                name: String::from("github"),
                match_regex: String::from("app-#PLATFORM#.zip"),
            },
            shortcuts: vec![PackageShortcut {
                name: String::from("Demo App"),
                relative_path: String::from("bin/app"),
                description: String::from("Launch the demo application"),
            }],
        }],
        hide_advanced: false,
        authentication: None,
    });
    fw
}

fn demo_file() -> File {
    File {
        name: String::from("app-linux.zip"),
        url: String::from("https://example.invalid/app-linux.zip"),
        requires_authorization: false,
    }
}

fn zip_bytes(entries: &[(&str, &[u8])]) -> Vec<u8> {
    let cursor = std::io::Cursor::new(Vec::new());
    let mut writer = zip::ZipWriter::new(cursor);
    let options = zip::write::SimpleFileOptions::default();
    for (name, data) in entries {
        writer.start_file(*name, options).unwrap();
        writer.write_all(data).unwrap();
    }
    writer.finish().unwrap().into_inner()
}

fn run_task(
    task: TaskKind,
    input: Vec<TaskParamType>,
    fw: &mut InstallerFramework,
) -> Result<TaskParamType, String> {
    let mut log = MessageLog::new();
    Task::execute(&task, input, fw, &mut log)
}

#[test]
fn resolver_selects_newest_matching_release() {
    let mut fw = demo_framework();
    fw.env.releases.push(ReleasesAnswer {
        package: String::from("pkgA"),
        result: Ok(vec![
            Release {
                version: Version::Semver(SemVer { major: 1, minor: 0, patch: 0 }),
                files: vec![demo_file()],
            },
            Release {
                version: Version::Semver(SemVer { major: 3, minor: 0, patch: 0 }),
                files: vec![File {
                    name: String::from("sources.tar.gz"),
                    url: String::from("https://example.invalid/sources.tar.gz"),
                    requires_authorization: false,
                }],
            },
            Release {
                version: Version::Semver(SemVer { major: 2, minor: 1, patch: 0 }),
                files: vec![demo_file()],
            },
        ]),
    });
    let r = run_task(
        TaskKind::Resolve(ResolvePackageTask { name: String::from("pkgA") }),
        vec![],
        &mut fw,
    );
    match r {
        Ok(TaskParamType::File(version, file)) => {
            // The release without a matching file loses despite its greater
            // version; the matching releases are ranked by version.
            assert_eq!(version, Version::Semver(SemVer { major: 2, minor: 1, patch: 0 }));
            assert_eq!(file.name, "app-linux.zip");
        }
        other => panic!("unexpected result: {:?}", other),
    }
}

#[test]
fn resolver_fails_for_unknown_package() {
    let mut fw = demo_framework();
    let r = run_task(
        TaskKind::Resolve(ResolvePackageTask { name: String::from("missing") }),
        vec![],
        &mut fw,
    );
    assert!(matches!(r, Err(ref e) if e == "Package missing could not be found."));
}

#[test]
fn resolver_fails_without_release_listing() {
    let mut fw = demo_framework();
    let r = run_task(
        TaskKind::Resolve(ResolvePackageTask { name: String::from("pkgA") }),
        vec![],
        &mut fw,
    );
    assert!(matches!(r, Err(ref e) if e == "No release information available for pkgA"));
}

#[test]
fn authorization_passes_file_without_gate() {
    let mut fw = demo_framework();
    let input = vec![TaskParamType::File(Version::Integer(7), demo_file())];
    let r = run_task(
        TaskKind::CheckAuthorization(CheckAuthorizationTask { name: String::from("pkgA") }),
        input,
        &mut fw,
    );
    match r {
        Ok(TaskParamType::Authentication(_, _, token)) => assert_eq!(token, None),
        other => panic!("unexpected result: {:?}", other),
    }
}

#[test]
fn authorization_attaches_token_only_when_entitled() {
    let mut fw = demo_framework();
    let claims = JWTClaims {
        sub: String::from("u"),
        iss: String::from("i"),
        aud: String::from("a"),
        exp: 0,
        roles: vec![String::from("vip")],
        channels: vec![],
        is_linked: true,
        is_subscribed: true,
    };
    fw.env.auth = Some(AuthAnswer { result: Ok((String::from("token-1"), claims)) });
    let mut gated2 = demo_file();
    gated2.requires_authorization = true;
    let r = run_task(
        TaskKind::CheckAuthorization(CheckAuthorizationTask { name: String::from("pkgA") }),
        vec![TaskParamType::File(Version::Integer(1), gated2)],
        &mut fw,
    );
    match r {
        Ok(TaskParamType::Authentication(_, _, token)) => {
            assert_eq!(token, Some(String::from("token-1")));
        }
        other => panic!("unexpected result: {:?}", other),
    }
    // Without an entitling role or channel the token is dropped.
    let mut plain = demo_framework();
    let claims2 = JWTClaims {
        sub: String::from("u"),
        iss: String::from("i"),
        aud: String::from("a"),
        exp: 0,
        roles: vec![],
        channels: vec![],
        is_linked: false,
        is_subscribed: false,
    };
    plain.env.auth = Some(AuthAnswer { result: Ok((String::from("token-2"), claims2)) });
    let mut gated3 = demo_file();
    gated3.requires_authorization = true;
    let r2 = run_task(
        TaskKind::CheckAuthorization(CheckAuthorizationTask { name: String::from("pkgA") }),
        vec![TaskParamType::File(Version::Integer(1), gated3)],
        &mut plain,
    );
    match r2 {
        Ok(TaskParamType::Authentication(_, _, token)) => assert_eq!(token, None),
        other => panic!("unexpected result: {:?}", other),
    }
}

#[test]
fn download_is_idempotent_for_installed_version() {
    // The package is already installed at the resolved version: the task
    // breaks without consulting any download, so no transfer is needed.
    let mut fw = demo_framework();
    fw.database.packages.push(LocalInstallation {
        name: String::from("pkgA"),
        version: Version::Semver(SemVer { major: 2, minor: 0, patch: 0 }),
        files: vec![],
        shortcuts: vec![],
    });
    assert!(fw.env.downloads.is_empty());
    let input = vec![TaskParamType::Authentication(
        Version::Semver(SemVer { major: 2, minor: 0, patch: 0 }),
        demo_file(),
        None,
    )];
    let r = run_task(
        TaskKind::Download(DownloadPackageTask { name: String::from("pkgA") }),
        input,
        &mut fw,
    );
    assert!(matches!(r, Ok(TaskParamType::Break)));
    assert!(fw.effects.is_empty());
}

#[test]
fn download_breaks_without_required_token() {
    let mut fw = demo_framework();
    let mut gated = demo_file();
    gated.requires_authorization = true;
    let input = vec![TaskParamType::Authentication(Version::Integer(1), gated, None)];
    let r = run_task(
        TaskKind::Download(DownloadPackageTask { name: String::from("pkgA") }),
        input,
        &mut fw,
    );
    assert!(matches!(r, Ok(TaskParamType::Break)));
}

#[test]
fn download_fails_without_an_answer() {
    let mut fw = demo_framework();
    let input = vec![TaskParamType::Authentication(Version::Integer(1), demo_file(), None)];
    let r = run_task(
        TaskKind::Download(DownloadPackageTask { name: String::from("pkgA") }),
        input,
        &mut fw,
    );
    assert!(matches!(
        r,
        Err(ref e) if e == "No downloaded data available for https://example.invalid/app-linux.zip"
    ));
}

#[test]
fn verify_install_dir_rejects_nonempty_clean_destination() {
    let mut fw = demo_framework();
    fw.env.install_dir_entry_count = 3;
    let r = run_task(
        TaskKind::VerifyInstallDir(VerifyInstallDirTask { clean_install: true }),
        vec![],
        &mut fw,
    );
    assert!(matches!(r, Err(ref e) if e == "Install destination is not empty."));
}

#[test]
fn save_database_needs_an_install_path() {
    let mut fw = InstallerFramework::new(BaseAttributes {
        name: String::from("Demo"),
        target_url: String::from("https://example.invalid/config"),
    });
    let r = run_task(TaskKind::SaveDatabase(SaveDatabaseTask {}), vec![], &mut fw);
    assert!(matches!(r, Err(ref e) if e == "No install directory for installer"));
}

#[test]
fn ensure_only_instance_detects_running_tool() {
    let mut fw = demo_framework();
    fw.env.current_pid = 1;
    fw.env.processes.push(Process { pid: 7, name: String::from("/usr/bin/maintenancetool") });
    let r = run_task(
        TaskKind::EnsureOnlyInstance(EnsureOnlyInstanceTask {}),
        vec![],
        &mut fw,
    );
    assert!(matches!(r, Err(ref e) if e == "Maintenance tool is already running!"));
    // Its own process id is ignored.
    let mut own = demo_framework();
    own.env.current_pid = 7;
    own.env.processes.push(Process { pid: 7, name: String::from("/usr/bin/maintenancetool") });
    let r2 = run_task(
        TaskKind::EnsureOnlyInstance(EnsureOnlyInstanceTask {}),
        vec![],
        &mut own,
    );
    assert!(matches!(r2, Ok(TaskParamType::Empty)));
}

#[test]
fn uninstall_unknown_package_fails_unless_optional() {
    let mut fw = demo_framework();
    let r = run_task(
        TaskKind::UninstallPackage(UninstallPackageTask {
            name: String::from("ghost"),
            optional: false,
        }),
        vec![TaskParamType::Empty],
        &mut fw,
    );
    assert!(matches!(r, Err(ref e) if e == "Package ghost could not be found for uninstall."));
    let mut fw2 = demo_framework();
    let r2 = run_task(
        TaskKind::UninstallPackage(UninstallPackageTask {
            name: String::from("ghost"),
            optional: true,
        }),
        vec![TaskParamType::Empty],
        &mut fw2,
    );
    assert!(matches!(r2, Ok(TaskParamType::Empty)));
}

#[test]
fn uninstall_deletes_files_then_directories_deepest_first() {
    let mut fw = demo_framework();
    fw.database.packages.push(LocalInstallation {
        name: String::from("pkgA"),
        version: Version::Integer(1),
        files: vec![
            String::from("bin"),
            String::from("bin/app"),
            String::from("bin/data"),
            String::from("bin/data/cache.bin"),
            String::from("readme.txt"),
        ],
        shortcuts: vec![],
    });
    let r = run_task(
        TaskKind::UninstallPackage(UninstallPackageTask {
            name: String::from("pkgA"),
            optional: false,
        }),
        vec![TaskParamType::Empty],
        &mut fw,
    );
    assert!(matches!(r, Ok(TaskParamType::Empty)));
    assert!(fw.database.packages.is_empty());
    let mut deletions = Vec::new();
    for effect in &fw.effects {
        match effect {
            Effect::DeleteFile(p) => deletions.push(format!("file {}", p)),
            Effect::DeleteDir(p) => deletions.push(format!("dir {}", p)),
            _ => {}
        }
    }
    assert_eq!(
        deletions,
        vec![
            String::from("file /opt/demo/bin/app"),
            String::from("file /opt/demo/bin/data/cache.bin"),
            String::from("file /opt/demo/readme.txt"),
            String::from("dir /opt/demo/bin/data"),
            String::from("dir /opt/demo/bin"),
        ],
    );
}

#[test]
fn install_scenario_records_package_and_reaches_full_progress() {
    // A fresh directory, a release listing answering version 2.0.0 with one
    // matching asset, and the asset's bytes: executing the whole install
    // tree records exactly one package at that version, requests the
    // extracted files, and ends at full progress.
    let mut fw = demo_framework();
    fw.env.releases.push(ReleasesAnswer {
        package: String::from("pkgA"),
        result: Ok(vec![Release {
            version: Version::Semver(SemVer { major: 2, minor: 0, patch: 0 }),
            files: vec![demo_file()],
        }]),
    });
    let archive = zip_bytes(&[
        ("bin/app", b"#!binary"),
        ("readme.txt", b"hello"),
    ]);
    fw.env.downloads.push(DownloadAnswer {
        url: String::from("https://example.invalid/app-linux.zip"),
        result: Ok(archive),
    });
    let task = TaskKind::Install(InstallTask {
        items: vec![String::from("pkgA")],
        uninstall_items: vec![],
        fresh_install: false,
    });
    let tree = DependencyTree::build(task);
    let rendered = tree.render();
    assert!(rendered.contains("InstallTask"));
    assert!(rendered.contains("InstallPackageTask (for pkgA)"));
    let mut log = MessageLog::new();
    let r = tree.execute(&mut fw, &mut log);
    assert!(r.is_ok(), "install failed: {:?}", r);

    // Exactly one package entry, at the resolved version, tracking the
    // extracted paths and the generated shortcut.
    assert_eq!(fw.database.packages.len(), 1);
    let record = &fw.database.packages[0];
    assert_eq!(record.name, "pkgA");
    assert_eq!(record.version, Version::Semver(SemVer { major: 2, minor: 0, patch: 0 }));
    assert_eq!(
        record.files,
        vec![String::from("bin"), String::from("bin/app"), String::from("readme.txt")],
    );
    assert_eq!(record.shortcuts.len(), 1);
    assert!(record.shortcuts[0].contains("demo-app"));

    // The requested effects cover the directory, both files and a shortcut,
    // and end with a database save.
    let mut dirs = Vec::new();
    let mut writes = Vec::new();
    let mut shortcuts = 0;
    let mut save_sizes = Vec::new();
    for effect in &fw.effects {
        match effect {
            Effect::CreateDirAll(p) => dirs.push(p.clone()),
            Effect::WriteFile { path, data } => writes.push((path.clone(), data.clone())),
            Effect::CreateShortcut { .. } => shortcuts += 1,
            Effect::SaveDatabase(db) => save_sizes.push(db.packages.len()),
            _ => {}
        }
    }
    // The optional uninstall of a previous version saves the still-empty
    // database; the install's own post-dependency saves the final one.
    assert_eq!(save_sizes, vec![0, 1]);
    assert_eq!(dirs, vec![String::from("/opt/demo/bin")]);
    assert_eq!(
        writes,
        vec![
            (String::from("/opt/demo/bin/app"), b"#!binary".to_vec()),
            (String::from("/opt/demo/readme.txt"), b"hello".to_vec()),
        ],
    );
    assert_eq!(shortcuts, 1);

    // One package-installed notice, and a final progress of one.
    let mut installed_notices = 0;
    let mut last_units = 0;
    for entry in &log.entries {
        match entry {
            TaskMessage::PackageInstalled => installed_notices += 1,
            TaskMessage::DisplayMessage(_, p) => last_units = p.units(),
        }
    }
    assert_eq!(installed_notices, 1);
    assert_eq!(last_units, SCALE);
}

#[test]
fn reinstalling_same_version_is_a_quiet_break() {
    // With the package already recorded at the answered version, running
    // the install tree again changes nothing: the download breaks and the
    // package step unwinds.
    let mut fw = demo_framework();
    fw.env.releases.push(ReleasesAnswer {
        package: String::from("pkgA"),
        result: Ok(vec![Release {
            version: Version::Semver(SemVer { major: 2, minor: 0, patch: 0 }),
            files: vec![demo_file()],
        }]),
    });
    fw.database.packages.push(LocalInstallation {
        name: String::from("pkgA"),
        version: Version::Semver(SemVer { major: 2, minor: 0, patch: 0 }),
        files: vec![],
        shortcuts: vec![],
    });
    let task = TaskKind::Install(InstallTask {
        items: vec![String::from("pkgA")],
        uninstall_items: vec![],
        fresh_install: false,
    });
    let tree = DependencyTree::build(task);
    let mut log = MessageLog::new();
    let r = tree.execute(&mut fw, &mut log);
    assert!(r.is_ok());
    assert_eq!(fw.database.packages.len(), 1);
    // No file writes were requested; only the post-save of the database.
    for effect in &fw.effects {
        assert!(!matches!(effect, Effect::WriteFile { .. }));
        assert!(!matches!(effect, Effect::CreateDirAll(_)));
    }
}

#[test]
fn install_operation_uninstalls_stale_packages() {
    // An install request that keeps only pkgA: the stale package is
    // scheduled for removal in the same tree.
    let mut fw = demo_framework();
    fw.database.packages.push(LocalInstallation {
        name: String::from("old-extra"),
        version: Version::Integer(1),
        files: vec![String::from("extra.bin")],
        shortcuts: vec![],
    });
    fw.env.releases.push(ReleasesAnswer {
        package: String::from("pkgA"),
        result: Ok(vec![Release {
            version: Version::Semver(SemVer { major: 2, minor: 0, patch: 0 }),
            files: vec![demo_file()],
        }]),
    });
    fw.env.downloads.push(DownloadAnswer {
        url: String::from("https://example.invalid/app-linux.zip"),
        result: Ok(zip_bytes(&[("bin/app", b"#!binary")])),
    });
    let mut log = MessageLog::new();
    let r = fw.install(vec![String::from("pkgA")], false, &mut log);
    assert!(r.is_ok(), "install failed: {:?}", r);
    // The stale package is gone and the requested one is recorded.
    assert_eq!(fw.database.packages.len(), 1);
    assert_eq!(fw.database.packages[0].name, "pkgA");
    let mut deleted = false;
    for effect in &fw.effects {
        if let Effect::DeleteFile(p) = effect {
            if p == "/opt/demo/extra.bin" {
                deleted = true;
            }
        }
    }
    assert!(deleted);
}

#[test]
fn uninstall_operation_clears_everything() {
    let mut fw = demo_framework();
    fw.database.packages.push(LocalInstallation {
        name: String::from("pkgA"),
        version: Version::Integer(1),
        files: vec![String::from("bin/app")],
        shortcuts: vec![String::from("/home/user/app.desktop")],
    });
    fw.database.shortcuts.push(String::from("/home/user/tool.desktop"));
    let mut log = MessageLog::new();
    let r = fw.uninstall(&mut log);
    assert!(r.is_ok(), "uninstall failed: {:?}", r);
    assert!(fw.database.packages.is_empty());
    assert!(fw.database.shortcuts.is_empty());
    assert!(fw.burn_after_exit);
    let mut deletions = Vec::new();
    for effect in &fw.effects {
        if let Effect::DeleteFile(p) = effect {
            deletions.push(p.clone());
        }
    }
    assert!(deletions.contains(&String::from("/home/user/app.desktop")));
    assert!(deletions.contains(&String::from("/opt/demo/bin/app")));
    assert!(deletions.contains(&String::from("/home/user/tool.desktop")));
    assert!(deletions.contains(&String::from("/opt/demo/metadata.json")));
}

#[test]
fn desktop_shortcuts_only_run_when_asked() {
    let mut fw = demo_framework();
    let r = run_task(
        TaskKind::InstallDesktopShortcut(InstallDesktopShortcutTask {
            name: String::from("pkgA"),
            should_run: false,
        }),
        vec![],
        &mut fw,
    );
    match r {
        Ok(TaskParamType::GeneratedShortcuts(files)) => assert!(files.is_empty()),
        other => panic!("unexpected result: {:?}", other),
    }
    assert!(fw.effects.is_empty());

    let mut fw2 = demo_framework();
    let r2 = run_task(
        TaskKind::InstallDesktopShortcut(InstallDesktopShortcutTask {
            name: String::from("pkgA"),
            should_run: true,
        }),
        vec![],
        &mut fw2,
    );
    match r2 {
        Ok(TaskParamType::GeneratedShortcuts(files)) => {
            assert_eq!(files.len(), 1);
            assert!(files[0].ends_with("demo-app.desktop"));
        }
        other => panic!("unexpected result: {:?}", other),
    }

    // With the package recorded, the created artifacts are also tracked in
    // its database entry.
    let mut fw3 = demo_framework();
    fw3.database.packages.push(LocalInstallation {
        name: String::from("pkgA"),
        version: Version::Integer(1),
        files: vec![],
        shortcuts: vec![],
    });
    let r3 = run_task(
        TaskKind::InstallDesktopShortcut(InstallDesktopShortcutTask {
            name: String::from("pkgA"),
            should_run: true,
        }),
        vec![],
        &mut fw3,
    );
    assert!(r3.is_ok());
    assert_eq!(fw3.database.packages[0].shortcuts.len(), 1);
    assert!(fw3.database.packages[0].shortcuts[0].ends_with("demo-app.desktop"));
}

#[test]
fn launch_on_exit_points_at_first_shortcut() {
    let mut fw = demo_framework();
    fw.database.packages.push(LocalInstallation {
        name: String::from("pkgA"),
        version: Version::Integer(1),
        files: vec![],
        shortcuts: vec![],
    });
    let r = run_task(TaskKind::LaunchOnExit(LaunchOnExitTask {}), vec![], &mut fw);
    assert!(matches!(r, Ok(TaskParamType::Empty)));
    assert_eq!(fw.launcher_path, Some(String::from("/opt/demo/bin/app")));
}

#[test]
fn remove_target_dir_forgets_packages_and_requests_clearing() {
    let mut fw = demo_framework();
    fw.preexisting_install = true;
    fw.database.packages.push(LocalInstallation {
        name: String::from("pkgA"),
        version: Version::Integer(1),
        files: vec![],
        shortcuts: vec![],
    });
    let r = run_task(TaskKind::RemoveTargetDir(RemoveTargetDirTask {}), vec![], &mut fw);
    assert!(matches!(r, Ok(TaskParamType::Empty)));
    assert!(fw.database.packages.is_empty());
    assert!(fw.effects.iter().any(|e| matches!(
        e,
        Effect::ClearDirectory { path, keep_maintenance_tool: true } if path == "/opt/demo"
    )));
}

#[test]
fn save_executable_targets_the_maintenance_tool() {
    let mut fw = demo_framework();
    let r = run_task(TaskKind::SaveExecutable(SaveExecutableTask {}), vec![], &mut fw);
    assert!(matches!(r, Ok(TaskParamType::Empty)));
    assert!(fw.effects.iter().any(|e| matches!(
        e,
        Effect::CopyCurrentExe(p) if p == "/opt/demo/maintenancetool"
    )));
}

#[test]
fn global_shortcut_is_tracked_in_the_database() {
    let mut fw = demo_framework();
    let r = run_task(
        TaskKind::InstallGlobalShortcuts(InstallGlobalShortcutsTask {}),
        vec![],
        &mut fw,
    );
    assert!(matches!(r, Ok(TaskParamType::Empty)));
    assert_eq!(fw.database.shortcuts.len(), 1);
    assert!(fw.database.shortcuts[0].ends_with("demo-maintenance-tool.desktop"));
}

#[test]
fn resolver_rejects_a_broken_file_pattern() {
    let mut fw = demo_framework();
    if let Some(config) = fw.config.as_mut() {
        config.packages[0].source.match_regex = String::from("app-(");
    }
    fw.env.releases.push(ReleasesAnswer {
        package: String::from("pkgA"),
        result: Ok(vec![Release { version: Version::Integer(1), files: vec![demo_file()] }]),
    });
    let r = run_task(
        TaskKind::Resolve(ResolvePackageTask { name: String::from("pkgA") }),
        vec![],
        &mut fw,
    );
    assert!(matches!(r, Err(ref e) if e == "An error occurred while compiling the file pattern"));
}

#[test]
fn resolver_fails_when_no_release_has_a_matching_file() {
    let mut fw = demo_framework();
    fw.env.releases.push(ReleasesAnswer {
        package: String::from("pkgA"),
        result: Ok(vec![Release {
            version: Version::Integer(1),
            files: vec![File {
                name: String::from("sources.tar.gz"),
                url: String::from("https://example.invalid/sources.tar.gz"),
                requires_authorization: false,
            }],
        }]),
    });
    let r = run_task(
        TaskKind::Resolve(ResolvePackageTask { name: String::from("pkgA") }),
        vec![],
        &mut fw,
    );
    assert!(matches!(r, Err(ref e) if e == "No release with correct file found"));
}

#[test]
fn status_reports_mirror_the_framework() {
    let mut fw = demo_framework();
    fw.database.packages.push(LocalInstallation {
        name: String::from("pkgA"),
        version: Version::Integer(3),
        files: vec![String::from("bin/app")],
        shortcuts: vec![],
    });
    let status = fw.get_installation_status();
    assert_eq!(status.install_path, Some(String::from("/opt/demo")));
    assert_eq!(status.database.packages.len(), 1);
    assert_eq!(status.database.packages[0].name, "pkgA");
    assert!(!status.preexisting_install);
    let config = fw.get_config().unwrap();
    assert_eq!(config.packages.len(), 1);
    assert_eq!(config.packages[0].name, "pkgA");
}
