//! Exercises the supporting pieces: string and path helpers, progress
//! arithmetic, web-edge formatting and the archive codecs.

use std::io::Write;

use liftinstall::archives::read_archive;
use liftinstall::http::assert_ssl;
use liftinstall::http::encapsulate_json;
use liftinstall::native::count_u16;
use liftinstall::native::is_dark_mode_active;
use liftinstall::progress::Progress;
use liftinstall::progress::SCALE;
use liftinstall::rest::route;
use liftinstall::rest::HttpMethod;
use liftinstall::rest::Route;
use liftinstall::sources::GithubReleases;
use liftinstall::sources::PatreonReleases;
use liftinstall::sources::SemVer;
use liftinstall::sources::Version;
use liftinstall::strutil::count_char;
use liftinstall::strutil::replace_all;
use liftinstall::strutil::sanitize_path;
use liftinstall::strutil::str_ends_with;
use liftinstall::strutil::str_starts_with;

#[test]
fn replace_all_substitutes_every_occurrence() {
    let r = replace_all("app-#PLATFORM#-#PLATFORM#.zip", "#PLATFORM#", "linux");
    assert_eq!(r, "app-linux-linux.zip");
    assert_eq!(replace_all("unchanged", "#PLATFORM#", "linux"), "unchanged");
}

#[test]
fn sanitize_path_drops_traversal_markers() {
    assert_eq!(sanitize_path("bin/app"), "bin/app");
    assert_eq!(sanitize_path("../../etc/passwd"), "etc/passwd");
    assert_eq!(sanitize_path("./a//b/./c"), "a/b/c");
}

#[test]
fn string_probes_behave() {
    assert!(str_starts_with("https://x", "https://"));
    assert!(!str_starts_with("http://x", "https://"));
    assert!(str_ends_with("tool.exe", ".exe"));
    assert!(!str_ends_with("exe", "tool.exe"));
    assert_eq!(count_char("a/b/c", '/'), 2);
}

#[test]
fn progress_arithmetic_is_exact() {
    assert_eq!(Progress::zero().units(), 0);
    assert_eq!(Progress::one().units(), SCALE);
    assert_eq!(Progress::ratio(1, 2).units(), SCALE / 2);
    assert_eq!(Progress::ratio(1, 3).units(), SCALE / 3);
    // Rescaling a completed unit into slot 2 of 4 lands at three quarters.
    assert_eq!(Progress::one().rescale(2, 3).units(), 3 * (SCALE / 4));
    // Rescaling zero into slot 0 stays at zero.
    assert_eq!(Progress::zero().rescale(0, 3).units(), 0);
}

#[test]
fn version_ordering_coarsens_integers() {
    let two = Version::Semver(SemVer { major: 2, minor: 0, patch: 0 });
    let two_one = Version::Semver(SemVer { major: 2, minor: 1, patch: 0 });
    assert!(two.lt(&two_one));
    assert!(!two_one.lt(&two));
    assert!(Version::Integer(1).lt(&two));
    assert!(two.lt(&Version::Integer(3)));
    assert_eq!(Version::new_number(4), Version::Integer(4));
    assert_eq!(
        Version::new_semver(SemVer { major: 1, minor: 2, patch: 3 }),
        Version::Semver(SemVer { major: 1, minor: 2, patch: 3 }),
    );
}

#[test]
fn web_edge_helpers_format_and_check() {
    assert!(assert_ssl("https://example.invalid").is_ok());
    assert!(assert_ssl("http://example.invalid").is_err());
    assert_eq!(encapsulate_json("config", "{\"a\":1}"), "var config = {\"a\":1};");
}

#[test]
fn count_u16_stops_at_nul() {
    assert_eq!(count_u16(&[104, 105, 0, 33]), 2);
    assert_eq!(count_u16(&[104, 105]), 2);
    assert_eq!(count_u16(&[0]), 0);
    assert!(!is_dark_mode_active());
    let _ = (GithubReleases::new(), PatreonReleases::new());
}

#[test]
fn zip_archives_decode_to_their_entries() {
    let cursor = std::io::Cursor::new(Vec::new());
    let mut writer = zip::ZipWriter::new(cursor);
    let options = zip::write::SimpleFileOptions::default();
    writer.add_directory("docs", options).unwrap();
    writer.start_file("docs/readme.md", options).unwrap();
    writer.write_all(b"content").unwrap();
    let bytes = writer.finish().unwrap().into_inner();

    let entries = read_archive("release.zip", &bytes).unwrap();
    // The directory entry is dropped; the file arrives with its bytes.
    assert_eq!(entries.len(), 1);
    assert_eq!(entries[0].name, "docs/readme.md");
    assert_eq!(entries[0].data, b"content".to_vec());
}

#[test]
fn tar_xz_archives_decode_to_their_regular_files() {
    let mut builder = tar::Builder::new(Vec::new());
    let mut header = tar::Header::new_gnu();
    header.set_size(5);
    header.set_mode(0o644);
    header.set_cksum();
    builder
        .append_data(&mut header, "bin/tool", std::io::Cursor::new(b"#tool".to_vec()))
        .unwrap();
    let tar_bytes = builder.into_inner().unwrap();
    let mut encoder = xz2::write::XzEncoder::new(Vec::new(), 6);
    encoder.write_all(&tar_bytes).unwrap();
    let xz_bytes = encoder.finish().unwrap();

    let entries = read_archive("release.tar.xz", &xz_bytes).unwrap();
    assert_eq!(entries.len(), 1);
    assert_eq!(entries[0].name, "bin/tool");
    assert_eq!(entries[0].data, b"#tool".to_vec());
}

#[test]
fn unknown_archive_extensions_are_refused() {
    let r = read_archive("release.rar", &vec![1, 2, 3]);
    assert!(matches!(r, Err(ref e) if e == "No decompression handler for release.rar."));
    let broken = read_archive("release.zip", &vec![1, 2, 3]);
    assert!(matches!(broken, Err(ref e) if e == "Error while reading .zip file"));
}

#[test]
fn requests_reach_their_services() {
    assert_eq!(route(HttpMethod::Get, "/api/attrs"), Route::Attributes);
    assert_eq!(route(HttpMethod::Get, "/api/config"), Route::Config);
    assert_eq!(route(HttpMethod::Get, "/api/dark-mode"), Route::DarkMode);
    assert_eq!(route(HttpMethod::Get, "/api/default-path"), Route::DefaultPath);
    assert_eq!(route(HttpMethod::Get, "/api/exit"), Route::Exit);
    assert_eq!(route(HttpMethod::Get, "/api/packages"), Route::Packages);
    assert_eq!(
        route(HttpMethod::Get, "/api/installation-status"),
        Route::InstallationStatus,
    );
    assert_eq!(route(HttpMethod::Post, "/api/start-install"), Route::StartInstall);
    assert_eq!(route(HttpMethod::Post, "/api/uninstall"), Route::Uninstall);
    assert_eq!(route(HttpMethod::Post, "/api/update-updater"), Route::UpdateUpdater);
    assert_eq!(route(HttpMethod::Get, "/index.html"), Route::StaticFile);
    assert_eq!(route(HttpMethod::Post, "/api/attrs"), Route::NotFound);
}
