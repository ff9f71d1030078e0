//! Routing for the embedded web frontend: which service a request reaches,
//! decided from its method and path. The transport itself is the host's
//! concern; the decision is verified here.

use vstd::prelude::*;

use crate::strutil::str_eq;

verus! {

/// The request methods the frontend distinguishes.
#[derive(PartialEq, Eq, Structural, Clone, Copy, Debug)]
pub enum HttpMethod {
    Get,
    Post,
}

/// The service a request is dispatched to.
#[derive(PartialEq, Eq, Structural, Clone, Copy, Debug)]
pub enum Route {
    Attributes,
    Config,
    DarkMode,
    DefaultPath,
    Exit,
    Packages,
    InstallationStatus,
    StartInstall,
    Uninstall,
    UpdateUpdater,
    StaticFile,
    NotFound,
}

/// Where a request lands: the interface endpoints by exact path, any other
/// read as a static frontend file, and anything else nowhere.
pub open spec fn spec_route(method: HttpMethod, path: Seq<char>) -> Route {
    match method {
        HttpMethod::Get => {
            if path == "/api/attrs"@ {
                Route::Attributes
            } else if path == "/api/config"@ {
                Route::Config
            } else if path == "/api/dark-mode"@ {
                Route::DarkMode
            } else if path == "/api/default-path"@ {
                Route::DefaultPath
            } else if path == "/api/exit"@ {
                Route::Exit
            } else if path == "/api/packages"@ {
                Route::Packages
            } else if path == "/api/installation-status"@ {
                Route::InstallationStatus
            } else {
                Route::StaticFile
            }
        },
        HttpMethod::Post => {
            if path == "/api/start-install"@ {
                Route::StartInstall
            } else if path == "/api/uninstall"@ {
                Route::Uninstall
            } else if path == "/api/update-updater"@ {
                Route::UpdateUpdater
            } else {
                Route::NotFound
            }
        },
    }
}

/// Dispatches a request to its service.
pub fn route(method: HttpMethod, path: &str) -> (r: Route)
    ensures
        r == spec_route(method, path@),
{
    match method {
        HttpMethod::Get => {
            if str_eq(path, "/api/attrs") {
                Route::Attributes
            } else if str_eq(path, "/api/config") {
                Route::Config
            } else if str_eq(path, "/api/dark-mode") {
                Route::DarkMode
            } else if str_eq(path, "/api/default-path") {
                Route::DefaultPath
            } else if str_eq(path, "/api/exit") {
                Route::Exit
            } else if str_eq(path, "/api/packages") {
                Route::Packages
            } else if str_eq(path, "/api/installation-status") {
                Route::InstallationStatus
            } else {
                Route::StaticFile
            }
        },
        HttpMethod::Post => {
            if str_eq(path, "/api/start-install") {
                Route::StartInstall
            } else if str_eq(path, "/api/uninstall") {
                Route::Uninstall
            } else if str_eq(path, "/api/update-updater") {
                Route::UpdateUpdater
            } else {
                Route::NotFound
            }
        },
    }
}

} // verus!
