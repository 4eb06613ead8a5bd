//! Request routing: a method and a path select one of the six
//! behaviors of the dispatch table, with `GET` matched first by path
//! and every other method falling through to not-found.

use vstd::prelude::*;
use crate::text::{normalize_asset_path, spec_normalize, str_eq};

verus! {

/// The request methods the router distinguishes.  Everything except
/// `Get` takes the same fall-through route, so uncommon methods all
/// map to `Other`.
#[derive(Clone, Copy, PartialEq, Eq, Structural, Debug)]
pub enum Method {
    Get,
    Post,
    Put,
    Delete,
    Head,
    Options,
    Connect,
    Patch,
    Trace,
    Other,
}

/// Where a request goes: one of the four API endpoints, a static-asset
/// lookup under a normalized path, or not-found for non-`GET` methods.
#[derive(Debug)]
pub enum Route {
    Config,
    FileSelect,
    DefaultPath,
    Exit,
    Asset(String),
    NotFound,
}

/// Whether the path names one of the four API endpoints.
pub open spec fn spec_is_api_path(path: Seq<char>) -> bool {
    ||| path == "/api/config"@
    ||| path == "/api/file-select"@
    ||| path == "/api/default-path"@
    ||| path == "/api/exit"@
}

/// Resolves the dispatch table: first match on method, then on path.
pub fn dispatch(method: Method, path: &str) -> (r: Route)
    ensures
        method is Get && path@ == "/api/config"@ ==> r is Config,
        method is Get && path@ == "/api/file-select"@ ==> r is FileSelect,
        method is Get && path@ == "/api/default-path"@ ==> r is DefaultPath,
        method is Get && path@ == "/api/exit"@ ==> r is Exit,
        method is Get && !spec_is_api_path(path@) ==> (r matches Route::Asset(p) && p@
            == spec_normalize(path@)),
        !(method is Get) ==> r is NotFound,
{
    proof {
        reveal_strlit("/api/config");
        reveal_strlit("/api/file-select");
        reveal_strlit("/api/default-path");
        reveal_strlit("/api/exit");
        assert("/api/config"@.len() == 11);
        assert("/api/file-select"@.len() == 16);
        assert("/api/default-path"@.len() == 17);
        assert("/api/exit"@.len() == 9);
    }
    if !matches!(method, Method::Get) {
        return Route::NotFound;
    }
    if str_eq(path, "/api/config") {
        Route::Config
    } else if str_eq(path, "/api/file-select") {
        Route::FileSelect
    } else if str_eq(path, "/api/default-path") {
        Route::DefaultPath
    } else if str_eq(path, "/api/exit") {
        Route::Exit
    } else {
        Route::Asset(normalize_asset_path(path))
    }
}

} // verus!
