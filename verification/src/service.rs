//! The per-request service: routes a request and builds the response
//! action the connection handler encodes.  The one outside effect a
//! request can ask for — showing the native folder picker — happens
//! before the call; its outcome is handed in as a plain optional path
//! and is consulted only on the folder-selection route.

use vstd::prelude::*;
use vstd::string::*;
use crate::assets::AssetResolver;
use crate::installer::InstallerFramework;
use crate::json::{
    enscapsulate_json, spec_enscapsulated, spec_file_selection_body, FileSelection,
};
use crate::router::{dispatch, spec_is_api_path, Method, Route};
use crate::text::spec_normalize;

verus! {

/// What a routed request asks the connection handler to do.
#[derive(Debug)]
pub enum ResponseAction {
    /// Send a JSON (or JSON-bearing script) body with status 200.
    ServeJson(String),
    /// Send an asset's bytes under its content type with status 200.
    ServeAsset(String, Vec<u8>),
    /// Send status 404 with an empty body.
    NotFound,
    /// End the process with exit code 0; no response is sent.
    Terminate,
}

/// The body of the configuration endpoint: the configuration's JSON
/// wrapped as a script that assigns the global variable `config`.
pub open spec fn spec_config_body(json: Seq<char>) -> Seq<char> {
    spec_enscapsulated("config"@, json)
}

/// Law: the configuration body is exactly `var config = `, then the
/// facade's JSON unchanged, then `;` — so stripping that prefix and
/// the trailing semicolon returns the serialization it was built from.
pub proof fn lemma_config_body_round_trip(json: Seq<char>)
    ensures
        spec_config_body(json).len() == "var config = "@.len() + json.len() + 1,
        spec_config_body(json).subrange(0, "var config = "@.len() as int) == "var config = "@,
        spec_config_body(json).subrange(
            "var config = "@.len() as int,
            spec_config_body(json).len() - 1,
        ) == json,
        spec_config_body(json).last() == ';',
{
    reveal_strlit("var ");
    reveal_strlit("config");
    reveal_strlit(" = ");
    reveal_strlit("var config = ");
    reveal_strlit(";");
    let body = spec_config_body(json);
    assert(body.subrange(0, 13) =~= "var config = "@);
    assert(body.subrange(13, body.len() - 1) =~= json);
}

/// The request service: shared read access to the installer facade and
/// the asset store.
pub struct WebService {
    pub framework: InstallerFramework,
    pub assets: AssetResolver,
}

impl WebService {
    /// Answers one request.  `picked` is what the native folder picker
    /// returned where the caller ran it; it is read only on the
    /// folder-selection route.
    pub fn call(&self, method: Method, path: &str, picked: Option<String>) -> (r: ResponseAction)
        ensures
            method is Get && path@ == "/api/config"@ ==> (r matches ResponseAction::ServeJson(body)
                && body@ == spec_config_body(self.framework.config_json@)),
            method is Get && path@ == "/api/file-select"@ ==> (r matches ResponseAction::ServeJson(
                body,
            ) && body@ == spec_file_selection_body(picked.deep_view())),
            method is Get && path@ == "/api/default-path"@ ==> (r
                matches ResponseAction::ServeJson(body) && body@ == spec_file_selection_body(
                self.framework.default_path.deep_view(),
            )),
            method is Get && path@ == "/api/exit"@ ==> r is Terminate,
            method is Get && !spec_is_api_path(path@) ==> (match self.assets.spec_lookup(
                spec_normalize(path@),
            ) {
                Option::Some(found) => r matches ResponseAction::ServeAsset(t, b) && t@ == found.0
                    && b@ == found.1,
                Option::None => r is NotFound,
            }),
            !(method is Get) ==> r is NotFound,
    {
        let route = dispatch(method, path);
        match route {
            Route::Config => {
                let body = enscapsulate_json("config", self.framework.get_config_json().as_str());
                ResponseAction::ServeJson(body)
            },
            Route::FileSelect => {
                let selection = FileSelection { path: picked };
                ResponseAction::ServeJson(selection.to_json())
            },
            Route::DefaultPath => {
                let selection = FileSelection { path: self.framework.get_default_path() };
                ResponseAction::ServeJson(selection.to_json())
            },
            Route::Exit => ResponseAction::Terminate,
            Route::Asset(p) => {
                match self.assets.lookup(p.as_str()) {
                    Option::Some(a) => ResponseAction::ServeAsset(
                        a.content_type.clone(),
                        vstd::slice::slice_to_vec(a.content.as_slice()),
                    ),
                    Option::None => ResponseAction::NotFound,
                }
            },
            Route::NotFound => ResponseAction::NotFound,
        }
    }
}

} // verus!
