use installer_rest::router::{dispatch, Method, Route};
use installer_rest::text::normalize_asset_path;

#[test]
fn get_api_paths_take_their_routes() {
    assert!(matches!(dispatch(Method::Get, "/api/config"), Route::Config));
    assert!(matches!(
        dispatch(Method::Get, "/api/file-select"),
        Route::FileSelect
    ));
    assert!(matches!(
        dispatch(Method::Get, "/api/default-path"),
        Route::DefaultPath
    ));
    assert!(matches!(dispatch(Method::Get, "/api/exit"), Route::Exit));
}

#[test]
fn non_get_methods_are_not_found() {
    let methods = [Method::Post, Method::Put, Method::Delete];
    let paths = ["/api/config", "/api/exit", "/", "/index.html"];
    for method in methods {
        for path in paths {
            assert!(matches!(dispatch(method, path), Route::NotFound));
        }
    }
}

#[test]
fn other_get_paths_are_asset_requests() {
    match dispatch(Method::Get, "/app.js") {
        Route::Asset(p) => assert_eq!(p, "/app.js"),
        other => panic!("expected an asset route, got {:?}", other),
    }
}

#[test]
fn trailing_slash_resolves_to_index() {
    match dispatch(Method::Get, "/") {
        Route::Asset(p) => assert_eq!(p, "/index.html"),
        other => panic!("expected an asset route, got {:?}", other),
    }
    match dispatch(Method::Get, "/sub/dir/") {
        Route::Asset(p) => assert_eq!(p, "/sub/dir/index.html"),
        other => panic!("expected an asset route, got {:?}", other),
    }
}

#[test]
fn normalize_only_touches_trailing_slash() {
    assert_eq!(normalize_asset_path("/sub/"), "/sub/index.html");
    assert_eq!(normalize_asset_path("/sub"), "/sub");
    assert_eq!(normalize_asset_path(""), "");
    assert_eq!(normalize_asset_path("/a/b.css"), "/a/b.css");
}
