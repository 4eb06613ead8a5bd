//! Small string utilities shared by the router: equality of string
//! slices over their character views, and the static-asset path
//! normalization rule (a trailing slash resolves to `index.html`).

use vstd::prelude::*;
use vstd::string::*;

verus! {

/// The path a static-asset request actually resolves: a path that ends
/// in `/` is extended with `index.html`, every other path is kept as it
/// is.
pub open spec fn spec_normalize(path: Seq<char>) -> Seq<char> {
    if path.len() > 0 && path[path.len() - 1] == '/' {
        path + "index.html"@
    } else {
        path
    }
}

/// Character-for-character equality of two string slices.
pub fn str_eq(a: &str, b: &str) -> (r: bool)
    ensures
        r == (a@ == b@),
{
    let owned_a: String = a.to_owned();
    let owned_b: String = b.to_owned();
    owned_a == owned_b
}

/// Whether the path's last character is `/`.
pub fn ends_with_slash(path: &str) -> (r: bool)
    ensures
        r == (path@.len() > 0 && path@[path@.len() - 1] == '/'),
{
    let len = path.unicode_len();
    if len == 0 {
        false
    } else {
        path.get_char(len - 1) == '/'
    }
}

/// Builds the normalized asset path of `spec_normalize`.
pub fn normalize_asset_path(path: &str) -> (r: String)
    ensures
        r@ == spec_normalize(path@),
{
    if ends_with_slash(path) {
        path.to_owned().concat("index.html")
    } else {
        path.to_owned()
    }
}

} // verus!
