//! The header generator's configuration and the one file it produces: which
//! dialect, which header name, which directory.
use vstd::prelude::*;
use crate::render::Dialect;
use crate::surface::{rendered, AbiSurface, GenError};
use crate::types::Decl;

verus! {

/// The directory a header goes to when no override is given.
pub open spec fn default_output_dir() -> Seq<char> {
    "../build"@
}

/// The view of an optional override.
pub open spec fn override_view(o: Option<String>) -> Option<Seq<char>> {
    match o {
        Some(s) => Some(s@),
        None => None,
    }
}

/// The output directory: the override when it is given and not empty, else
/// the default.
pub open spec fn resolved_dir(o: Option<Seq<char>>) -> Seq<char> {
    match o {
        Some(p) => if p.len() > 0 {
            p
        } else {
            default_output_dir()
        },
        None => default_output_dir(),
    }
}

/// The path of header `name` inside directory `dir`.
pub open spec fn header_path(dir: Seq<char>, name: Seq<char>) -> Seq<char> {
    dir + "/"@ + name
}

/// The default output directory.
fn default_dir() -> (r: String)
    ensures
        r@ == default_output_dir(),
{
    String::from_str("../build")
}

/// Resolves the output directory from an optional override, taken verbatim
/// when present and not empty.
pub fn resolve_output_dir(override_dir: Option<String>) -> (r: String)
    ensures
        r@ == resolved_dir(override_view(override_dir)),
{
    match override_dir {
        Some(p) => {
            if p.as_str().is_empty() {
                default_dir()
            } else {
                p
            }
        },
        None => default_dir(),
    }
}

/// The path the header named `name` is written to, given the override.
pub fn output_path(override_dir: Option<String>, name: &str) -> (r: String)
    ensures
        r@ == header_path(resolved_dir(override_view(override_dir)), name@),
{
    let mut dir = resolve_output_dir(override_dir);
    dir.append("/");
    dir.append(name);
    dir
}

/// A header to produce: the dialect it is rendered in and its file name.
#[derive(Debug)]
pub struct Header {
    pub dialect: Dialect,
    pub name: String,
}

impl Header {
    /// A C99 header named `rust-lib.h`.
    pub fn c99() -> (r: Header)
        ensures
            r.dialect == Dialect::C99,
            r.name@ == "rust-lib.h"@,
    {
        Header { dialect: Dialect::C99, name: String::from_str("rust-lib.h") }
    }

    /// The same header under the file name `name`.
    pub fn name(self, name: &str) -> (r: Header)
        ensures
            r.dialect == self.dialect,
            r.name@ == name@,
    {
        Header { dialect: self.dialect, name: String::from_str(name) }
    }
}

/// The one file a run of the generator writes: where, and what.
#[derive(Debug)]
pub struct HeaderFile {
    pub path: String,
    pub contents: String,
}

/// Whether `r` is the outcome of generating `header` for the declarations
/// `ds` with the override `o`.
pub open spec fn generates(
    r: Result<HeaderFile, GenError>,
    o: Option<Seq<char>>,
    header: Header,
    ds: Seq<Decl>,
) -> bool {
    match rendered(header.dialect, ds) {
        Ok(h) => r matches Ok(f) && f.path@ == header_path(resolved_dir(o), header.name@)
            && f.contents@ == h,
        Err((n, t)) => r matches Err(GenError::Unrepresentable { symbol, offending_type })
            && symbol@ == n && offending_type@ == t,
    }
}

/// Produces the header file for `surface`: its full contents, rendered in
/// memory, and the path it goes to. Nothing is produced when a declaration
/// cannot be rendered.
pub fn plan_build(override_dir: Option<String>, header: &Header, surface: &AbiSurface) -> (r:
    Result<HeaderFile, GenError>)
    ensures
        generates(r, override_view(override_dir), *header, surface@),
{
    let contents = surface.render(header.dialect);
    match contents {
        Ok(contents) => {
            let path = output_path(override_dir, header.name.as_str());
            Ok(HeaderFile { path, contents })
        },
        Err(e) => Err(e),
    }
}

} // verus!
