//! Where a build leaves what is deployed.
//!
//! The builder writes the frontend to one directory and the server binary to
//! another, which depends on whether the build was a release build. This
//! module names the parts of both paths; joining them is left to the caller,
//! who knows the separator of the platform.

use vstd::prelude::*;

verus! {

/// Directory under which the builder writes the frontend.
pub const TARGET_DIR: &'static str = "target";

/// Directory of the frontend, below `TARGET_DIR`.
pub const FRONTEND_DIR: &'static str = "site";

/// Directory under which the server is built, unless another is given.
pub const DEFAULT_BIN_DIR: &'static str = "target/x86_64-unknown-linux-musl";

/// Directory of a release build, below the directory of server builds.
pub const RELEASE_DIR: &'static str = "release";

/// Directory of a debug build, below the directory of server builds.
pub const DEBUG_DIR: &'static str = "debug";

/// A directory, as the directory it lies in and its name there.
#[derive(Debug, PartialEq, Eq)]
pub struct Location {
    pub parent: String,
    pub name: String,
}

impl View for Location {
    type V = (Seq<char>, Seq<char>);

    open spec fn view(&self) -> (Seq<char>, Seq<char>) {
        (self.parent@, self.name@)
    }
}

/// The name of the directory of a build of the given kind.
pub open spec fn profile_dir(release: bool) -> Seq<char> {
    if release {
        RELEASE_DIR@
    } else {
        DEBUG_DIR@
    }
}

/// The directory under which the server is built: the one given, or the
/// default.
pub open spec fn bin_dir(given: Option<Seq<char>>) -> Seq<char> {
    match given {
        Some(dir) => dir,
        None => DEFAULT_BIN_DIR@,
    }
}

/// The directory of the frontend: `site` in `target`.
pub fn frontend_location() -> (location: Location)
    ensures
        location@ == (TARGET_DIR@, FRONTEND_DIR@),
{
    Location { parent: String::from_str(TARGET_DIR), name: String::from_str(FRONTEND_DIR) }
}

/// The directory of the server artifacts: `release` or `debug`, by the kind
/// of the build, in the directory of server builds. That directory is the
/// one given, or the default where none is given.
pub fn server_location(given_bin_dir: Option<String>, release: bool) -> (location: Location)
    ensures
        location@ == (bin_dir(crate::client::text_view(given_bin_dir)), profile_dir(release)),
{
    let parent: String = match given_bin_dir {
        Some(dir) => dir,
        None => String::from_str(DEFAULT_BIN_DIR),
    };
    let name: String = if release {
        String::from_str(RELEASE_DIR)
    } else {
        String::from_str(DEBUG_DIR)
    };
    Location { parent, name }
}

} // verus!
