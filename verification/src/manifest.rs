//! The metadata manifest: a flat key/value record derived from the
//! configuration plus a constant build number, written once per build into
//! the output root and consumed exclusively by the external packager.

use vstd::prelude::*;
use vstd::string::*;
use crate::config::Config;
use crate::paths::{join, join_spec};

verus! {

/// The exact manifest text for a configuration: one `key=value` line per
/// field, in fixed order, with the constant build number `1`.
pub open spec fn manifest_view(c: Config) -> Seq<char> {
    "name="@ + c.name@ + "\n"@ + "author="@ + c.author@ + "\n"@ + "description="@ + c.description@
        + "\n"@ + "bundleID="@ + c.bundle_id@ + "\n"@ + "version="@ + c.version@ + "\n"@
        + "buildNumber=1\n"@
}

/// Renders the manifest for `c`, line by line.
pub fn manifest_text(c: &Config) -> (r: String)
    ensures
        r@ == manifest_view(*c),
{
    let mut r = String::from_str("name=");
    r.append(c.name.as_str());
    r.append("\n");
    r.append("author=");
    r.append(c.author.as_str());
    r.append("\n");
    r.append("description=");
    r.append(c.description.as_str());
    r.append("\n");
    r.append("bundleID=");
    r.append(c.bundle_id.as_str());
    r.append("\n");
    r.append("version=");
    r.append(c.version.as_str());
    r.append("\n");
    r.append("buildNumber=1\n");
    proof {
        assert(r@ =~= manifest_view(*c));
    }
    r
}

/// Where the manifest lives in the output tree.
pub fn manifest_path(build_dir: &str) -> (r: String)
    ensures
        r@ == join_spec(build_dir@, "pdxinfo"@),
{
    join(build_dir, "pdxinfo")
}

} // verus!
