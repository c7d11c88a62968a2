//! Project configuration: the immutable descriptor a build runs against. It
//! is read once at startup from the project's configuration document; absent
//! directory entries fall back to fixed defaults, while the five descriptive
//! fields are required and their absence is a configuration error.

use vstd::prelude::*;
use vstd::string::*;
use crate::errors::BuildError;

verus! {

/// The directory triple the build works in.
pub struct Directories {
    /// Where the source tree to mirror lives.
    pub src: String,
    /// Where auxiliary assets live.
    pub assets: String,
    /// Where the output tree and the bundle are placed.
    pub target: String,
}

impl Directories {
    /// The directories named in the document, each falling back to its
    /// default when absent.
    pub fn from_options(src: Option<String>, assets: Option<String>, target: Option<String>) -> (r:
        Directories)
        ensures
            r.src@ == match src {
                Some(s) => s@,
                None => "src"@,
            },
            r.assets@ == match assets {
                Some(s) => s@,
                None => "assets"@,
            },
            r.target@ == match target {
                Some(s) => s@,
                None => "target"@,
            },
    {
        let src = match src {
            Some(s) => s,
            None => String::from_str("src"),
        };
        let assets = match assets {
            Some(s) => s,
            None => String::from_str("assets"),
        };
        let target = match target {
            Some(s) => s,
            None => String::from_str("target"),
        };
        Directories { src, assets, target }
    }
}

impl Default for Directories {
    /// The directory triple with nothing overridden.
    fn default() -> (r: Directories)
        ensures
            r.src@ == "src"@,
            r.assets@ == "assets"@,
            r.target@ == "target"@,
    {
        Directories::from_options(None, None, None)
    }
}

/// The immutable project descriptor, loaded once per build invocation.
pub struct Config {
    /// The product's display name.
    pub name: String,
    /// The product's author.
    pub author: String,
    /// A one-line description of the product.
    pub description: String,
    /// The reverse-domain bundle identifier; it also names the bundle
    /// artifact.
    pub bundle_id: String,
    /// The product version string.
    pub version: String,
    /// The directory triple the build works in.
    pub directories: Directories,
    /// Environment key/value pairs handed through to the build, in document
    /// order.
    pub environment: Vec<(String, String)>,
    /// Dependency name/locator pairs, passed through unresolved.
    pub dependencies: Vec<(String, String)>,
    /// An optional override path for the image-conversion executable.
    pub aseprite_path: Option<String>,
}

impl Config {
    /// Assembles the configuration from the fields the document supplied.
    /// Succeeds exactly when the five required descriptive fields are all
    /// present; a missing one is a configuration error.
    pub fn from_document(
        name: Option<String>,
        author: Option<String>,
        description: Option<String>,
        bundle_id: Option<String>,
        version: Option<String>,
        src: Option<String>,
        assets: Option<String>,
        target: Option<String>,
        environment: Vec<(String, String)>,
        dependencies: Vec<(String, String)>,
        aseprite_path: Option<String>,
    ) -> (r: Result<Config, BuildError>)
        ensures
            r is Ok <==> (name is Some && author is Some && description is Some
                && bundle_id is Some && version is Some),
            r matches Ok(c) ==> {
                &&& c.name == name.unwrap()
                &&& c.author == author.unwrap()
                &&& c.description == description.unwrap()
                &&& c.bundle_id == bundle_id.unwrap()
                &&& c.version == version.unwrap()
                &&& c.directories.src@ == match src {
                    Some(s) => s@,
                    None => "src"@,
                }
                &&& c.directories.assets@ == match assets {
                    Some(s) => s@,
                    None => "assets"@,
                }
                &&& c.directories.target@ == match target {
                    Some(s) => s@,
                    None => "target"@,
                }
                &&& c.environment == environment
                &&& c.dependencies == dependencies
                &&& c.aseprite_path == aseprite_path
            },
            r matches Err(e) ==> e is Config,
    {
        let name = match name {
            Some(s) => s,
            None => {
                return Err(missing_field("name"));
            },
        };
        let author = match author {
            Some(s) => s,
            None => {
                return Err(missing_field("author"));
            },
        };
        let description = match description {
            Some(s) => s,
            None => {
                return Err(missing_field("description"));
            },
        };
        let bundle_id = match bundle_id {
            Some(s) => s,
            None => {
                return Err(missing_field("bundle_id"));
            },
        };
        let version = match version {
            Some(s) => s,
            None => {
                return Err(missing_field("version"));
            },
        };
        Ok(
            Config {
                name,
                author,
                description,
                bundle_id,
                version,
                directories: Directories::from_options(src, assets, target),
                environment,
                dependencies,
                aseprite_path,
            },
        )
    }
}

/// The configuration error for a required document field that is absent.
fn missing_field(field: &str) -> (r: BuildError)
    ensures
        r is Config,
{
    let mut message = String::from_str("missing required field: ");
    message.append(field);
    BuildError::Config { message }
}

} // verus!
