//! Error taxonomy of the build. Every failure aborts the remaining build
//! stages and is reported with its context; nothing is silently swallowed
//! except a formatter failure (the unformatted text is used instead) and
//! "directory already exists" during output-directory creation.

use vstd::prelude::*;
use vstd::string::*;

verus! {

/// A build failure, carrying the context the report needs.
#[derive(Debug)]
pub enum BuildError {
    /// A malformed or incomplete project configuration; fatal at startup.
    Config { message: String },
    /// A filesystem failure, with the path it struck; fatal.
    Io { path: String, message: String },
    /// An external tool or metaprogram failure while processing one source
    /// file, with the captured diagnostic text; aborts the whole walk.
    Processor { path: String, message: String },
    /// A failure of the final packaging compiler; fatal.
    Packaging { message: String },
}

impl BuildError {
    /// A one-line report of the failure: its stage, its path context where it
    /// has one, and the captured diagnostic text.
    pub fn text(&self) -> (r: String)
        ensures
            r@ == match *self {
                BuildError::Config { message } => "configuration error: "@ + message@,
                BuildError::Io { path, message } => "i/o error at "@ + path@ + ": "@ + message@,
                BuildError::Processor { path, message } => "processor error at "@ + path@ + ": "@
                    + message@,
                BuildError::Packaging { message } => "packaging error: "@ + message@,
            },
    {
        match self {
            BuildError::Config { message } => {
                let mut r = String::from_str("configuration error: ");
                r.append(message.as_str());
                proof {
                    assert(r@ =~= "configuration error: "@ + message@);
                }
                r
            },
            BuildError::Io { path, message } => {
                let mut r = String::from_str("i/o error at ");
                r.append(path.as_str());
                r.append(": ");
                r.append(message.as_str());
                proof {
                    assert(r@ =~= "i/o error at "@ + path@ + ": "@ + message@);
                }
                r
            },
            BuildError::Processor { path, message } => {
                let mut r = String::from_str("processor error at ");
                r.append(path.as_str());
                r.append(": ");
                r.append(message.as_str());
                proof {
                    assert(r@ =~= "processor error at "@ + path@ + ": "@ + message@);
                }
                r
            },
            BuildError::Packaging { message } => {
                let mut r = String::from_str("packaging error: ");
                r.append(message.as_str());
                proof {
                    assert(r@ =~= "packaging error: "@ + message@);
                }
                r
            },
        }
    }
}

} // verus!
