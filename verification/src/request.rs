//! Operation requests.
//!
//! The tool ships under two command surfaces.  `xfetch` offers `create` and
//! `import` and gates every run behind privilege elevation; `cortex` offers
//! `create`, `copy` and `paste` and runs as the invoking user.  A parsed
//! command line becomes a request: one subcommand with its arguments, held
//! only for the single operation of this process.

use vstd::prelude::*;

verus! {

/// Which command surface the binary presents.
#[derive(Clone, Copy, Debug, PartialEq, Eq, Structural)]
pub enum Variant {
    Xfetch,
    Cortex,
}

/// Why a command line was rejected before any filesystem action.
#[derive(Clone, Copy, Debug, PartialEq, Eq, Structural)]
pub enum UsageError {
    /// No subcommand was given.
    NoSubcommand,
    /// The subcommand is not one this surface offers.
    UnknownSubcommand,
    /// `create` was given no path.
    MissingPath,
    /// A copying subcommand was given no source.
    MissingSource,
    /// `copy` or `paste` was given no destination.
    MissingDestination,
    /// A flag the subcommand does not take.
    UnknownFlag,
    /// A positional argument beyond those the subcommand takes.
    ExtraArgument,
}

/// The mathematical value of a request.
#[verifier::ext_equal]
#[allow(inconsistent_fields)]
pub enum ReqModel {
    Create { path: Seq<char>, directory: bool },
    Import { source: Seq<char>, destination: Option<Seq<char>> },
    Copy { source: Seq<char>, destination: Seq<char> },
    Paste { source: Seq<char>, destination: Seq<char> },
}

/// One parsed subcommand with its arguments.
#[derive(Debug)]
#[allow(inconsistent_fields)]
pub enum Request {
    /// Create an empty file, or an empty directory when `directory` is set.
    Create { path: String, directory: bool },
    /// Copy a file, or recursively a directory, into a destination
    /// directory (the current directory when none is given).
    Import { source: String, destination: Option<String> },
    /// Copy a single entry to a destination path.
    Copy { source: String, destination: String },
    /// Same operation as `Copy`, under the other name the surface offers.
    Paste { source: String, destination: String },
}

/// The view of an optional string.
pub open spec fn opt_view(o: Option<String>) -> Option<Seq<char>> {
    match o {
        Some(s) => Some(s@),
        None => None,
    }
}

impl View for Request {
    type V = ReqModel;

    open spec fn view(&self) -> ReqModel {
        match self {
            Request::Create { path, directory } => ReqModel::Create {
                path: path@,
                directory: *directory,
            },
            Request::Import { source, destination } => ReqModel::Import {
                source: source@,
                destination: opt_view(*destination),
            },
            Request::Copy { source, destination } => ReqModel::Copy {
                source: source@,
                destination: destination@,
            },
            Request::Paste { source, destination } => ReqModel::Paste {
                source: source@,
                destination: destination@,
            },
        }
    }
}

} // verus!
