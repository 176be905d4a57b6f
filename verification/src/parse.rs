//! The command dispatcher's grammar.
//!
//! A command line is one subcommand followed by its arguments.  `create`
//! takes one path and an optional `-d`/`--directory` flag, in any order;
//! `import` takes a source and an optional destination; `copy` and `paste`
//! take a source and a destination.  A missing required argument, an
//! unknown flag, a spare argument or an unknown subcommand is rejected
//! before any filesystem action.

use vstd::prelude::*;
use crate::request::ReqModel;
use crate::request::Request;
use crate::request::UsageError;
use crate::request::Variant;
use crate::request::opt_view;
use crate::text::str_eq;
use vstd::string::StrSliceExecFns;

verus! {

/// Whether a token would be read as a flag.
pub open spec fn looks_like_flag(t: Seq<char>) -> bool {
    t.len() > 0 && t[0] == '-'
}

/// Whether a token is the directory flag of `create`.
pub open spec fn is_directory_flag(t: Seq<char>) -> bool {
    t == "-d"@ || t == "--directory"@
}

/// Scanning the arguments of `create`: flags may stand anywhere around the
/// single path.
pub open spec fn scan_create(
    rest: Seq<Seq<char>>,
    path: Option<Seq<char>>,
    directory: bool,
) -> Result<ReqModel, UsageError>
    decreases rest.len(),
{
    if rest.len() == 0 {
        match path {
            Some(p) => Ok(ReqModel::Create { path: p, directory }),
            None => Err(UsageError::MissingPath),
        }
    } else {
        let t = rest[0];
        if is_directory_flag(t) {
            scan_create(rest.drop_first(), path, true)
        } else if looks_like_flag(t) {
            Err(UsageError::UnknownFlag)
        } else if path is Some {
            Err(UsageError::ExtraArgument)
        } else {
            scan_create(rest.drop_first(), Some(t), directory)
        }
    }
}

/// Scanning up to two positional arguments of a copying subcommand, which
/// takes no flags.
pub open spec fn scan_positionals(
    rest: Seq<Seq<char>>,
    first: Option<Seq<char>>,
    second: Option<Seq<char>>,
) -> Result<(Option<Seq<char>>, Option<Seq<char>>), UsageError>
    decreases rest.len(),
{
    if rest.len() == 0 {
        Ok((first, second))
    } else {
        let t = rest[0];
        if looks_like_flag(t) {
            Err(UsageError::UnknownFlag)
        } else if first is None {
            scan_positionals(rest.drop_first(), Some(t), None)
        } else if second is None {
            scan_positionals(rest.drop_first(), first, Some(t))
        } else {
            Err(UsageError::ExtraArgument)
        }
    }
}

/// The views of an argument vector.
pub open spec fn views_of(args: Seq<String>) -> Seq<Seq<char>> {
    args.map_values(|a: String| a@)
}

/// What a command line parses to on a given surface.
pub open spec fn parse_spec(variant: Variant, args: Seq<Seq<char>>) -> Result<
    ReqModel,
    UsageError,
> {
    if args.len() == 0 {
        Err(UsageError::NoSubcommand)
    } else {
        let sub = args[0];
        let rest = args.subrange(1, args.len() as int);
        if sub == "create"@ {
            scan_create(rest, None, false)
        } else if variant == Variant::Xfetch && sub == "import"@ {
            match scan_positionals(rest, None, None) {
                Ok((first, second)) => match first {
                    Some(s) => Ok(ReqModel::Import { source: s, destination: second }),
                    None => Err(UsageError::MissingSource),
                },
                Err(e) => Err(e),
            }
        } else if variant == Variant::Cortex && (sub == "copy"@ || sub == "paste"@) {
            match scan_positionals(rest, None, None) {
                Ok((first, second)) => match (first, second) {
                    (Some(s), Some(d)) => if sub == "copy"@ {
                        Ok(ReqModel::Copy { source: s, destination: d })
                    } else {
                        Ok(ReqModel::Paste { source: s, destination: d })
                    },
                    (None, _) => Err(UsageError::MissingSource),
                    (Some(_), None) => Err(UsageError::MissingDestination),
                },
                Err(e) => Err(e),
            }
        } else {
            Err(UsageError::UnknownSubcommand)
        }
    }
}

/// Whether a token would be read as a flag.
fn flag_like(t: &str) -> (r: bool)
    ensures
        r == looks_like_flag(t@),
{
    t.unicode_len() > 0 && t.get_char(0) == '-'
}

/// Scans the arguments of `create`, after the subcommand itself.
fn parse_create(args: &Vec<String>) -> (r: Result<Request, UsageError>)
    requires
        args@.len() >= 1,
    ensures
        (match r {
            Ok(req) => scan_create(
                views_of(args@).subrange(1, args@.len() as int),
                None,
                false,
            ) == Ok::<ReqModel, UsageError>(req@),
            Err(e) => scan_create(
                views_of(args@).subrange(1, args@.len() as int),
                None,
                false,
            ) == Err::<ReqModel, UsageError>(e),
        }),
{
    let ghost va = views_of(args@);
    let ghost rest = va.subrange(1, args@.len() as int);
    let n = args.len();
    let mut i: usize = 1;
    let mut path: Option<String> = None;
    let mut directory: bool = false;
    while i < n
        invariant
            n == args@.len(),
            va == views_of(args@),
            rest == va.subrange(1, n as int),
            1 <= i <= n,
            scan_create(va.subrange(i as int, n as int), opt_view(path), directory)
                == scan_create(rest, None, false),
        decreases n - i,
    {
        let ghost here = va.subrange(i as int, n as int);
        proof {
            assert(here[0] == args@[i as int]@);
            assert(here.drop_first() =~= va.subrange(i as int + 1, n as int));
        }
        let t = &args[i];
        if str_eq(t.as_str(), "-d") || str_eq(t.as_str(), "--directory") {
            directory = true;
        } else if flag_like(t.as_str()) {
            proof {
                assert(scan_create(here, opt_view(path), directory)
                    == Err::<ReqModel, UsageError>(UsageError::UnknownFlag));
            }
            return Err(UsageError::UnknownFlag);
        } else if path.is_some() {
            proof {
                assert(scan_create(here, opt_view(path), directory)
                    == Err::<ReqModel, UsageError>(UsageError::ExtraArgument));
            }
            return Err(UsageError::ExtraArgument);
        } else {
            path = Some(t.clone());
        }
        i = i + 1;
    }
    match path {
        Some(p) => Ok(Request::Create { path: p, directory }),
        None => Err(UsageError::MissingPath),
    }
}

/// Scans the positional arguments of a copying subcommand.
fn parse_positionals(args: &Vec<String>) -> (r: Result<
    (Option<String>, Option<String>),
    UsageError,
>)
    requires
        args@.len() >= 1,
    ensures
        (match r {
            Ok((first, second)) => scan_positionals(
                views_of(args@).subrange(1, args@.len() as int),
                None,
                None,
            ) == Ok::<(Option<Seq<char>>, Option<Seq<char>>), UsageError>(
                (opt_view(first), opt_view(second)),
            ),
            Err(e) => scan_positionals(
                views_of(args@).subrange(1, args@.len() as int),
                None,
                None,
            ) == Err::<(Option<Seq<char>>, Option<Seq<char>>), UsageError>(e),
        }),
{
    let ghost va = views_of(args@);
    let ghost rest = va.subrange(1, args@.len() as int);
    let n = args.len();
    let mut i: usize = 1;
    let mut first: Option<String> = None;
    let mut second: Option<String> = None;
    while i < n
        invariant
            n == args@.len(),
            va == views_of(args@),
            rest == va.subrange(1, n as int),
            1 <= i <= n,
            first is None ==> second is None,
            scan_positionals(va.subrange(i as int, n as int), opt_view(first), opt_view(second))
                == scan_positionals(rest, None, None),
        decreases n - i,
    {
        let ghost here = va.subrange(i as int, n as int);
        proof {
            assert(here[0] == args@[i as int]@);
            assert(here.drop_first() =~= va.subrange(i as int + 1, n as int));
        }
        let t = &args[i];
        if flag_like(t.as_str()) {
            proof {
                assert(scan_positionals(here, opt_view(first), opt_view(second))
                    == Err::<(Option<Seq<char>>, Option<Seq<char>>), UsageError>(
                    UsageError::UnknownFlag,
                ));
            }
            return Err(UsageError::UnknownFlag);
        } else if first.is_none() {
            first = Some(t.clone());
        } else if second.is_none() {
            second = Some(t.clone());
        } else {
            proof {
                assert(scan_positionals(here, opt_view(first), opt_view(second))
                    == Err::<(Option<Seq<char>>, Option<Seq<char>>), UsageError>(
                    UsageError::ExtraArgument,
                ));
            }
            return Err(UsageError::ExtraArgument);
        }
        i = i + 1;
    }
    Ok((first, second))
}

/// Parses a command line — the arguments after the program name — on the
/// given surface.
pub fn parse_args(variant: Variant, args: &Vec<String>) -> (r: Result<Request, UsageError>)
    ensures
        (match r {
            Ok(req) => parse_spec(variant, views_of(args@)) == Ok::<ReqModel, UsageError>(req@),
            Err(e) => parse_spec(variant, views_of(args@)) == Err::<ReqModel, UsageError>(e),
        }),
{
    let ghost va = views_of(args@);
    if args.len() == 0 {
        return Err(UsageError::NoSubcommand);
    }
    let sub = &args[0];
    proof {
        assert(va[0] == args@[0]@);
    }
    if str_eq(sub.as_str(), "create") {
        parse_create(args)
    } else if variant == Variant::Xfetch && str_eq(sub.as_str(), "import") {
        match parse_positionals(args) {
            Ok((first, second)) => match first {
                Some(s) => Ok(Request::Import { source: s, destination: second }),
                None => Err(UsageError::MissingSource),
            },
            Err(e) => Err(e),
        }
    } else if variant == Variant::Cortex
        && (str_eq(sub.as_str(), "copy") || str_eq(sub.as_str(), "paste")) {
        let is_copy = str_eq(sub.as_str(), "copy");
        match parse_positionals(args) {
            Ok((first, second)) => match (first, second) {
                (Some(s), Some(d)) => if is_copy {
                    Ok(Request::Copy { source: s, destination: d })
                } else {
                    Ok(Request::Paste { source: s, destination: d })
                },
                (None, _) => Err(UsageError::MissingSource),
                (Some(_), None) => Err(UsageError::MissingDestination),
            },
            Err(e) => Err(e),
        }
    } else {
        Err(UsageError::UnknownSubcommand)
    }
}

} // verus!
