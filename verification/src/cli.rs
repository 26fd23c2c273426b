//! What the command line decides: which adapter a source name selects, what
//! an invocation does, and what is printed when a search fails.

use vstd::prelude::*;
use vstd::string::StringExecFns;
use crate::errors::SearchError;
use crate::json::{error_envelope, is_error_envelope, JsonValue};
use crate::text::str_eq;

verus! {

/// The registries a search can go to.
#[derive(Clone, Copy, Debug, PartialEq, Eq, Structural)]
pub enum Source {
    /// The npm search service.
    Npm,
    /// The container-image registry.
    Docker,
    /// The CDN package index.
    Jsdelivr,
    /// The crate registry.
    Crates,
    /// The PHP package index.
    Composer,
}

/// The source that a name on the command line selects, if any.
pub open spec fn source_of_name(s: Seq<char>) -> Option<Source> {
    if s == "npm"@ {
        Some(Source::Npm)
    } else if s == "docker"@ {
        Some(Source::Docker)
    } else if s == "jsdelivr"@ {
        Some(Source::Jsdelivr)
    } else if s == "crates"@ {
        Some(Source::Crates)
    } else if s == "composer"@ {
        Some(Source::Composer)
    } else {
        None
    }
}

/// Maps a source name to the registry it selects; `None` for an unsupported
/// name.
pub fn parse_source(name: &str) -> (r: Option<Source>)
    ensures
        r == source_of_name(name@),
{
    if str_eq(name, "npm") {
        Some(Source::Npm)
    } else if str_eq(name, "docker") {
        Some(Source::Docker)
    } else if str_eq(name, "jsdelivr") {
        Some(Source::Jsdelivr)
    } else if str_eq(name, "crates") {
        Some(Source::Crates)
    } else if str_eq(name, "composer") {
        Some(Source::Composer)
    } else {
        None
    }
}

/// What one invocation does.
#[derive(Debug, PartialEq)]
pub enum CliAction {
    /// Too few arguments: print the usage line to standard error and exit
    /// without error.
    Usage,
    /// An unsupported source name: print a diagnostic to standard error and
    /// exit without error.
    Unsupported,
    /// Run the selected registry's search with the given query.
    Search(Source, String),
}

/// Decides what the invocation with the given arguments does: usage on
/// fewer than three arguments, a diagnostic on an unsupported source name,
/// and otherwise the selected registry's search with the query argument.
pub fn plan_invocation(args: &Vec<String>) -> (r: CliAction)
    ensures
        args@.len() < 3 ==> r is Usage,
        args@.len() >= 3 ==> match source_of_name(args@[1]@) {
            Some(src) => r matches CliAction::Search(s, q) && s == src && q@ == args@[2]@,
            None => r is Unsupported,
        },
{
    if args.len() < 3 {
        return CliAction::Usage;
    }
    match parse_source(args[1].as_str()) {
        Some(src) => CliAction::Search(src, args[2].clone()),
        None => CliAction::Unsupported,
    }
}

/// The usage line printed when arguments are missing.
pub fn usage_message(program: &str) -> (r: String)
    ensures
        r@ == "Usage: "@ + program@ + " <source> <query>"@,
{
    let mut s = String::from_str("Usage: ");
    s.append(program);
    s.append(" <source> <query>");
    s
}

/// The diagnostic printed for an unsupported source name.
pub fn unsupported_message(source: &str) -> (r: String)
    ensures
        r@ == "Unsupported source: "@ + source@
            + ". Supported sources are 'npm', 'docker', 'jsdelivr', 'crates', and 'composer'."@,
{
    let mut s = String::from_str("Unsupported source: ");
    s.append(source);
    s.append(". Supported sources are 'npm', 'docker', 'jsdelivr', 'crates', and 'composer'.");
    s
}

/// The single recovery point: a successful search is printed verbatim, and
/// any adapter failure becomes the error document, never a crash.
pub fn render_outcome(result: Result<JsonValue, SearchError>) -> (r: JsonValue)
    ensures
        match result {
            Ok(v) => r == v,
            Err(e) => is_error_envelope(r, e.message_view()),
        },
{
    match result {
        Ok(v) => v,
        Err(e) => error_envelope(e.message().as_str()),
    }
}

} // verus!
