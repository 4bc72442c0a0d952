//! The engine's error type.

use vstd::prelude::*;

use crate::text::{concat, owned};

verus! {

/// Why a render, a recipe load or a path check failed. Messages of outside failures
/// (template engine, file system, recipe parser) are carried as text.
#[derive(Debug, Clone)]
pub enum Error {
    /// The target project directory exists and is not empty (and `force` is off).
    OutputDirNotEmpty(String),
    /// The recipe breaks a validation rule, or rendering found it unusable.
    InvalidRecipe(String),
    /// A template body failed to render.
    Render { path: String, message: String },
    /// A templated path failed to render.
    PathRender { path: String, message: String },
    /// The recipe file could not be parsed.
    RecipeParse(String),
    /// A file-system operation failed.
    Io { path: Option<String>, message: String },
}

/// The text of `<str as Debug>` (a quoted, escaped string).
pub uninterp spec fn debug_quoted(s: Seq<char>) -> Seq<char>;

/// Formats a string with `{:?}`. Claimed: the result depends on `s` alone.
#[verifier::external_body]
fn debug_quote(s: &str) -> (res: String)
    ensures
        res@ == debug_quoted(s@),
{
    format!("{:?}", s)
}

impl Error {
    /// The human-readable message of this error.
    pub open spec fn spec_message(self) -> Seq<char> {
        match self {
            Error::OutputDirNotEmpty(p) => "output directory "@ + p@
                + " already exists and is not empty; pass --force to overwrite"@,
            Error::InvalidRecipe(m) => "invalid recipe: "@ + m@,
            Error::Render { path, message } => "template render error in "@ + path@ + ": "@
                + message@,
            Error::PathRender { path, message } => "template path render error in "@ + path@
                + ": "@ + message@,
            Error::RecipeParse(m) => "recipe parse error: "@ + m@,
            Error::Io { path, message } => "io error at "@ + match path {
                Some(p) => "Some("@ + debug_quoted(p@) + ")"@,
                None => "None"@,
            } + ": "@ + message@,
        }
    }

    /// The human-readable message of this error.
    pub fn message(&self) -> (res: String)
        ensures
            res@ == self.spec_message(),
    {
        let res = match self {
            Error::OutputDirNotEmpty(p) => {
                let a = concat("output directory ", p.as_str());
                concat(a.as_str(), " already exists and is not empty; pass --force to overwrite")
            },
            Error::InvalidRecipe(m) => concat("invalid recipe: ", m.as_str()),
            Error::Render { path, message } => {
                let a = concat("template render error in ", path.as_str());
                let b = concat(a.as_str(), ": ");
                concat(b.as_str(), message.as_str())
            },
            Error::PathRender { path, message } => {
                let a = concat("template path render error in ", path.as_str());
                let b = concat(a.as_str(), ": ");
                concat(b.as_str(), message.as_str())
            },
            Error::RecipeParse(m) => concat("recipe parse error: ", m.as_str()),
            Error::Io { path, message } => {
                let shown = match path {
                    Some(p) => {
                        let q = debug_quote(p.as_str());
                        let a = concat("Some(", q.as_str());
                        concat(a.as_str(), ")")
                    },
                    None => owned("None"),
                };
                let a = concat("io error at ", shown.as_str());
                let b = concat(a.as_str(), ": ");
                concat(b.as_str(), message.as_str())
            },
        };
        assert(res@ =~= self.spec_message());
        res
    }
}

} // verus!
