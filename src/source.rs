//! Choosing a parser by file extension, and reading a yes/no answer.
use vstd::prelude::*;
use crate::text::{extension_of, lowercased, path_extension, to_lowercase, trim, trimmed};

verus! {

/// The source kind for an extension: `csv` for tables, `md` or `markdown`
/// for Markdown, anything else (or none) unknown.
pub open spec fn kind_of_extension(ext: Option<Seq<char>>) -> Seq<char> {
    match ext {
        Some(e) => if e == "csv"@ {
            "csv"@
        } else if e == "md"@ || e == "markdown"@ {
            "markdown"@
        } else {
            "unknown"@
        },
        None => "unknown"@,
    }
}

/// The source kind named by an extension (`"csv"`, `"markdown"` or `"unknown"`).
pub fn file_type_of_extension(ext: Option<&str>) -> (r: &'static str)
    ensures
        r@ == kind_of_extension(
            match ext {
                Some(e) => Some(e@),
                None => None,
            },
        ),
{
    match ext {
        Some(e) => {
            let e = e.to_owned();
            if e == String::from_str("csv") {
                "csv"
            } else if e == String::from_str("md") || e == String::from_str("markdown") {
                "markdown"
            } else {
                "unknown"
            }
        },
        None => "unknown",
    }
}

/// The source kind of a file path, by its extension.
pub fn detect_file_type(path: &str) -> (r: &'static str)
    ensures
        r@ == kind_of_extension(path_extension(path@)),
{
    match extension_of(path) {
        Some(e) => file_type_of_extension(Some(e.as_str())),
        None => file_type_of_extension(None),
    }
}

/// The answer that a normalized reply gives: `y`/`yes` accept, `n`/`no`
/// decline, anything else is no answer.
pub open spec fn answer_of(reply: Seq<char>) -> Option<bool> {
    if reply == "y"@ || reply == "yes"@ {
        Some(true)
    } else if reply == "n"@ || reply == "no"@ {
        Some(false)
    } else {
        None
    }
}

/// The answer that an already trimmed and lower-cased reply gives.
pub fn normalized_answer(reply: &str) -> (r: Option<bool>)
    ensures
        r == answer_of(reply@),
{
    let s = reply.to_owned();
    if s == String::from_str("y") || s == String::from_str("yes") {
        Some(true)
    } else if s == String::from_str("n") || s == String::from_str("no") {
        Some(false)
    } else {
        None
    }
}

/// The answer that a raw reply line gives, once trimmed and lower-cased.
pub fn confirmation_answer(reply: &str) -> (r: Option<bool>)
    ensures
        r == answer_of(lowercased(trimmed(reply@))),
{
    let lowered = to_lowercase(trim(reply));
    normalized_answer(lowered.as_str())
}

} // verus!
