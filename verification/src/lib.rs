//! A parser for the Native clinical-trial XML export dialect: a single-pass,
//! event-driven tree parser that turns a subject export document into a
//! strongly-typed patient tree, tolerating the dialect's known data anomalies
//! — blank optional dates, missing optional children, unknown elements —
//! without aborting the whole parse.

pub mod attrs;
pub mod datetime;
pub mod errors;
pub mod laws;
pub mod native;
pub mod streaming;
pub mod xml_reader;

use vstd::prelude::*;

use crate::attrs::str_eq;
use crate::errors::{Error, ErrorV};
use crate::laws::{lemma_parse_tokens_wf, wf_subject_native};
use crate::native::subject_native::{SubjectNative, SubjectNativeV};
use crate::streaming::{parse_tokens, spec_parse_tokens, Token, TokenV};
use crate::xml_reader::TokenSource;
use vstd::string::StringExecFns;

verus! {

/// Supplies the absent value for an optional string attribute.
pub fn default_string_none() -> (r: Option<String>)
    ensures
        r is None,
{
    None
}

/// The pre-flight decision on a path to parse: rejected when nothing exists
/// there, when its extension is not `xml`, and — the ambiguous case — when
/// it has no extension at all.
pub open spec fn spec_check_valid_xml_file(
    path: Seq<char>,
    exists: bool,
    extension: Option<Seq<char>>,
) -> Result<(), ErrorV> {
    if !exists {
        Err(ErrorV::FileNotFound(path))
    } else {
        match extension {
            Some(e) => if e == "xml"@ {
                Ok(())
            } else {
                Err(ErrorV::InvalidFileType(path))
            },
            None => Err(ErrorV::Unknown),
        }
    }
}

/// Decides whether a path may be parsed, as [`spec_check_valid_xml_file`]
/// describes; the caller hands in what it learned from the file system.
pub fn check_valid_xml_file(path: &str, exists: bool, extension: Option<&str>) -> (r: Result<
    (),
    Error,
>)
    ensures
        match r {
            Ok(_) => spec_check_valid_xml_file(path@, exists, extension.deep_view()) == Ok::<
                (),
                ErrorV,
            >(()),
            Err(e) => spec_check_valid_xml_file(path@, exists, extension.deep_view()) == Err::<
                (),
                _,
            >(e.deep_view()),
        },
{
    if !exists {
        return Err(Error::FileNotFound(String::from_str(path)));
    }
    match extension {
        Some(e) => {
            if str_eq(e, "xml") {
                Ok(())
            } else {
                Err(Error::InvalidFileType(String::from_str(path)))
            }
        },
        None => Err(Error::Unknown),
    }
}

/// Parses one complete subject export document into its patient tree.
///
/// The text is tokenized by the external token source and the tokens are fed,
/// single pass, to the verified state machine: whatever tokens the document
/// yields, a returned tree is exactly what [`spec_parse_tokens`] assembles
/// from them, and is well-formed — every child list in it is absent or
/// non-empty. A structural failure of the tokenizer, an unreadable attribute
/// list, or an unparsable required datetime aborts the parse instead — and
/// every such failure is a `ParsingError`, never another error kind: no
/// partial tree is ever returned.
pub fn parse_subject_native_string(xml_str: &str) -> (r: Result<SubjectNative, Error>)
    ensures
        r matches Ok(n) ==> wf_subject_native(n.deep_view()),
        r matches Ok(n) ==> exists|toks: Seq<TokenV>|
            spec_parse_tokens(toks) == Ok::<SubjectNativeV, ErrorV>(n.deep_view()),
        r matches Err(e) ==> e.deep_view() is ParsingError,
{
    let mut source = TokenSource::new(xml_str);
    let mut tokens: Vec<Token> = Vec::new();
    // The budget only bounds the loop for the termination check: a document
    // reaches its end-of-file token long before it could run out.
    let mut fuel: usize = usize::MAX;
    loop
        invariant
            true,
        decreases fuel,
    {
        if fuel == 0 {
            return Err(Error::ParsingError(String::from_str("XML reading error: token limit")));
        }
        fuel = fuel - 1;
        let t = match source.next_token() {
            Ok(t) => t,
            Err(e) => {
                return Err(e);
            },
        };
        if matches!(t, Token::Eof) {
            break;
        }
        tokens.push(t);
    }
    let r = parse_tokens(&tokens);
    proof {
        lemma_parse_tokens_wf(tokens.deep_view());
        crate::laws::lemma_parse_tokens_err_is_parsing(tokens.deep_view());
    }
    match r {
        Ok(n) => {
            proof {
                assert(spec_parse_tokens(tokens.deep_view()) == Ok::<SubjectNativeV, ErrorV>(
                    n.deep_view(),
                ));
            }
            Ok(n)
        },
        Err(e) => Err(e),
    }
}

} // verus!
