//! The validation passthrough: whether a text is well-formed source.
//!
//! The verdict is the parser's.  This module hands the text to `syn`, and on
//! a failure puts the parser's message behind a prefix that says what was
//! attempted.

use vstd::prelude::*;
use crate::error::{ParseError, ParseErrorView};

verus! {

/// `syn::File`, a parsed source file of the `syn` crate.  Nothing of its
/// inside is visible here.
#[verifier::external_type_specification]
#[verifier::external_body]
pub struct ExSynFile(syn::File);

/// The message with which the parser rejects a text, absent for a text
/// that is a well-formed source file.
pub uninterp spec fn syntax_error(code: Seq<char>) -> Option<Seq<char>>;

/// The syntax tree that the parser makes of a text it accepts.
pub uninterp spec fn parsed_tree(code: Seq<char>) -> syn::File;

/// `syn::parse_file`: parses a text as a source file.  Whether it accepts
/// the text, the tree it makes of it, and the message it rejects it with,
/// depend on the text alone: the tokens carry no positions, because nothing
/// switches on the `span-locations` feature of `proc-macro2`.  The parser's
/// error is rendered to its message.  The parser recurses without a depth
/// limit, so a text that is nested deeply enough exhausts the stack.
#[verifier::external_body]
fn parse_source(code: &str) -> (r: Result<syn::File, String>)
    ensures
        match r {
            Ok(file) => syntax_error(code@) is None && file == parsed_tree(code@),
            Err(message) => syntax_error(code@) == Some(message@),
        },
{
    syn::parse_file(code).map_err(|error| error.to_string())
}

/// What becomes of a parse attempt: success where the parser accepted the
/// text, else a syntax failure that carries the parser's message behind
/// `prefix`.
pub open spec fn parse_outcome(prefix: Seq<char>, rejection: Option<Seq<char>>) -> Option<
    ParseErrorView,
> {
    match rejection {
        Some(message) => Some(ParseErrorView::Syntax(prefix + message)),
        None => None,
    }
}

/// Parses a text as a source file and hands out the tree the parser made
/// of it.  Fails if and only if the parser rejects the text; the failure is
/// a syntax failure whose message is the parser's behind `prefix`.
pub fn parse_checked(code: &str, prefix: &str) -> (r: Result<syn::File, ParseError>)
    ensures
        match r {
            Ok(file) => parse_outcome(prefix@, syntax_error(code@)) is None && file
                == parsed_tree(code@),
            Err(error) => parse_outcome(prefix@, syntax_error(code@)) == Some(error@),
        },
{
    match parse_source(code) {
        Ok(file) => Ok(file),
        Err(message) => Err(ParseError::syntax(prefix, message.as_str())),
    }
}

/// Confirms that a text is a well-formed source file.  The answer is never
/// `Ok(false)`: a text that is not well formed is a failure.
pub fn validate_rust_code(code: &str) -> (r: Result<bool, ParseError>)
    ensures
        match r {
            Ok(valid) => valid && syntax_error(code@) is None,
            Err(error) => parse_outcome("Invalid Rust syntax: "@, syntax_error(code@)) == Some(
                error@,
            ),
        },
{
    match parse_checked(code, "Invalid Rust syntax: ") {
        Ok(_) => Ok(true),
        Err(error) => Err(error),
    }
}

/// Parses a text that is to be formatted and hands out its tree.  A text
/// that cannot be formatted because it is not well formed is a syntax
/// failure.
pub fn parse_for_format(code: &str) -> (r: Result<syn::File, ParseError>)
    ensures
        match r {
            Ok(file) => syntax_error(code@) is None && file == parsed_tree(code@),
            Err(error) => parse_outcome("Cannot format invalid Rust: "@, syntax_error(code@))
                == Some(error@),
        },
{
    parse_checked(code, "Cannot format invalid Rust: ")
}

/// Parses a text that is to be validated and formatted in one step.  It
/// succeeds on the texts that validation accepts, and hands out the same
/// tree as [`parse_for_format`] does; only the failure message differs.
pub fn parse_for_validated_format(code: &str) -> (r: Result<syn::File, ParseError>)
    ensures
        match r {
            Ok(file) => syntax_error(code@) is None && file == parsed_tree(code@),
            Err(error) => parse_outcome("Invalid Rust syntax: "@, syntax_error(code@)) == Some(
                error@,
            ),
        },
{
    parse_checked(code, "Invalid Rust syntax: ")
}

/// Validation, formatting and validated formatting agree: they accept the
/// same texts, the two formatting entry points hand out the same tree for a
/// text they accept, and validated formatting fails with the failure of
/// validation.
pub proof fn lemma_entry_points_agree(
    code: Seq<char>,
    validated: Result<bool, ParseError>,
    formatted: Result<syn::File, ParseError>,
    both: Result<syn::File, ParseError>,
)
    requires
        match validated {
            Ok(valid) => valid && syntax_error(code) is None,
            Err(error) => parse_outcome("Invalid Rust syntax: "@, syntax_error(code)) == Some(
                error@,
            ),
        },
        match formatted {
            Ok(file) => syntax_error(code) is None && file == parsed_tree(code),
            Err(error) => parse_outcome("Cannot format invalid Rust: "@, syntax_error(code))
                == Some(error@),
        },
        match both {
            Ok(file) => syntax_error(code) is None && file == parsed_tree(code),
            Err(error) => parse_outcome("Invalid Rust syntax: "@, syntax_error(code)) == Some(
                error@,
            ),
        },
    ensures
        both is Ok <==> validated is Ok,
        both is Ok <==> formatted is Ok,
        both is Ok ==> both->Ok_0 == formatted->Ok_0,
        both is Err ==> both->Err_0@ == validated->Err_0@,
        both is Err ==> both->Err_0@ is Syntax,
{
}

} // verus!
