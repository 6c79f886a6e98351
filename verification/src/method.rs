//! Validation of the request method.
//!
//! Any token that HTTP admits as a method is accepted, not only the
//! well-known verbs.

use vstd::prelude::*;
use crate::error::{described, ErrorKind, VaneError};

verus! {

/// A character that may stand in an HTTP token: an ASCII letter or digit,
/// or one of ``! # $ % & ' * + - . ^ _ ` | ~``.
pub open spec fn is_token_char(c: char) -> bool {
    ||| ('a' <= c && c <= 'z')
    ||| ('A' <= c && c <= 'Z')
    ||| ('0' <= c && c <= '9')
    ||| c == '!'
    ||| c == '#'
    ||| c == '$'
    ||| c == '%'
    ||| c == '&'
    ||| c == '\''
    ||| c == '*'
    ||| c == '+'
    ||| c == '-'
    ||| c == '.'
    ||| c == '^'
    ||| c == '_'
    ||| c == '`'
    ||| c == '|'
    ||| c == '~'
}

/// A method is a non-empty run of token characters.
pub open spec fn valid_method(method: Seq<char>) -> bool {
    &&& method.len() > 0
    &&& forall|i: int| 0 <= i < method.len() ==> is_token_char(#[trigger] method[i])
}

/// A space or a control character (U+0000 to U+001F, U+007F to U+009F).
pub open spec fn is_space_or_control(c: char) -> bool {
    c <= ' ' || ('\u{7f}' <= c && c <= '\u{9f}')
}

/// What the check of a method yields: nothing where the method is a token,
/// an error of class `Method` that quotes it otherwise.
pub open spec fn method_outcome(method: Seq<char>, valid: bool) -> Option<crate::error::ErrorInfo> {
    if valid {
        None
    } else {
        Some(described(ErrorKind::Method, "Invalid method: "@, method))
    }
}

/// The error, if any, that a method gives rise to.
pub open spec fn method_error(method: Seq<char>) -> Option<crate::error::ErrorInfo> {
    method_outcome(method, valid_method(method))
}

/// A method that holds a space or a control character is no token.
pub proof fn lemma_space_or_control_is_invalid(method: Seq<char>, i: int)
    requires
        0 <= i < method.len(),
        is_space_or_control(method[i]),
    ensures
        !valid_method(method),
        method_error(method) is Some,
        method_error(method)->0.kind == ErrorKind::Method,
{
    assert(!is_token_char(method[i]));
}

/// The well-known verbs are tokens.
pub proof fn lemma_common_verbs_are_valid()
    ensures
        valid_method("GET"@),
        valid_method("POST"@),
        valid_method("PUT"@),
        valid_method("DELETE"@),
        valid_method("PATCH"@),
{
    reveal_strlit("GET");
    reveal_strlit("POST");
    reveal_strlit("PUT");
    reveal_strlit("DELETE");
    reveal_strlit("PATCH");
}

/// `http::Method::from_bytes`, reached through `reqwest::Method`, applied to
/// the UTF-8 bytes of `method`. It accepts exactly the non-empty byte
/// strings whose every byte is a token character; since every token
/// character is ASCII, those are the encodings of the non-empty texts made
/// of token characters.
#[verifier::external_body]
fn parses_as_method(method: &str) -> (ok: bool)
    ensures
        ok == valid_method(method@),
{
    reqwest::Method::from_bytes(method.as_bytes()).is_ok()
}

/// The error that a method which is no token gives rise to.
pub fn invalid_method(method: &str) -> (e: VaneError)
    ensures
        e@ == described(ErrorKind::Method, "Invalid method: "@, method@),
{
    VaneError::describe(ErrorKind::Method, "Invalid method: ", method)
}

/// Turns the verdict on a method into the error that the caller sees.
pub fn method_verdict(method: &str, valid: bool) -> (r: Result<(), VaneError>)
    ensures
        match r {
            Ok(_) => method_outcome(method@, valid) is None,
            Err(e) => method_outcome(method@, valid) == Some(e@),
        },
{
    if valid {
        Ok(())
    } else {
        Err(invalid_method(method))
    }
}

/// Checks that `method` is an HTTP method token.
pub fn check_method(method: &str) -> (r: Result<(), VaneError>)
    ensures
        match r {
            Ok(_) => method_error(method@) is None,
            Err(e) => method_error(method@) == Some(e@),
        },
{
    method_verdict(method, parses_as_method(method))
}

} // verus!
