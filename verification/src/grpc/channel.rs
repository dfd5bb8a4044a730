//! The authorisation header sent with each call to the editor.
use vstd::prelude::*;

use crate::text::{ascii_lower, ascii_lower_seq, ascii_lower_vec, chars_of, concat2, has_prefix, is_white_space, lemma_trim_ends, lemma_trim_fixed, starts_with, trim, trim_str};

verus! {

/// The `authorization` header for a token: none for a missing or blank
/// token; the trimmed token itself when it already starts with "bearer "
/// in any case; else "Bearer " before it.
pub open spec fn auth_header(token: Option<Seq<char>>) -> Option<Seq<char>> {
    match token {
        None => None,
        Some(t) => {
            let tt = trim(t);
            if tt.len() == 0 {
                None
            } else if has_prefix(ascii_lower_seq(tt), "bearer "@) {
                Some(tt)
            } else {
                Some("Bearer "@ + tt)
            }
        },
    }
}

/// A token as an optional character sequence.
pub open spec fn token_view(token: Option<String>) -> Option<Seq<char>> {
    match token {
        None => None,
        Some(t) => Some(t@),
    }
}

/// Holds the `authorization` header, built once from the token.
#[derive(Clone, Default)]
pub struct AuthInterceptor {
    header: Option<String>,
}

impl AuthInterceptor {
    /// The header sent, if any.
    pub closed spec fn header_view(&self) -> Option<Seq<char>> {
        token_view(self.header)
    }

    /// Builds the header for `token`.
    pub fn new(token: Option<String>) -> (r: AuthInterceptor)
        ensures
            r.header_view() == auth_header(token_view(token)),
    {
        let header = match token {
            None => None,
            Some(t) => {
                let tt = trim_str(t.as_str());
                if tt.as_str().is_empty() {
                    None
                } else {
                    let lower = ascii_lower_vec(&chars_of(tt.as_str()));
                    if starts_with(&lower, "bearer ") {
                        Some(tt)
                    } else {
                        Some(concat2("Bearer ", tt.as_str()))
                    }
                }
            },
        };
        AuthInterceptor { header }
    }

    /// The header sent, if any.
    pub fn header(&self) -> (r: Option<String>)
        ensures
            token_view(r) == self.header_view(),
    {
        match &self.header {
            None => None,
            Some(h) => Some(h.clone()),
        }
    }
}

/// Building the header from a header changes nothing: the header of a
/// token, taken as a token, gives the same header.
pub proof fn law_auth_header_stable(token: Option<Seq<char>>)
    ensures
        auth_header(auth_header(token)) == auth_header(token),
{
    if let Some(t) = token {
        let tt = trim(t);
        if tt.len() > 0 {
            lemma_trim_ends(t);
            reveal_strlit("bearer ");
            reveal_strlit("Bearer ");
            if has_prefix(ascii_lower_seq(tt), "bearer "@) {
                lemma_trim_fixed(tt);
            } else {
                let x = "Bearer "@ + tt;
                assert(x[0] == 'B');
                assert(x.last() == tt.last());
                assert(!is_white_space('B'));
                lemma_trim_fixed(x);
                assert(ascii_lower('B') == 'b');
                assert(ascii_lower_seq(x).take(7) =~= "bearer "@);
            }
        }
    }
}

} // verus!
