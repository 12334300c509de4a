//! Identifiers, as the host language's parser sees them.

use vstd::prelude::*;
use vstd::string::{StrSliceExecFns, StringExecFns};

verus! {

/// The most opening brackets that a text may hold to be handed to the
/// parser: each level of nesting costs the parser a level of recursion.
pub const MAX_OPENING: usize = 64;

/// Whether `c` opens a bracket.
pub open spec fn is_opening(c: char) -> bool {
    c == '(' || c == '[' || c == '{'
}

/// How many of the first `n` characters open a bracket.
pub open spec fn opening_count(text: Seq<char>, n: int) -> int
    decreases n,
{
    if n <= 0 {
        0
    } else if is_opening(text[n - 1]) {
        opening_count(text, n - 1) + 1
    } else {
        opening_count(text, n - 1)
    }
}

/// Whether `text` holds more opening brackets than the parser is given.
pub open spec fn opens_too_often(text: Seq<char>) -> bool {
    opening_count(text, text.len() as int) > MAX_OPENING
}

/// A longer prefix holds at least as many opening brackets.
pub proof fn lemma_opening_count_grows(text: Seq<char>, i: int, n: int)
    requires
        i <= n,
    ensures
        opening_count(text, i) <= opening_count(text, n),
    decreases n - i,
{
    if i < n {
        lemma_opening_count_grows(text, i, n - 1);
    }
}

/// Tells whether `text` holds more opening brackets than the parser is
/// given.
pub fn too_many_openings(text: &str) -> (r: bool)
    ensures
        r == opens_too_often(text@),
{
    let n = text.unicode_len();
    let mut count: usize = 0;
    let mut i: usize = 0;
    while i < n
        invariant
            i <= n,
            n == text@.len(),
            count == opening_count(text@, i as int),
            count <= MAX_OPENING,
        decreases n - i,
    {
        let c = text.get_char(i);
        if c == '(' || c == '[' || c == '{' {
            if count == MAX_OPENING {
                proof {
                    lemma_opening_count_grows(text@, i + 1, n as int);
                }
                return true;
            }
            count += 1;
        }
        i += 1;
    }
    false
}

/// Parses `text` as one identifier with `syn::parse_str::<syn::Ident>`,
/// and gives the identifier or the parser's message as text.
///
/// Trusted: that the call returns on a text with so few opening brackets.
/// Nothing is claimed of what it returns: the text is read by the compiler's
/// lexer inside a procedural macro and by the parser's own elsewhere, and
/// the two need not agree.
#[verifier::external_body]
pub(crate) fn parse_ident(text: &str) -> (r: Result<String, String>)
    requires
        !opens_too_often(text@),
{
    match syn::parse_str::<syn::Ident>(text) {
        Ok(ident) => Ok(ident.to_string()),
        Err(error) => Err(error.to_string()),
    }
}

/// The identifier that `text` names, or why it names none. A text with
/// more opening brackets than the parser is given is refused here, as no
/// identifier; any other text is the parser's to judge.
pub fn ident_from(text: &str) -> (r: Result<String, String>)
    ensures
        opens_too_often(text@) ==> r is Err && r->Err_0@ == "expected identifier"@,
{
    if too_many_openings(text) {
        Err(String::from_str("expected identifier"))
    } else {
        parse_ident(text)
    }
}

} // verus!
