use vstd::prelude::*;

verus! {

/// What sanitising makes of a name (see `sanitize`).
pub uninterp spec fn sanitized(name: Seq<char>) -> Seq<char>;

/// Characters that no sanitised name holds.
pub open spec fn is_path_illegal(c: char) -> bool {
    c == '/' || c == '?' || c == '<' || c == '>' || c == '\\' || c == ':' || c == '*' || c == '|'
        || c == '"'
}

/// Relies on `sanitize_filename::sanitize_with_options`, with the options
/// spelled out so that the result depends on the name alone and not on the
/// platform: every match of its illegal-character class
/// `[/\?<>\\:\*\|":]` is replaced by the empty replacement, and the later
/// passes (control characters, an all-dots name, truncation at a character
/// boundary) only remove characters.
#[verifier::external_body]
pub(crate) fn sanitize(name: &str) -> (r: String)
    ensures
        r@ == sanitized(name@),
        forall|i: int| 0 <= i < r@.len() ==> !is_path_illegal(#[trigger] r@[i]),
{
    let options = sanitize_filename::Options { windows: false, truncate: true, replacement: "" };
    sanitize_filename::sanitize_with_options(name, options)
}

} // verus!
