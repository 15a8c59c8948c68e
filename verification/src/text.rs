//! Text assembly: prefix concatenation and the echo transform used across
//! the mobile FFI boundary.
use vstd::prelude::*;

verus! {

/// Relies on String::push_str: appends the given slice onto the end of the
/// string.
#[verifier::external_body]
fn append(s: &mut String, t: &str)
    ensures
        final(s)@ == old(s)@ + t@,
{
    s.push_str(t)
}

/// Concatenates a fixed prefix and a remainder into a fresh string.
pub fn prefixed(prefix: &str, rest: &str) -> (r: String)
    ensures
        r@ == prefix@ + rest@,
{
    let mut s = prefix.to_owned();
    append(&mut s, rest);
    s
}

/// What the echo transform answers: the fallback for an absent input, the
/// fixed prefix followed by the input otherwise.
pub open spec fn spec_echo(input: Option<Seq<char>>) -> Seq<char> {
    match input {
        Some(s) => "Echo desde Rust: "@ + s,
        None => "null"@,
    }
}

pub open spec fn opt_str_view(input: Option<&str>) -> Option<Seq<char>> {
    match input {
        Some(s) => Some(s@),
        None => None,
    }
}

/// The echo transform: an absent input yields the literal fallback, any
/// other input is echoed back behind the fixed prefix.
pub fn echo_message(input: Option<&str>) -> (r: String)
    ensures
        r@ == spec_echo(opt_str_view(input)),
{
    match input {
        Some(s) => prefixed("Echo desde Rust: ", s),
        None => "null".to_owned(),
    }
}

} // verus!
