//! Rendering a site bundle to HTML, and checking the format version of a
//! lowered view tree.

use vstd::prelude::*;

use crate::text::{chars_to_string, joined};

verus! {

/// What `crepuscularity_web::render_bundle` makes of the bundle JSON
/// `bundle_json`: the rendered HTML, or the message of its error.
pub uninterp spec fn rendered_bundle(bundle_json: Seq<char>) -> Result<Seq<char>, Seq<char>>;

/// Calls `crepuscularity_web::render_bundle`, turning its error into its
/// message. Claimed: the outcome is `rendered_bundle` of the bundle text, a
/// function of that text alone (the bundle carries every file the render may
/// include, and nothing else is read).
#[verifier::external_body]
fn render_bundle_call(bundle_json: &str) -> (out: Result<String, String>)
    ensures
        match out {
            Ok(html) => rendered_bundle(bundle_json@) == Ok::<Seq<char>, Seq<char>>(html@),
            Err(message) => rendered_bundle(bundle_json@) == Err::<Seq<char>, Seq<char>>(message@),
        },
{
    match crepuscularity_web::render_bundle(bundle_json) {
        Ok(html) => Ok(html),
        Err(e) => Err(e.to_string()),
    }
}

/// Renders a site bundle (the JSON with an `entry` name and a `files` object)
/// to HTML; an error comes back as its message.
pub fn crepus_render(bundle_json: &str) -> (out: Result<String, String>)
    ensures
        match out {
            Ok(html) => rendered_bundle(bundle_json@) == Ok::<Seq<char>, Seq<char>>(html@),
            Err(message) => rendered_bundle(bundle_json@) == Err::<Seq<char>, Seq<char>>(message@),
        },
{
    render_bundle_call(bundle_json)
}

/// The view-tree format version that `crepuscularity_native` writes.
pub open spec fn expected_ir_version() -> u32 {
    7
}

/// Reads `crepuscularity_native::IR_VERSION`. Claimed: it is 7, the value
/// the crate's source gives the constant.
#[verifier::external_body]
fn native_ir_version() -> (v: u32)
    ensures
        v == expected_ir_version(),
{
    crepuscularity_native::IR_VERSION
}

/// The decimal digits.
pub open spec fn digits() -> Seq<char> {
    seq!['0', '1', '2', '3', '4', '5', '6', '7', '8', '9']
}

/// `n` written in decimal, without leading zeros.
pub open spec fn decimal(n: nat) -> Seq<char>
    decreases n,
{
    if n < 10 {
        seq![digits()[n as int]]
    } else {
        decimal(n / 10).push(digits()[(n % 10) as int])
    }
}

/// The message for a view tree of version `found` where `expected` was wanted.
pub open spec fn version_mismatch_message(found: nat, expected: nat) -> Seq<char> {
    seq!['u', 'n', 'e', 'x', 'p', 'e', 'c', 't', 'e', 'd', ' ', 'I', 'R', ' ', 'v', 'e', 'r', 's', 'i', 'o', 'n', ' '] + decimal(found) + seq![' ', '(', 'e', 'x', 'p', 'e', 'c', 't', 'e', 'd', ' '] + decimal(expected) + seq![')']
}

fn push_decimal(out: &mut Vec<char>, n: u32)
    ensures
        final(out)@ == old(out)@ + decimal(n as nat),
    decreases n,
{
    if n >= 10 {
        push_decimal(out, n / 10);
    }
    let d: u32 = n % 10;
    let c: char = match d {
        0 => '0',
        1 => '1',
        2 => '2',
        3 => '3',
        4 => '4',
        5 => '5',
        6 => '6',
        7 => '7',
        8 => '8',
        _ => '9',
    };
    assert(c == digits()[d as int]);
    out.push(c);
    assert(out@ =~= old(out)@ + decimal(n as nat));
}

fn push_all(out: &mut Vec<char>, s: &Vec<char>)
    ensures
        final(out)@ == old(out)@ + s@,
{
    let joined_text = joined(out, s);
    *out = joined_text;
}

/// Accepts a lowered view tree of format version `found` when it is the
/// version that `crepuscularity_native` writes; otherwise the error says which
/// version was found and which was expected.
pub fn check_ir_version(found: u32) -> (out: Result<(), String>)
    ensures
        out is Ok <==> found == expected_ir_version(),
        match out {
            Ok(()) => true,
            Err(message) => message@ == version_mismatch_message(
                found as nat,
                expected_ir_version() as nat,
            ),
        },
{
    let expected = native_ir_version();
    if found == expected {
        return Ok(());
    }
    let mut message: Vec<char> = Vec::new();
    push_all(&mut message, &vec!['u', 'n', 'e', 'x', 'p', 'e', 'c', 't', 'e', 'd', ' ', 'I', 'R', ' ', 'v', 'e', 'r', 's', 'i', 'o', 'n', ' ']);
    push_decimal(&mut message, found);
    push_all(&mut message, &vec![' ', '(', 'e', 'x', 'p', 'e', 'c', 't', 'e', 'd', ' ']);
    push_decimal(&mut message, expected);
    push_all(&mut message, &vec![')']);
    assert(message@ =~= version_mismatch_message(found as nat, expected as nat));
    Err(chars_to_string(&message))
}

} // verus!
