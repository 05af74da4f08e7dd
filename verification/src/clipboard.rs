//! The escape sequence that hands a text to the clipboard of the terminal.

use vstd::prelude::*;
use vstd::string::StringSliceAdditionalSpecFns;
use crate::text::chars_of;

verus! {

/// The standard base64 form, with padding, of a byte string.
pub uninterp spec fn spec_base64_standard(bytes: Seq<u8>) -> Seq<char>;

/// `Engine::encode` of the base64 crate on its `STANDARD` engine: the
/// standard alphabet with padding. The result depends on the bytes alone.
/// The call fails only where the length of the result overflows, which no
/// byte string in memory can bring about.
#[verifier::external_body]
fn base64_standard(bytes: &[u8]) -> (encoded: String)
    ensures
        encoded@ == spec_base64_standard(bytes@),
{
    base64::Engine::encode(&base64::engine::general_purpose::STANDARD, bytes)
}

/// The escape character.
pub const ESC: char = '\u{1b}';

/// The bell character, which ends the sequence.
pub const BEL: char = '\u{7}';

/// The sequence that sets the clipboard to what `encoded` stands for.
pub open spec fn spec_osc52(encoded: Seq<char>) -> Seq<char> {
    seq![ESC, ']', '5', '2', ';', 'c', ';'] + encoded + seq![BEL]
}

/// The first `n` characters of `s` with every escape character doubled.
pub open spec fn spec_escapes_doubled(s: Seq<char>, n: int) -> Seq<char>
    decreases n,
{
    if n <= 0 {
        Seq::empty()
    } else if s[n - 1] == ESC {
        spec_escapes_doubled(s, n - 1) + seq![ESC, ESC]
    } else {
        spec_escapes_doubled(s, n - 1).push(s[n - 1])
    }
}

/// What is written to the terminal for an encoded text: the sequence itself,
/// or, inside a terminal multiplexer, the sequence wrapped so that it is
/// passed through to the terminal outside.
pub open spec fn spec_payload(encoded: Seq<char>, in_tmux: bool) -> Seq<char> {
    let osc = spec_osc52(encoded);
    if in_tmux {
        seq![ESC, 'P', 't', 'm', 'u', 'x', ';'] + spec_escapes_doubled(osc, osc.len() as int)
            + seq![ESC, '\\']
    } else {
        osc
    }
}

/// What is written to the terminal for an encoded text.
pub fn payload(encoded: &str, in_tmux: bool) -> (out: String)
    ensures
        out@ == spec_payload(encoded@, in_tmux),
{
    let mut osc = String::new();
    osc.push(ESC);
    osc.push(']');
    osc.push('5');
    osc.push('2');
    osc.push(';');
    osc.push('c');
    osc.push(';');
    osc.append(encoded);
    osc.push(BEL);
    assert(osc@ =~= spec_osc52(encoded@));
    if !in_tmux {
        return osc;
    }
    let chars = chars_of(osc.as_str());
    let mut out = String::new();
    out.push(ESC);
    out.push('P');
    out.push('t');
    out.push('m');
    out.push('u');
    out.push('x');
    out.push(';');
    let ghost head = seq![ESC, 'P', 't', 'm', 'u', 'x', ';'];
    assert(out@ =~= head + spec_escapes_doubled(chars@, 0));
    let mut i: usize = 0;
    while i < chars.len()
        invariant
            i <= chars.len(),
            head == seq![ESC, 'P', 't', 'm', 'u', 'x', ';'],
            out@ == head + spec_escapes_doubled(chars@, i as int),
        decreases chars.len() - i,
    {
        let c = chars[i];
        if c == ESC {
            out.push(ESC);
            out.push(ESC);
        } else {
            out.push(c);
        }
        assert(out@ =~= head + spec_escapes_doubled(chars@, i + 1));
        i += 1;
    }
    out.push(ESC);
    out.push('\\');
    assert(out@ =~= spec_payload(encoded@, in_tmux));
    out
}

/// What is written to the terminal to copy `text` to the clipboard.
/// `in_tmux` says whether the terminal is a multiplexer that has to pass the
/// sequence on.
pub fn yank(text: &str, in_tmux: bool) -> (out: String)
    ensures
        out@ == spec_payload(spec_base64_standard(text.spec_bytes()), in_tmux),
{
    let encoded = base64_standard(text.as_bytes());
    payload(encoded.as_str(), in_tmux)
}

} // verus!
