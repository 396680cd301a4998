//! Bounded-length identifiers of lower-case letters.

use vstd::prelude::*;
use crate::stream::Stream;

verus! {

/// The lower-case letter that a draw selects.
pub open spec fn letter(draw: u32) -> u8 {
    (97 + draw % 26) as u8
}

/// Whether every byte is a lower-case ASCII letter.
pub open spec fn is_lowercase(text: Seq<u8>) -> bool {
    forall|i: int| 0 <= i < text.len() ==> 97 <= #[trigger] text[i] <= 122
}

/// The `len` letters drawn one after another at `stream`.
pub open spec fn generated_letters(stream: Stream, len: nat) -> Seq<u8> {
    Seq::new(len, |i: int| letter(stream.skip(i as nat).peek()))
}

/// The length that a draw at `stream` selects from `[min, max)`.
pub open spec fn generated_len(stream: Stream, min: u32, max: u32) -> nat {
    (min + stream.peek() % ((max - min) as u32)) as nat
}

/// The text drawn at `stream`, and the stream after it: a length in
/// `[min, max)` first, then that many letters.
pub open spec fn generated_text(stream: Stream, min: u32, max: u32) -> (Seq<u8>, Stream) {
    let len = generated_len(stream, min, max);
    (generated_letters(stream.skip(1), len), stream.skip(1 + len))
}

/// A drawn text has a length in `[min, max)` and holds lower-case letters
/// only.
pub proof fn lemma_generated_text(stream: Stream, min: u32, max: u32)
    requires
        min < max,
    ensures
        min <= generated_text(stream, min, max).0.len() < max,
        is_lowercase(generated_text(stream, min, max).0),
{
}

/// Draws a text of lower-case letters whose length lies in `[min, max)`.
pub fn generate_text(stream: &mut Stream, min: u32, max: u32) -> (text: Vec<u8>)
    requires
        min < max,
    ensures
        text@ == generated_text(*old(stream), min, max).0,
        *final(stream) == generated_text(*old(stream), min, max).1,
        min <= text.len() < max,
        is_lowercase(text@),
{
    let len: u32 = min + stream.below(max - min);
    let ghost start = *stream;
    let mut text: Vec<u8> = Vec::with_capacity(len as usize);
    let mut done: u32 = 0;
    while done < len
        invariant
            done <= len,
            text.len() == done,
            text@ == generated_letters(start, done as nat),
            is_lowercase(text@),
            *stream == start.skip(done as nat),
        decreases len - done,
    {
        let draw = stream.below(26);
        proof {
            start.lemma_skip_add(done as nat, 1);
        }
        text.push((97 + draw) as u8);
        done = done + 1;
    }
    proof {
        old(stream).lemma_skip_add(1, len as nat);
    }
    text
}

/// Whether two byte vectors hold the same bytes.
pub fn same_bytes(left: &Vec<u8>, right: &Vec<u8>) -> (equal: bool)
    ensures
        equal == (left@ == right@),
{
    if left.len() != right.len() {
        return false;
    }
    let mut at: usize = 0;
    while at < left.len()
        invariant
            at <= left.len(),
            left.len() == right.len(),
            forall|i: int| 0 <= i < at ==> left@[i] == right@[i],
        decreases left.len() - at,
    {
        if left[at] != right[at] {
            return false;
        }
        at = at + 1;
    }
    assert(left@ =~= right@);
    true
}

} // verus!
