use vstd::prelude::*;

use crate::streams::TextStream;

verus! {

/// Wraps an already-computed string as a one-element fragment sequence: the
/// stream yields exactly that string once and is then exhausted. Adapts a
/// precomputed complete result to the streaming shape the capabilities
/// expect; the string moves into the stream, and the stream is not
/// restartable once exhausted.
pub fn string_to_stream(s: String) -> (r: TextStream)
    ensures
        r@.len() == 1,
        r@[0] == s@,
{
    let mut items: Vec<String> = Vec::new();
    items.push(s);
    TextStream::new(items)
}

} // verus!
