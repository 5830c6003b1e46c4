//! Copies of bytes.
use vstd::prelude::*;

verus! {

/// Appends the first `count` bytes of `bytes`.
pub fn append_prefix(out: &mut Vec<u8>, bytes: &[u8], count: usize)
    requires
        count <= bytes@.len(),
    ensures
        final(out)@ == old(out)@ + bytes@.take(count as int),
{
    let ghost before = out@;
    let mut i: usize = 0;
    while i < count
        invariant
            i <= count <= bytes@.len(),
            out@ == before + bytes@.take(i as int),
        decreases count - i,
    {
        out.push(bytes[i]);
        assert(before + bytes@.take(i as int + 1) =~= (before + bytes@.take(i as int)).push(
            bytes@[i as int],
        ));
        i = i + 1;
    }
}

/// A copy of `bytes`.
pub fn copy(bytes: &[u8]) -> (out: Vec<u8>)
    ensures
        out@ == bytes@,
{
    let mut out: Vec<u8> = Vec::new();
    append_prefix(&mut out, bytes, bytes.len());
    assert(bytes@.take(bytes@.len() as int) =~= bytes@);
    out
}

} // verus!
