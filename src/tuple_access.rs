//! Tuple structs whose members are only read through generated code get a
//! hidden method that touches each member once, so that none is reported as
//! never read.
use vstd::prelude::*;

verus! {

/// The members the hidden method touches: every position of a tuple struct
/// with `len` members, in order.
pub fn tuple_field_accesses(len: usize) -> (r: Vec<usize>)
    ensures
        r@.len() == len,
        forall|i: int| 0 <= i < len ==> #[trigger] r@[i] == i,
{
    let mut out: Vec<usize> = Vec::new();
    let mut i: usize = 0;
    while i < len
        invariant
            i <= len,
            out@.len() == i,
            forall|k: int| 0 <= k < i ==> #[trigger] out@[k] == k,
        decreases len - i,
    {
        out.push(i);
        i = i + 1;
    }
    out
}

} // verus!
