use vstd::prelude::*;

verus! {

/// Number of leading bytes of a file that are sampled to tell text from binary.
pub const PREFIX_LEN: usize = 8000;

/// The part of what was read from a file's start that the heuristic looks at.
pub open spec fn sampled(head: Seq<u8>) -> Seq<u8> {
    if head.len() <= PREFIX_LEN {
        head
    } else {
        head.subrange(0, PREFIX_LEN as int)
    }
}

/// True when some byte of `bytes` is NUL.
pub open spec fn has_nul(bytes: Seq<u8>) -> bool {
    exists|i: int| 0 <= i < bytes.len() && bytes[i] == 0
}

/// What was read from the start of a file, or `None` when it could not be opened or read.
pub open spec fn head_view(head: Option<Vec<u8>>) -> Option<Seq<u8>> {
    match head {
        Some(h) => Some(h@),
        None => None,
    }
}

/// A file is binary when it cannot be read, or when its sampled prefix holds a NUL byte.
pub open spec fn binary_spec(head: Option<Seq<u8>>) -> bool {
    match head {
        Some(h) => has_nul(sampled(h)),
        None => true,
    }
}

/// Classifies a file from the bytes read at its start (`None`: the file could
/// not be opened or read, which counts as binary). Only the first
/// `PREFIX_LEN` bytes are looked at.
pub fn is_binary(head: &Option<Vec<u8>>) -> (r: bool)
    ensures
        r == binary_spec(head_view(*head)),
{
    match head {
        None => true,
        Some(h) => {
            let n: usize = if h.len() <= PREFIX_LEN {
                h.len()
            } else {
                PREFIX_LEN
            };
            let mut i: usize = 0;
            while i < n
                invariant
                    head_view(*head) == Some(h@),
                    n <= h@.len(),
                    n == sampled(h@).len(),
                    i <= n,
                    forall|j: int| 0 <= j < i ==> sampled(h@)[j] != 0,
                decreases n - i,
            {
                if h[i] == 0 {
                    assert(sampled(h@)[i as int] == 0);
                    assert(has_nul(sampled(h@)));
                    return true;
                }
                i = i + 1;
            }
            false
        },
    }
}

/// An empty file holds no NUL byte, so it is not binary.
pub proof fn lemma_empty_not_binary(head: Seq<u8>)
    requires
        head.len() == 0,
    ensures
        !binary_spec(Some(head)),
{
}

} // verus!
