use vstd::prelude::*;
use crate::binary::{binary_spec, has_nul, head_view, is_binary, sampled, PREFIX_LEN};

verus! {

/// What was learned of one candidate path before selection.
pub struct Probe {
    /// The candidate's path.
    pub path: String,
    /// Whether the path denotes an existing regular file.
    pub is_file: bool,
    /// The bytes read from the file's start (up to `PREFIX_LEN` of them), or
    /// `None` when it could not be opened or read.
    pub head: Option<Vec<u8>>,
}

/// A candidate is kept when it is a regular file that is not binary.
pub open spec fn keeps(p: Probe) -> bool {
    p.is_file && !binary_spec(head_view(p.head))
}

/// The paths of the kept candidates, in the order given.
pub open spec fn selected(probes: Seq<Probe>) -> Seq<Seq<char>>
    decreases probes.len(),
{
    if probes.len() == 0 {
        seq![]
    } else if keeps(probes.last()) {
        selected(probes.drop_last()).push(probes.last().path@)
    } else {
        selected(probes.drop_last())
    }
}

/// Whether one candidate is selected.
pub fn is_selected(probe: &Probe) -> (r: bool)
    ensures
        r == keeps(*probe),
{
    probe.is_file && !is_binary(&probe.head)
}

/// The paths of the candidates that are regular, non-binary files, in the
/// order given.
pub fn select(probes: &Vec<Probe>) -> (r: Vec<String>)
    ensures
        r@.map_values(|s: String| s@) == selected(probes@),
{
    let mut out: Vec<String> = Vec::new();
    let mut i: usize = 0;
    while i < probes.len()
        invariant
            i <= probes@.len(),
            out@.map_values(|s: String| s@) == selected(probes@.subrange(0, i as int)),
        decreases probes.len() - i,
    {
        let ghost before = out@;
        assert(probes@.subrange(0, i + 1).drop_last() =~= probes@.subrange(0, i as int));
        if is_selected(&probes[i]) {
            out.push(probes[i].path.clone());
            assert(out@.map_values(|s: String| s@) =~= before.map_values(|s: String| s@).push(
                probes@[i as int].path@,
            ));
        }
        i = i + 1;
    }
    assert(probes@.subrange(0, i as int) =~= probes@);
    out
}

/// A file with a NUL byte among its first `PREFIX_LEN` bytes is never
/// selected, whatever its name.
pub proof fn lemma_nul_prefix_excluded(p: Probe, i: int)
    requires
        p.head is Some,
        0 <= i < PREFIX_LEN,
        i < p.head->Some_0@.len(),
        p.head->Some_0@[i] == 0,
    ensures
        !keeps(p),
{
    let h = p.head->Some_0@;
    assert(sampled(h)[i] == 0);
    assert(has_nul(sampled(h)));
}

} // verus!
