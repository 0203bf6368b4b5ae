use vstd::prelude::*;
use crate::aggregate::{lemma_sum_permutation, sum_of, total_spec};
use crate::selection::{keeps, selected, Probe};
use crate::tokens::content_tokens;

verus! {

/// The probes of a run that denote regular files: its file set.
pub open spec fn file_probes(probes: Seq<Probe>) -> Seq<Probe> {
    probes.filter(|p: Probe| p.is_file)
}

/// The total of a run over `probes`, where `files` gives what reading each
/// path yields (`None`: the read failed).
pub open spec fn run_total(probes: Seq<Probe>, files: Map<Seq<char>, Option<Seq<u8>>>) -> nat {
    total_spec(selected(probes).map_values(|path: Seq<char>| files[path]))
}

/// What one probe adds to a run's total, given what reading each path yields.
pub open spec fn probe_tokens(files: Map<Seq<char>, Option<Seq<u8>>>) -> spec_fn(Probe) -> nat {
    |p: Probe|
        if keeps(p) {
            content_tokens(files[p.path@])
        } else {
            0
        }
}

proof fn lemma_run_total_sum(ps: Seq<Probe>, files: Map<Seq<char>, Option<Seq<u8>>>)
    ensures
        run_total(ps, files) == sum_of(ps, probe_tokens(files)),
    decreases ps.len(),
{
    let g = |path: Seq<char>| files[path];
    if ps.len() > 0 {
        lemma_run_total_sum(ps.drop_last(), files);
        let rest = selected(ps.drop_last()).map_values(g);
        if keeps(ps.last()) {
            let all = selected(ps).map_values(g);
            assert(all.drop_last() =~= rest);
            assert(all.last() == files[ps.last().path@]);
        }
    } else {
        assert(selected(ps).map_values(g) =~= Seq::<Option<Seq<u8>>>::empty());
    }
}

proof fn lemma_file_probes_sum(ps: Seq<Probe>, f: spec_fn(Probe) -> nat)
    requires
        forall|p: Probe| !p.is_file ==> #[trigger] f(p) == 0,
    ensures
        sum_of(file_probes(ps), f) == sum_of(ps, f),
    decreases ps.len(),
{
    reveal(Seq::filter);
    if ps.len() > 0 {
        lemma_file_probes_sum(ps.drop_last(), f);
        let fp = file_probes(ps);
        if ps.last().is_file {
            assert(fp.drop_last() == file_probes(ps.drop_last()));
            assert(fp.last() == ps.last());
        }
    }
}

/// Directory mode and version-control mode agree: two runs whose file sets
/// are the same (in any order, with any directories besides) have the same
/// total.
pub proof fn lemma_modes_agree(
    walked: Seq<Probe>,
    listed: Seq<Probe>,
    files: Map<Seq<char>, Option<Seq<u8>>>,
)
    requires
        file_probes(walked).to_multiset() =~= file_probes(listed).to_multiset(),
    ensures
        run_total(walked, files) == run_total(listed, files),
{
    let f = probe_tokens(files);
    lemma_run_total_sum(walked, files);
    lemma_run_total_sum(listed, files);
    lemma_file_probes_sum(walked, f);
    lemma_file_probes_sum(listed, f);
    lemma_sum_permutation(file_probes(walked), file_probes(listed), f);
}

} // verus!
