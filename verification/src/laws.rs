//! Laws of the generated output: platform selection is a compile-time,
//! mutually exclusive, jointly exhaustive choice among the conditional
//! inclusions.

use vstd::prelude::*;
use crate::ast::{ConfigV, GeneratedOutput, ModuleBlock, SpiItem};
use crate::classify::{diags_spec, item_valid};
use crate::emit::output_matches;

verus! {

/// Law: classification aggregates instead of short-circuiting — the pass
/// reports no diagnostic exactly when every single item of the block is
/// valid, so one bad item among many is always surfaced.
pub proof fn lemma_no_diagnostics_iff_all_items_valid(
    items: Seq<SpiItem>,
    assertions_enabled: bool,
)
    ensures
        (diags_spec(items, assertions_enabled).len() == 0) <==> (forall|i: int|
            0 <= i < items.len() ==> item_valid(#[trigger] items[i], assertions_enabled)),
    decreases items.len(),
{
    if items.len() > 0 {
        lemma_no_diagnostics_iff_all_items_valid(items.drop_last(), assertions_enabled);
        assert(forall|i: int|
            0 <= i < items.len() - 1 ==> #[trigger] items[i] == items.drop_last()[i]);
        assert(items.last() == items[items.len() - 1]);
    }
}

/// Whether the conditional inclusion of the platform at index `i` is active
/// in a build whose platform is `build_os`.
pub open spec fn platform_ref_active(out: GeneratedOutput, i: int, build_os: Seq<char>) -> bool {
    out.platform_refs@[i].target_os@ == build_os
}

/// Whether the fallback inclusion is active in a build whose platform is
/// `build_os`: no declared target matches.
pub open spec fn fallback_active(out: GeneratedOutput, build_os: Seq<char>) -> bool {
    forall|i: int|
        0 <= i < out.platform_refs@.len() ==> (#[trigger] out.platform_refs@[i]).target_os@
            != build_os
}

/// Whether the output's declared targets are pairwise distinct, as the
/// configuration's well-formedness promises.
pub open spec fn distinct_targets(out: GeneratedOutput) -> bool {
    forall|i: int, j: int|
        0 <= i < j < out.platform_refs@.len() ==> (#[trigger] out.platform_refs@[i]).target_os@
            != (#[trigger] out.platform_refs@[j]).target_os@
}

/// Law: in any single build, the conditional inclusions of a generated
/// output with pairwise-distinct targets are mutually exclusive and jointly
/// exhaustive. Some inclusion is always active; the fallback is active
/// exactly when no platform inclusion matches the build's platform; and no
/// two platform inclusions are active together.
pub proof fn lemma_inclusions_mutually_exclusive_and_exhaustive(
    out: GeneratedOutput,
    build_os: Seq<char>,
)
    requires
        distinct_targets(out),
    ensures
        fallback_active(out, build_os) || (exists|i: int|
            0 <= i < out.platform_refs@.len() && platform_ref_active(out, i, build_os)),
        fallback_active(out, build_os) <==> !(exists|i: int|
            0 <= i < out.platform_refs@.len() && platform_ref_active(out, i, build_os)),
        forall|i: int, j: int|
            0 <= i < out.platform_refs@.len() && 0 <= j < out.platform_refs@.len()
                && platform_ref_active(out, i, build_os) && platform_ref_active(out, j, build_os)
                ==> i == j,
{
    if !fallback_active(out, build_os) {
        let i = choose|i: int|
            0 <= i < out.platform_refs@.len() && out.platform_refs@[i].target_os@ == build_os;
        assert(platform_ref_active(out, i, build_os));
    }
    assert forall|i: int, j: int|
        0 <= i < out.platform_refs@.len() && 0 <= j < out.platform_refs@.len()
            && platform_ref_active(out, i, build_os) && platform_ref_active(
            out,
            j,
            build_os,
        ) implies i == j by {
        if i < j {
            assert(out.platform_refs@[i].target_os@ != out.platform_refs@[j].target_os@);
        } else if j < i {
            assert(out.platform_refs@[j].target_os@ != out.platform_refs@[i].target_os@);
        }
    }
}

/// A generation from a well-formed configuration — pairwise-distinct
/// targets — yields an output with pairwise-distinct targets, so the law
/// above applies to it.
pub proof fn lemma_generated_targets_distinct(
    out: GeneratedOutput,
    cfg: ConfigV,
    block: ModuleBlock,
    assertions_enabled: bool,
)
    requires
        cfg.wf(),
        output_matches(out, cfg, block, assertions_enabled),
    ensures
        distinct_targets(out),
{
}

} // verus!
