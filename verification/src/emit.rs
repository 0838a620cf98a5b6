//! The emitter and the whole generation pass. `emit` assembles the
//! `GeneratedOutput` from a configuration and the classifier's results:
//! one conditional inclusion per declared target, in order, sourced from
//! `{dir}/{target}.rs`; one fallback inclusion sourced from
//! `{dir}/unsupported.rs`; the hoisted declarations; and one contract
//! assertion per recorded pair. `platform_spi` strings the passes together.

use vstd::prelude::*;
use crate::args::{args_wf, parse_args_spec, parse_config, source_path, source_path_spec};
use crate::ast::{
    AttrEntry, Config, ConfigV, ContractPair, Diagnostic, DiagnosticV, GeneratedOutput,
    HoistedDecl, ModuleBlock, PlatformRef,
};
use crate::classify::{
    check_spi_items, diags_spec, hoist_aliases_and_generate_impls, hoisted_spec, pairs_spec,
};

verus! {

/// What a successful generation looks like for a given configuration and
/// block: the platform inclusions mirror the targets in declared order with
/// their source paths, the fallback inclusion uses the `unsupported` stem,
/// and the hoisted declarations and contract pairs are the classifier's, in
/// original item order.
pub open spec fn output_matches(
    out: GeneratedOutput,
    cfg: ConfigV,
    block: ModuleBlock,
    assertions_enabled: bool,
) -> bool {
    &&& out.module_name@ == block.name@
    &&& out.module_vis@ == block.vis@
    &&& out.platform_refs@.len() == cfg.targets.len()
    &&& forall|i: int|
        0 <= i < cfg.targets.len() ==> {
            &&& (#[trigger] out.platform_refs@[i]).target_os@ == cfg.targets[i]
            &&& out.platform_refs@[i].source_path@ == source_path_spec(
                cfg.module_dir,
                cfg.targets[i],
            )
        }
    &&& out.fallback_path@ == source_path_spec(cfg.module_dir, "unsupported"@)
    &&& out.hoisted.deep_view() == hoisted_spec(block.spec_items(), block.name@)
    &&& out.assertions.deep_view() == pairs_spec(block.spec_items(), assertions_enabled)
}

/// The diagnostics of a failed generation: the first unknown configuration
/// key alone; otherwise, for a non-inline block, `ExternalModuleNotSupported`
/// alone; otherwise every diagnostic of the classification pass. Generation
/// succeeds exactly when this sequence is empty.
pub open spec fn failure_diags(
    args: Seq<AttrEntry>,
    block: ModuleBlock,
    assertions_enabled: bool,
) -> Seq<DiagnosticV> {
    match parse_args_spec(args) {
        Err(d) => seq![d],
        Ok(_) => if !block.is_inline() {
            seq![DiagnosticV::ExternalModuleNotSupported { pos: block.pos as int }]
        } else {
            diags_spec(block.spec_items(), assertions_enabled)
        },
    }
}

/// Assembles the generated output for a parsed configuration and the
/// classifier's results.
pub fn emit(
    config: &Config,
    module_name: &String,
    module_vis: &String,
    hoisted: Vec<HoistedDecl>,
    assertions: Vec<ContractPair>,
) -> (out: GeneratedOutput)
    ensures
        out.module_name@ == module_name@,
        out.module_vis@ == module_vis@,
        out.platform_refs@.len() == config.targets@.len(),
        forall|i: int|
            0 <= i < config.targets@.len() ==> {
                &&& (#[trigger] out.platform_refs@[i]).target_os@ == config.targets@[i]@
                &&& out.platform_refs@[i].source_path@ == source_path_spec(
                    config.module_dir@,
                    config.targets@[i]@,
                )
            },
        out.fallback_path@ == source_path_spec(config.module_dir@, "unsupported"@),
        out.hoisted == hoisted,
        out.assertions == assertions,
{
    let mut platform_refs: Vec<PlatformRef> = Vec::new();
    let mut k: usize = 0;
    while k < config.targets.len()
        invariant
            k <= config.targets.len(),
            platform_refs@.len() == k,
            forall|i: int|
                0 <= i < k ==> {
                    &&& (#[trigger] platform_refs@[i]).target_os@ == config.targets@[i]@
                    &&& platform_refs@[i].source_path@ == source_path_spec(
                        config.module_dir@,
                        config.targets@[i]@,
                    )
                },
        decreases config.targets.len() - k,
    {
        let p = source_path(&config.module_dir, config.targets[k].as_str());
        platform_refs.push(PlatformRef { target_os: config.targets[k].clone(), source_path: p });
        k += 1;
    }
    let fallback_path = source_path(&config.module_dir, "unsupported");
    GeneratedOutput {
        module_name: module_name.clone(),
        module_vis: module_vis.clone(),
        platform_refs,
        fallback_path,
        hoisted,
        assertions,
    }
}

/// The whole generation pass over one use-site: parses the configuration
/// entries, validates that the block is inline, classifies and hoists its
/// items, and on success emits the generated output. On failure returns the
/// diagnostics that `failure_diags` names, every classification diagnostic
/// aggregated in one result. `assertions_enabled` selects the optional
/// contract-assertion extension.
pub fn platform_spi(args: &Vec<AttrEntry>, item: &ModuleBlock, assertions_enabled: bool) -> (r:
    Result<GeneratedOutput, Vec<Diagnostic>>)
    requires
        args_wf(args@),
    ensures
        (match r {
            Ok(out) => {
                &&& failure_diags(args@, *item, assertions_enabled).len() == 0
                &&& parse_args_spec(args@) matches Ok(cfg) && output_matches(
                    out,
                    cfg,
                    *item,
                    assertions_enabled,
                )
            },
            Err(ds) => {
                &&& ds@.len() > 0
                &&& ds.deep_view() == failure_diags(args@, *item, assertions_enabled)
            },
        }),
{
    let config = match parse_config(args) {
        Ok(c) => c,
        Err(d) => {
            let mut ds: Vec<Diagnostic> = Vec::new();
            ds.push(d);
            proof {
                assert(ds.deep_view() =~= failure_diags(args@, *item, assertions_enabled));
            }
            return Err(ds);
        },
    };

    let content = match check_spi_items(item) {
        Ok(c) => c,
        Err(d) => {
            let mut ds: Vec<Diagnostic> = Vec::new();
            ds.push(d);
            proof {
                assert(ds.deep_view() =~= failure_diags(args@, *item, assertions_enabled));
            }
            return Err(ds);
        },
    };

    let hp = match hoist_aliases_and_generate_impls(content, &item.name, assertions_enabled) {
        Ok(hp) => hp,
        Err(ds) => {
            return Err(ds);
        },
    };
    let (aliases, pairs) = hp;

    let out = emit(&config, &item.name, &item.vis, aliases, pairs);
    proof {
        assert(forall|i: int|
            0 <= i < config.targets@.len() ==> config@.targets[i] == (
            #[trigger] config.targets@[i])@);
        assert(config@.targets.len() == config.targets@.len());
    }
    Ok(out)
}

} // verus!
