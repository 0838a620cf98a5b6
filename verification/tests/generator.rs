use platform_spi::args::parse_config;
use platform_spi::ast::{
    AttrEntry, AttrValue, ContractPair, Diagnostic, HoistedDecl, ModuleBlock, PathSeg, SpiItem,
    TraitRef, Ty,
};
use platform_spi::classify::{check_spi_items, hoist_type_alias, hoist_use_alias};
use platform_spi::emit::platform_spi;

fn s(x: &str) -> String {
    x.to_string()
}

fn strings(xs: &[&str]) -> Vec<String> {
    xs.iter().map(|x| s(x)).collect()
}

fn seg(name: &str) -> PathSeg {
    PathSeg { name: s(name), args: String::new() }
}

fn seg_args(name: &str, args: &str) -> PathSeg {
    PathSeg { name: s(name), args: s(args) }
}

fn segs(names: &[&str]) -> Vec<PathSeg> {
    names.iter().map(|n| seg(n)).collect()
}

fn path_ty(names: &[&str]) -> Ty {
    Ty::Path { segments: segs(names) }
}

fn targets_entry(names: &[&str], pos: usize) -> AttrEntry {
    AttrEntry { key: s("targets"), value: AttrValue::Idents(strings(names)), pos }
}

fn dir_entry(dir: &str, pos: usize) -> AttrEntry {
    AttrEntry { key: format!("{}{}", "module_", "path"), value: AttrValue::Text(s(dir)), pos }
}

fn inline_block(name: &str, items: Vec<SpiItem>) -> ModuleBlock {
    ModuleBlock { name: s(name), vis: s("pub"), items: Some(items), pos: 0 }
}

fn type_alias(name: &str, target: Ty, pos: usize) -> SpiItem {
    SpiItem::TypeAlias {
        attrs: String::new(),
        vis: s("pub"),
        name: s(name),
        generics: String::new(),
        target,
        pos,
    }
}

fn reexport(path: &[&str], rename: Option<String>, pos: usize) -> SpiItem {
    SpiItem::Reexport {
        attrs: String::new(),
        vis: s("pub"),
        path: strings(path),
        rename,
        pos,
    }
}

fn hoisted_alias(name: &str, target: Vec<PathSeg>, pos: usize) -> HoistedDecl {
    HoistedDecl::TypeAlias {
        attrs: String::new(),
        vis: s("pub"),
        name: s(name),
        generics: String::new(),
        target,
        pos,
    }
}

fn hoisted_reexport(path: &[&str], rename: Option<String>, pos: usize) -> HoistedDecl {
    HoistedDecl::Reexport {
        attrs: String::new(),
        vis: s("pub"),
        path: strings(path),
        rename,
        pos,
    }
}

fn good_assertion(pos: usize) -> SpiItem {
    SpiItem::ContractAssertion {
        self_ty: path_ty(&["PlatformService"]),
        trait_ref: Some(TraitRef { negated: false, path: segs(&["SomeTrait"]) }),
        has_body: false,
        has_generics: false,
        pos,
    }
}

#[test]
fn four_conditional_inclusions_for_three_targets() {
    let args = vec![targets_entry(&["macos", "windows", "linux"], 0)];
    let block = inline_block("platform", vec![]);
    let out = platform_spi(&args, &block, true).unwrap();
    // three platform-specific inclusions plus the one fallback: four in all
    assert_eq!(out.platform_refs.len(), 3);
    assert_eq!(out.platform_refs[0].target_os, "macos");
    assert_eq!(out.platform_refs[1].target_os, "windows");
    assert_eq!(out.platform_refs[2].target_os, "linux");
    // the activation conditions are pairwise distinct, and the fallback
    // condition is the negation of all three together
    assert_ne!(out.platform_refs[0].target_os, out.platform_refs[1].target_os);
    assert_ne!(out.platform_refs[0].target_os, out.platform_refs[2].target_os);
    assert_ne!(out.platform_refs[1].target_os, out.platform_refs[2].target_os);
    assert_eq!(out.module_name, "platform");
    assert_eq!(out.module_vis, "pub");
}

#[test]
fn exactly_one_inclusion_is_active_per_build() {
    let args = vec![targets_entry(&["macos", "windows", "linux"], 0)];
    let block = inline_block("platform", vec![]);
    let out = platform_spi(&args, &block, true).unwrap();
    for build_os in ["macos", "windows", "linux", "freebsd"] {
        let matching =
            out.platform_refs.iter().filter(|r| r.target_os == build_os).count();
        let fallback_active = out.platform_refs.iter().all(|r| r.target_os != build_os);
        // the fallback activates exactly when no platform inclusion does,
        // and never more than one platform inclusion matches
        assert_eq!(fallback_active, matching == 0);
        assert_eq!(matching + if fallback_active { 1 } else { 0 }, 1);
    }
}

#[test]
fn source_paths_follow_the_directory() {
    let args = vec![targets_entry(&["macos", "windows", "linux"], 0), dir_entry("foo", 1)];
    let block = inline_block("platform", vec![]);
    let out = platform_spi(&args, &block, true).unwrap();
    assert_eq!(out.platform_refs[0].source_path, "foo/macos.rs");
    assert_eq!(out.platform_refs[1].source_path, "foo/windows.rs");
    assert_eq!(out.platform_refs[2].source_path, "foo/linux.rs");
    assert_eq!(out.fallback_path, "foo/unsupported.rs");
}

#[test]
fn default_directory_is_dot() {
    let args = vec![targets_entry(&["macos"], 0)];
    let block = inline_block("platform", vec![]);
    let out = platform_spi(&args, &block, true).unwrap();
    assert_eq!(out.platform_refs[0].source_path, "./macos.rs");
    assert_eq!(out.fallback_path, "./unsupported.rs");
}

#[test]
fn unsupported_item_is_identified() {
    let args = vec![targets_entry(&["macos"], 0)];
    let block = inline_block(
        "platform",
        vec![SpiItem::Other { kind: s("fn"), pos: 5 }],
    );
    let err = platform_spi(&args, &block, true).unwrap_err();
    assert_eq!(err, vec![Diagnostic::UnsupportedItemKind { kind: s("fn"), pos: 5 }]);
}

#[test]
fn two_violations_are_reported_together() {
    let args = vec![targets_entry(&["macos"], 0)];
    let block = inline_block(
        "platform",
        vec![
            SpiItem::Other { kind: s("fn"), pos: 3 },
            type_alias("Bad", Ty::NonPath { repr: s("(A, B)") }, 9),
        ],
    );
    let err = platform_spi(&args, &block, true).unwrap_err();
    assert_eq!(
        err,
        vec![
            Diagnostic::UnsupportedItemKind { kind: s("fn"), pos: 3 },
            Diagnostic::PathAliasOnly { pos: 9 },
        ]
    );
}

#[test]
fn tuple_alias_fails_even_among_valid_items() {
    let args = vec![targets_entry(&["macos"], 0)];
    let block = inline_block(
        "platform",
        vec![
            type_alias("Good", path_ty(&["Impl"]), 1),
            type_alias("Bad", Ty::NonPath { repr: s("(A, B)") }, 2),
            reexport(&["ErrorImpl"], None, 3),
        ],
    );
    let err = platform_spi(&args, &block, true).unwrap_err();
    assert_eq!(err, vec![Diagnostic::PathAliasOnly { pos: 2 }]);
}

#[test]
fn assertion_with_body_fails() {
    let args = vec![targets_entry(&["macos"], 0)];
    let mut item = good_assertion(4);
    if let SpiItem::ContractAssertion { ref mut has_body, .. } = item {
        *has_body = true;
    }
    let block = inline_block("platform", vec![item]);
    let err = platform_spi(&args, &block, true).unwrap_err();
    assert_eq!(err, vec![Diagnostic::MalformedContractAssertion { pos: 4 }]);
}

#[test]
fn empty_body_assertion_yields_one_unprefixed_pair() {
    let args = vec![targets_entry(&["macos"], 0)];
    let block = inline_block("platform", vec![good_assertion(4)]);
    let out = platform_spi(&args, &block, true).unwrap();
    assert_eq!(
        out.assertions,
        vec![ContractPair {
            implementing_type: path_ty(&["PlatformService"]),
            interface_path: segs(&["SomeTrait"]),
        }]
    );
    // the implementing type is exactly as written: no leading block segment
    assert_eq!(
        out.assertions[0].implementing_type,
        Ty::Path { segments: segs(&["PlatformService"]) }
    );
}

#[test]
fn interface_path_keeps_generic_arguments() {
    // impl FilePathDescription<String> for FilePathDescriber {} records the
    // interface with its generic argument unchanged
    let args = vec![targets_entry(&["macos"], 0)];
    let item = SpiItem::ContractAssertion {
        self_ty: path_ty(&["FilePathDescriber"]),
        trait_ref: Some(TraitRef {
            negated: false,
            path: vec![seg_args("FilePathDescription", "<String>")],
        }),
        has_body: false,
        has_generics: false,
        pos: 2,
    };
    let block = inline_block("platform", vec![item]);
    let out = platform_spi(&args, &block, true).unwrap();
    assert_eq!(
        out.assertions,
        vec![ContractPair {
            implementing_type: path_ty(&["FilePathDescriber"]),
            interface_path: vec![seg_args("FilePathDescription", "<String>")],
        }]
    );
}

#[test]
fn generics_or_negation_or_missing_interface_fail() {
    let args = vec![targets_entry(&["macos"], 0)];
    let mut with_generics = good_assertion(1);
    if let SpiItem::ContractAssertion { ref mut has_generics, .. } = with_generics {
        *has_generics = true;
    }
    let mut negated = good_assertion(2);
    if let SpiItem::ContractAssertion { ref mut trait_ref, .. } = negated {
        *trait_ref = Some(TraitRef { negated: true, path: segs(&["SomeTrait"]) });
    }
    let mut inherent = good_assertion(3);
    if let SpiItem::ContractAssertion { ref mut trait_ref, .. } = inherent {
        *trait_ref = None;
    }
    let block = inline_block("platform", vec![with_generics, negated, inherent]);
    let err = platform_spi(&args, &block, true).unwrap_err();
    assert_eq!(
        err,
        vec![
            Diagnostic::MalformedContractAssertion { pos: 1 },
            Diagnostic::MalformedContractAssertion { pos: 2 },
            Diagnostic::MalformedContractAssertion { pos: 3 },
        ]
    );
}

#[test]
fn alias_hoists_through_the_block_name() {
    let args = vec![targets_entry(&["macos"], 0)];
    let block = inline_block("platform", vec![type_alias("X", path_ty(&["Y"]), 6)]);
    let out = platform_spi(&args, &block, true).unwrap();
    // type X = Y; inside block `platform` hoists to type X = platform::Y;
    assert_eq!(out.hoisted, vec![hoisted_alias("X", segs(&["platform", "Y"]), 6)]);
}

#[test]
fn alias_target_keeps_generic_arguments() {
    // type PlatformService = ServiceImpl<SomeType>; hoists to
    // type PlatformService = platform::ServiceImpl<SomeType>;
    let args = vec![targets_entry(&["macos"], 0)];
    let target = Ty::Path { segments: vec![seg_args("ServiceImpl", "<SomeType>")] };
    let block = inline_block("platform", vec![type_alias("PlatformService", target, 2)]);
    let out = platform_spi(&args, &block, true).unwrap();
    assert_eq!(
        out.hoisted,
        vec![hoisted_alias(
            "PlatformService",
            vec![seg("platform"), seg_args("ServiceImpl", "<SomeType>")],
            2,
        )]
    );
}

#[test]
fn alias_attributes_visibility_and_generics_are_preserved() {
    let args = vec![targets_entry(&["macos"], 0)];
    let item = SpiItem::TypeAlias {
        attrs: s("#[doc = \"the platform service\"]"),
        vis: s("pub(crate)"),
        name: s("Service"),
        generics: s("<T>"),
        target: Ty::Path { segments: vec![seg_args("ServiceImpl", "<T>")] },
        pos: 5,
    };
    let block = inline_block("platform", vec![item]);
    let out = platform_spi(&args, &block, true).unwrap();
    assert_eq!(
        out.hoisted,
        vec![HoistedDecl::TypeAlias {
            attrs: s("#[doc = \"the platform service\"]"),
            vis: s("pub(crate)"),
            name: s("Service"),
            generics: s("<T>"),
            target: vec![seg("platform"), seg_args("ServiceImpl", "<T>")],
            pos: 5,
        }]
    );
}

#[test]
fn reexport_hoists_and_keeps_rename() {
    let args = vec![targets_entry(&["macos"], 0)];
    let block = inline_block(
        "platform",
        vec![reexport(&["ErrorImpl"], Some(s("PlatformError")), 8)],
    );
    let out = platform_spi(&args, &block, true).unwrap();
    assert_eq!(
        out.hoisted,
        vec![hoisted_reexport(&["platform", "ErrorImpl"], Some(s("PlatformError")), 8)]
    );
}

#[test]
fn reexport_keeps_its_own_attributes_and_visibility() {
    // a pub use inside a private module block still hoists as pub
    let args = vec![targets_entry(&["macos"], 0)];
    let item = SpiItem::Reexport {
        attrs: s("#[doc = \"platform error\"]"),
        vis: s("pub"),
        path: strings(&["ErrorImpl"]),
        rename: Some(s("PlatformError")),
        pos: 3,
    };
    let block = ModuleBlock { name: s("platform"), vis: String::new(), items: Some(vec![item]), pos: 0 };
    let out = platform_spi(&args, &block, true).unwrap();
    assert_eq!(out.module_vis, "");
    assert_eq!(
        out.hoisted,
        vec![HoistedDecl::Reexport {
            attrs: s("#[doc = \"platform error\"]"),
            vis: s("pub"),
            path: strings(&["platform", "ErrorImpl"]),
            rename: Some(s("PlatformError")),
            pos: 3,
        }]
    );
}

#[test]
fn hoisted_declarations_keep_item_order() {
    let args = vec![targets_entry(&["macos"], 0)];
    let block = inline_block(
        "platform",
        vec![
            type_alias("A", path_ty(&["AImpl"]), 1),
            good_assertion(2),
            reexport(&["B"], None, 3),
            type_alias("C", path_ty(&["c", "CImpl"]), 4),
        ],
    );
    let out = platform_spi(&args, &block, true).unwrap();
    assert_eq!(
        out.hoisted,
        vec![
            hoisted_alias("A", segs(&["platform", "AImpl"]), 1),
            hoisted_reexport(&["platform", "B"], None, 3),
            hoisted_alias("C", segs(&["platform", "c", "CImpl"]), 4),
        ]
    );
    assert_eq!(out.assertions.len(), 1);
}

#[test]
fn empty_targets_yield_only_the_fallback() {
    let args = vec![targets_entry(&[], 0)];
    let block = inline_block("platform", vec![]);
    let out = platform_spi(&args, &block, true).unwrap();
    assert_eq!(out.platform_refs.len(), 0);
    assert_eq!(out.fallback_path, "./unsupported.rs");
}

#[test]
fn unknown_key_is_rejected() {
    let args = vec![AttrEntry { key: s("bogus"), value: AttrValue::Text(s("x")), pos: 2 }];
    let block = inline_block("platform", vec![]);
    let err = platform_spi(&args, &block, true).unwrap_err();
    assert_eq!(err, vec![Diagnostic::UnexpectedAttributeKey { key: s("bogus"), pos: 2 }]);
}

#[test]
fn unknown_key_aborts_before_the_block_is_looked_at() {
    let args = vec![AttrEntry { key: s("bogus"), value: AttrValue::Text(s("x")), pos: 2 }];
    let block = ModuleBlock { name: s("platform"), vis: s("pub"), items: None, pos: 1 };
    let err = platform_spi(&args, &block, true).unwrap_err();
    assert_eq!(err, vec![Diagnostic::UnexpectedAttributeKey { key: s("bogus"), pos: 2 }]);
}

#[test]
fn external_block_is_rejected() {
    let args = vec![targets_entry(&["macos"], 0)];
    let block = ModuleBlock { name: s("platform"), vis: s("pub"), items: None, pos: 11 };
    let err = platform_spi(&args, &block, true).unwrap_err();
    assert_eq!(err, vec![Diagnostic::ExternalModuleNotSupported { pos: 11 }]);
}

#[test]
fn repeated_keys_overwrite() {
    let args = vec![
        targets_entry(&["macos"], 0),
        dir_entry("first", 1),
        targets_entry(&["windows", "linux"], 2),
        dir_entry("second", 3),
    ];
    let block = inline_block("platform", vec![]);
    let out = platform_spi(&args, &block, true).unwrap();
    assert_eq!(out.platform_refs.len(), 2);
    assert_eq!(out.platform_refs[0].source_path, "second/windows.rs");
    assert_eq!(out.platform_refs[1].source_path, "second/linux.rs");
}

#[test]
fn restricted_mode_rejects_assertions_as_unsupported() {
    let args = vec![targets_entry(&["macos"], 0)];
    let block = inline_block("platform", vec![good_assertion(7)]);
    let err = platform_spi(&args, &block, false).unwrap_err();
    assert_eq!(err, vec![Diagnostic::UnsupportedItemKind { kind: s("impl"), pos: 7 }]);
}

#[test]
fn restricted_mode_still_hoists_aliases() {
    let args = vec![targets_entry(&["macos"], 0)];
    let block = inline_block("platform", vec![type_alias("X", path_ty(&["Y"]), 6)]);
    let out = platform_spi(&args, &block, false).unwrap();
    assert_eq!(out.hoisted, vec![hoisted_alias("X", segs(&["platform", "Y"]), 6)]);
    assert_eq!(out.assertions.len(), 0);
}

#[test]
fn parse_config_reads_both_keys() {
    let entries = vec![dir_entry("src/platform", 0), targets_entry(&["macos", "linux"], 1)];
    let config = parse_config(&entries).unwrap();
    assert_eq!(config.targets, strings(&["macos", "linux"]));
    assert_eq!(config.module_dir, "src/platform");
}

#[test]
fn parse_config_defaults() {
    let entries: Vec<AttrEntry> = Vec::new();
    let config = parse_config(&entries).unwrap();
    assert_eq!(config.targets.len(), 0);
    assert_eq!(config.module_dir, ".");
}

#[test]
fn check_spi_items_passes_inline_content_through() {
    let block = inline_block("platform", vec![SpiItem::Other { kind: s("fn"), pos: 1 }]);
    let items = check_spi_items(&block).unwrap();
    assert_eq!(items.len(), 1);
    let external = ModuleBlock { name: s("platform"), vis: s(""), items: None, pos: 4 };
    let err = check_spi_items(&external).unwrap_err();
    assert_eq!(err, Diagnostic::ExternalModuleNotSupported { pos: 4 });
}

#[test]
fn config_source_paths_follow_target_order() {
    let entries = vec![targets_entry(&["macos", "windows"], 0), dir_entry("pal", 1)];
    let config = parse_config(&entries).unwrap();
    assert_eq!(config.source_paths(), strings(&["pal/macos.rs", "pal/windows.rs"]));
}

#[test]
fn hoist_type_alias_prepends_one_bare_segment() {
    let h = hoist_type_alias(
        &String::new(),
        &s("pub"),
        &s("Service"),
        &String::new(),
        &path_ty(&["ServiceImpl"]),
        2,
        &s("platform"),
    )
    .unwrap();
    assert_eq!(h, hoisted_alias("Service", segs(&["platform", "ServiceImpl"]), 2));
    let err = hoist_type_alias(
        &String::new(),
        &s("pub"),
        &s("Bad"),
        &String::new(),
        &Ty::NonPath { repr: s("[u8; 4]") },
        3,
        &s("platform"),
    )
    .unwrap_err();
    assert_eq!(err, Diagnostic::PathAliasOnly { pos: 3 });
}

#[test]
fn hoist_use_alias_prepends_one_segment() {
    let h = hoist_use_alias(
        &String::new(),
        &s("pub"),
        &strings(&["a", "B"]),
        &Some(s("C")),
        5,
        &s("platform"),
    );
    assert_eq!(h, hoisted_reexport(&["platform", "a", "B"], Some(s("C")), 5));
}
