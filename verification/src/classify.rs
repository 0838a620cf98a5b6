//! The declaration validator and the item classifier/hoister. The validator
//! rejects a block that is not inline. The classifier visits every item of
//! an inline block: type aliases and re-exports are rewritten into hoisted
//! forwarding declarations whose path gains the block's name as a new
//! leading segment, everything else — attributes, visibility, generic
//! parameters and arguments, rename clauses — kept exactly as written;
//! well-formed contract assertions yield contract pairs,
//! the implementing type kept exactly as written; every invalid item adds a
//! diagnostic, and all diagnostics of one pass are returned together.
//!
//! Contract-assertion support is an optional extension: with it switched
//! off, an assertion item is an unsupported item kind.

use vstd::prelude::*;
use vstd::string::StringExecFns;
use crate::args::copy_strings;
use crate::ast::{
    bare_seg, ContractPair, ContractPairV, Diagnostic, DiagnosticV, HoistedDecl, HoistedDeclV,
    ModuleBlock, PathSeg, SpiItem, Ty,
};

verus! {

// ---------------------------------------------------------------------------
// Declaration validator
// ---------------------------------------------------------------------------

/// Yields the item list of an inline block; a block that is a reference to
/// an external file fails with `ExternalModuleNotSupported` at the block's
/// name, before any item is looked at.
pub fn check_spi_items<'a>(mod_decl: &'a ModuleBlock) -> (r: Result<&'a Vec<SpiItem>, Diagnostic>)
    ensures
        (match r {
            Ok(items) => mod_decl.is_inline() && items@ == mod_decl.spec_items(),
            Err(d) => !mod_decl.is_inline() && d@ == (DiagnosticV::ExternalModuleNotSupported {
                pos: mod_decl.pos as int,
            }),
        }),
{
    match &mod_decl.items {
        Some(content) => Ok(content),
        None => Err(Diagnostic::ExternalModuleNotSupported { pos: mod_decl.pos }),
    }
}

// ---------------------------------------------------------------------------
// Item classification, as spec functions
// ---------------------------------------------------------------------------

/// Whether one item is accepted by the classifier. `assertions_enabled`
/// selects the optional contract-assertion extension; with it off, only
/// type aliases and re-exports are recognized.
pub open spec fn item_valid(item: SpiItem, assertions_enabled: bool) -> bool {
    match item {
        SpiItem::TypeAlias { target, .. } => target is Path,
        SpiItem::Reexport { .. } => true,
        SpiItem::ContractAssertion { trait_ref, has_body, has_generics, .. } => {
            &&& assertions_enabled
            &&& !has_body
            &&& !has_generics
            &&& trait_ref matches Some(tr) && !tr.negated
        },
        SpiItem::Other { .. } => false,
    }
}

/// The diagnostic of an invalid item (meaningless for a valid one).
pub open spec fn item_diag(item: SpiItem, assertions_enabled: bool) -> DiagnosticV {
    match item {
        SpiItem::TypeAlias { pos, .. } => DiagnosticV::PathAliasOnly { pos: pos as int },
        SpiItem::Reexport { .. } => arbitrary(),
        SpiItem::ContractAssertion { pos, .. } => if assertions_enabled {
            DiagnosticV::MalformedContractAssertion { pos: pos as int }
        } else {
            DiagnosticV::UnsupportedItemKind { kind: "impl"@, pos: pos as int }
        },
        SpiItem::Other { kind, pos } => DiagnosticV::UnsupportedItemKind {
            kind: kind@,
            pos: pos as int,
        },
    }
}

/// The hoisted declaration of a valid alias or re-export: the item exactly
/// as written — attributes, visibility, name, generic parameters, the
/// path's own segments with their generic arguments, and any rename clause
/// all unchanged — except that the path gains the block's name, as a bare
/// segment, in new leading position. `None` for any other item.
pub open spec fn item_hoisted(item: SpiItem, parent: Seq<char>) -> Option<HoistedDeclV> {
    match item {
        SpiItem::TypeAlias { attrs, vis, name, generics, target, pos } => match target {
            Ty::Path { segments } => Some(
                HoistedDeclV::TypeAlias {
                    attrs: attrs@,
                    vis: vis@,
                    name: name@,
                    generics: generics@,
                    target: seq![bare_seg(parent)] + segments.deep_view(),
                    pos: pos as int,
                },
            ),
            Ty::NonPath { .. } => None,
        },
        SpiItem::Reexport { attrs, vis, path, rename, pos } => Some(
            HoistedDeclV::Reexport {
                attrs: attrs@,
                vis: vis@,
                path: seq![parent] + path.deep_view(),
                rename: rename.deep_view(),
                pos: pos as int,
            },
        ),
        _ => None,
    }
}

/// The contract pair of a contract-assertion item that carries an interface
/// reference: the implementing type exactly as written, with no leading
/// module segment, and the interface path. `None` for any other item.
pub open spec fn item_pair(item: SpiItem) -> Option<ContractPairV> {
    match item {
        SpiItem::ContractAssertion { self_ty, trait_ref, .. } => match trait_ref {
            Some(tr) => Some(
                ContractPairV {
                    implementing_type: self_ty@,
                    interface_path: tr.path.deep_view(),
                },
            ),
            None => None,
        },
        _ => None,
    }
}

/// The diagnostics of a whole item list, one per invalid item, in item
/// order; empty exactly when every item is valid.
pub open spec fn diags_spec(items: Seq<SpiItem>, assertions_enabled: bool) -> Seq<DiagnosticV>
    decreases items.len(),
{
    if items.len() == 0 {
        Seq::empty()
    } else {
        let head = diags_spec(items.drop_last(), assertions_enabled);
        if item_valid(items.last(), assertions_enabled) {
            head
        } else {
            head.push(item_diag(items.last(), assertions_enabled))
        }
    }
}

/// The hoisted declarations of a whole item list, in item order.
pub open spec fn hoisted_spec(items: Seq<SpiItem>, parent: Seq<char>) -> Seq<HoistedDeclV>
    decreases items.len(),
{
    if items.len() == 0 {
        Seq::empty()
    } else {
        let head = hoisted_spec(items.drop_last(), parent);
        match item_hoisted(items.last(), parent) {
            Some(h) => head.push(h),
            None => head,
        }
    }
}

/// The contract pairs of the valid contract-assertion items of a whole item
/// list, in item order.
pub open spec fn pairs_spec(items: Seq<SpiItem>, assertions_enabled: bool) -> Seq<ContractPairV>
    decreases items.len(),
{
    if items.len() == 0 {
        Seq::empty()
    } else {
        let head = pairs_spec(items.drop_last(), assertions_enabled);
        if item_valid(items.last(), assertions_enabled) {
            match item_pair(items.last()) {
                Some(p) => head.push(p),
                None => head,
            }
        } else {
            head
        }
    }
}

/// One classification step: extending the item list by one item extends the
/// three output lists as the per-item functions say.
proof fn lemma_classify_step(items: Seq<SpiItem>, i: int, assertions_enabled: bool, parent: Seq<char>)
    requires
        0 <= i < items.len(),
    ensures
        diags_spec(items.subrange(0, i + 1), assertions_enabled) == (if item_valid(
            items[i],
            assertions_enabled,
        ) {
            diags_spec(items.subrange(0, i), assertions_enabled)
        } else {
            diags_spec(items.subrange(0, i), assertions_enabled).push(
                item_diag(items[i], assertions_enabled),
            )
        }),
        hoisted_spec(items.subrange(0, i + 1), parent) == (match item_hoisted(items[i], parent) {
            Some(h) => hoisted_spec(items.subrange(0, i), parent).push(h),
            None => hoisted_spec(items.subrange(0, i), parent),
        }),
        pairs_spec(items.subrange(0, i + 1), assertions_enabled) == (if item_valid(
            items[i],
            assertions_enabled,
        ) {
            match item_pair(items[i]) {
                Some(p) => pairs_spec(items.subrange(0, i), assertions_enabled).push(p),
                None => pairs_spec(items.subrange(0, i), assertions_enabled),
            }
        } else {
            pairs_spec(items.subrange(0, i), assertions_enabled)
        }),
{
    assert(items.subrange(0, i + 1).drop_last() =~= items.subrange(0, i));
    assert(items.subrange(0, i + 1).last() == items[i]);
}

// ---------------------------------------------------------------------------
// Hoisting, executable
// ---------------------------------------------------------------------------

/// Copies a type, fields and all.
pub fn copy_ty(t: &Ty) -> (r: Ty)
    ensures
        r@ == t@,
{
    match t {
        Ty::Path { segments } => {
            let r = Ty::Path { segments: copy_segments(segments) };
            proof {
                assert(r@ =~= t@);
            }
            r
        },
        Ty::NonPath { repr } => Ty::NonPath { repr: repr.clone() },
    }
}

/// Copies an optional rename clause.
pub fn copy_rename(o: &Option<String>) -> (r: Option<String>)
    ensures
        r == *o,
{
    match o {
        Some(s) => Some(s.clone()),
        None => None,
    }
}

/// Copies a vector of path segments; the copy holds the same segments,
/// names and generic arguments alike.
pub fn copy_segments(v: &Vec<PathSeg>) -> (r: Vec<PathSeg>)
    ensures
        r@ == v@,
        r.deep_view() == v.deep_view(),
{
    let mut r: Vec<PathSeg> = Vec::new();
    let mut k: usize = 0;
    while k < v.len()
        invariant
            k <= v.len(),
            r@ == v@.subrange(0, k as int),
        decreases v.len() - k,
    {
        r.push(PathSeg { name: v[k].name.clone(), args: v[k].args.clone() });
        proof {
            assert(r@ =~= v@.subrange(0, k as int + 1));
        }
        k += 1;
    }
    proof {
        assert(v@.subrange(0, v@.len() as int) =~= v@);
        assert(r.deep_view() =~= v.deep_view());
    }
    r
}

/// Hoists a type alias: the target must be a plain qualified-name path, and
/// gains the block's name as a new bare leading segment; the alias's own
/// attributes, visibility, name and generic parameters, and the target's
/// own segments with their generic arguments, are kept unchanged. Any other
/// target fails with `PathAliasOnly` at the alias.
pub fn hoist_type_alias(
    attrs: &String,
    vis: &String,
    name: &String,
    generics: &String,
    target: &Ty,
    pos: usize,
    parent_module: &String,
) -> (r: Result<HoistedDecl, Diagnostic>)
    ensures
        (match (r, target) {
            (Ok(h), Ty::Path { segments }) => h@ == (HoistedDeclV::TypeAlias {
                attrs: attrs@,
                vis: vis@,
                name: name@,
                generics: generics@,
                target: seq![bare_seg(parent_module@)] + segments.deep_view(),
                pos: pos as int,
            }),
            (Err(d), Ty::NonPath { .. }) => d@ == (DiagnosticV::PathAliasOnly { pos: pos as int }),
            _ => false,
        }),
{
    match target {
        Ty::Path { segments } => {
            let mut segs: Vec<PathSeg> = Vec::new();
            segs.push(PathSeg { name: parent_module.clone(), args: String::new() });
            let mut rest = copy_segments(segments);
            segs.append(&mut rest);
            let h = HoistedDecl::TypeAlias {
                attrs: attrs.clone(),
                vis: vis.clone(),
                name: name.clone(),
                generics: generics.clone(),
                target: segs,
                pos,
            };
            proof {
                assert(h@ =~= (HoistedDeclV::TypeAlias {
                    attrs: attrs@,
                    vis: vis@,
                    name: name@,
                    generics: generics@,
                    target: seq![bare_seg(parent_module@)] + segments.deep_view(),
                    pos: pos as int,
                }));
            }
            Ok(h)
        },
        Ty::NonPath { .. } => Err(Diagnostic::PathAliasOnly { pos }),
    }
}

/// Hoists a re-export: its imported path gains the block's name as a new
/// leading segment; the item's own attributes and visibility, and any
/// rename clause, are kept unchanged.
pub fn hoist_use_alias(
    attrs: &String,
    vis: &String,
    path: &Vec<String>,
    rename: &Option<String>,
    pos: usize,
    parent_module: &String,
) -> (h: HoistedDecl)
    ensures
        h@ == (HoistedDeclV::Reexport {
            attrs: attrs@,
            vis: vis@,
            path: seq![parent_module@] + path.deep_view(),
            rename: rename.deep_view(),
            pos: pos as int,
        }),
{
    let mut segs: Vec<String> = Vec::new();
    segs.push(parent_module.clone());
    let mut rest = copy_strings(path);
    segs.append(&mut rest);
    let h = HoistedDecl::Reexport {
        attrs: attrs.clone(),
        vis: vis.clone(),
        path: segs,
        rename: copy_rename(rename),
        pos,
    };
    proof {
        assert(h@ =~= (HoistedDeclV::Reexport {
            attrs: attrs@,
            vis: vis@,
            path: seq![parent_module@] + path.deep_view(),
            rename: rename.deep_view(),
            pos: pos as int,
        }));
    }
    h
}

// ---------------------------------------------------------------------------
// The classification pass
// ---------------------------------------------------------------------------

/// Visits every item of the block, never stopping at the first bad one. On
/// success — every item valid — returns the hoisted declarations and the
/// contract pairs, each in original item order; otherwise returns every
/// diagnostic of the pass together, in item order.
pub fn hoist_aliases_and_generate_impls(
    mod_aliases: &Vec<SpiItem>,
    parent_module: &String,
    assertions_enabled: bool,
) -> (r: Result<(Vec<HoistedDecl>, Vec<ContractPair>), Vec<Diagnostic>>)
    ensures
        (match r {
            Ok(hp) => {
                &&& diags_spec(mod_aliases@, assertions_enabled) == Seq::<DiagnosticV>::empty()
                &&& hp.0.deep_view() == hoisted_spec(mod_aliases@, parent_module@)
                &&& hp.1.deep_view() == pairs_spec(mod_aliases@, assertions_enabled)
            },
            Err(ds) => {
                &&& ds@.len() > 0
                &&& ds.deep_view() == diags_spec(mod_aliases@, assertions_enabled)
            },
        }),
{
    let mut invalid_items: Vec<Diagnostic> = Vec::new();
    let mut aliases: Vec<HoistedDecl> = Vec::new();
    let mut pairs: Vec<ContractPair> = Vec::new();

    let mut i: usize = 0;
    while i < mod_aliases.len()
        invariant
            i <= mod_aliases.len(),
            invalid_items.deep_view() == diags_spec(
                mod_aliases@.subrange(0, i as int),
                assertions_enabled,
            ),
            aliases.deep_view() == hoisted_spec(mod_aliases@.subrange(0, i as int), parent_module@),
            pairs.deep_view() == pairs_spec(mod_aliases@.subrange(0, i as int), assertions_enabled),
        decreases mod_aliases.len() - i,
    {
        proof {
            lemma_classify_step(mod_aliases@, i as int, assertions_enabled, parent_module@);
        }
        let item = &mod_aliases[i];
        match item {
            SpiItem::TypeAlias { attrs, vis, name, generics, target, pos } => {
                match hoist_type_alias(attrs, vis, name, generics, target, *pos, parent_module) {
                    Ok(h) => {
                        aliases.push(h);
                        proof {
                            assert(aliases.deep_view() =~= hoisted_spec(
                                mod_aliases@.subrange(0, i as int + 1),
                                parent_module@,
                            ));
                        }
                    },
                    Err(d) => {
                        invalid_items.push(d);
                        proof {
                            assert(invalid_items.deep_view() =~= diags_spec(
                                mod_aliases@.subrange(0, i as int + 1),
                                assertions_enabled,
                            ));
                        }
                    },
                }
            },
            SpiItem::Reexport { attrs, vis, path, rename, pos } => {
                let h = hoist_use_alias(attrs, vis, path, rename, *pos, parent_module);
                aliases.push(h);
                proof {
                    assert(aliases.deep_view() =~= hoisted_spec(
                        mod_aliases@.subrange(0, i as int + 1),
                        parent_module@,
                    ));
                }
            },
            SpiItem::ContractAssertion { self_ty, trait_ref, has_body, has_generics, pos } => {
                if assertions_enabled {
                    let mut well_formed = false;
                    if !*has_body && !*has_generics {
                        match trait_ref {
                            Some(tr) => {
                                if !tr.negated {
                                    well_formed = true;
                                    pairs.push(ContractPair {
                                        implementing_type: copy_ty(self_ty),
                                        interface_path: copy_segments(&tr.path),
                                    });
                                    proof {
                                        assert(pairs.deep_view() =~= pairs_spec(
                                            mod_aliases@.subrange(0, i as int + 1),
                                            assertions_enabled,
                                        ));
                                    }
                                }
                            },
                            None => {},
                        }
                    }
                    if !well_formed {
                        invalid_items.push(Diagnostic::MalformedContractAssertion { pos: *pos });
                        proof {
                            assert(invalid_items.deep_view() =~= diags_spec(
                                mod_aliases@.subrange(0, i as int + 1),
                                assertions_enabled,
                            ));
                        }
                    }
                } else {
                    invalid_items.push(Diagnostic::UnsupportedItemKind {
                        kind: String::from_str("impl"),
                        pos: *pos,
                    });
                    proof {
                        assert(invalid_items.deep_view() =~= diags_spec(
                            mod_aliases@.subrange(0, i as int + 1),
                            assertions_enabled,
                        ));
                    }
                }
            },
            SpiItem::Other { kind, pos } => {
                invalid_items.push(Diagnostic::UnsupportedItemKind {
                    kind: kind.clone(),
                    pos: *pos,
                });
                proof {
                    assert(invalid_items.deep_view() =~= diags_spec(
                        mod_aliases@.subrange(0, i as int + 1),
                        assertions_enabled,
                    ));
                }
            },
        }
        i += 1;
    }
    proof {
        assert(mod_aliases@.subrange(0, mod_aliases@.len() as int) =~= mod_aliases@);
    }
    if invalid_items.len() > 0 {
        Err(invalid_items)
    } else {
        proof {
            assert(diags_spec(mod_aliases@, assertions_enabled) =~= Seq::<DiagnosticV>::empty());
        }
        Ok((aliases, pairs))
    }
}

} // verus!
