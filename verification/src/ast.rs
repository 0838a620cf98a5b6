//! The data model of the generator: configuration entries, the declarative
//! module block with its items, the rewritten (hoisted) declarations, the
//! contract pairs, the diagnostics and the generated output. Each executable
//! type has a mathematical model stated as a ghost type, reached through
//! `View`/`DeepView`, and the contracts of the passes speak of those models.

use vstd::prelude::*;

verus! {

// ---------------------------------------------------------------------------
// Configuration
// ---------------------------------------------------------------------------

/// A parsed configuration: the declared target platforms, in the order
/// written, and the directory that holds the per-platform source files
/// (`"."` when not given).
#[derive(Debug, PartialEq, Eq, Clone)]
pub struct Config {
    pub targets: Vec<String>,
    pub module_dir: String,
}

/// The mathematical value of a `Config`.
#[verifier::ext_equal]
pub ghost struct ConfigV {
    pub targets: Seq<Seq<char>>,
    pub module_dir: Seq<char>,
}

impl View for Config {
    type V = ConfigV;

    open spec fn view(&self) -> ConfigV {
        ConfigV { targets: self.targets.deep_view(), module_dir: self.module_dir@ }
    }
}

impl ConfigV {
    /// Well-formedness of a configuration: the targets are pairwise distinct.
    pub open spec fn wf(self) -> bool {
        forall|i: int, j: int|
            0 <= i < j < self.targets.len() ==> self.targets[i] != self.targets[j]
    }
}

// ---------------------------------------------------------------------------
// Raw configuration entries
// ---------------------------------------------------------------------------

/// The value of one `key = value` configuration entry: either a bracketed,
/// comma-separated list of bare identifiers, or a string literal.
#[derive(Debug, PartialEq, Eq, Clone)]
pub enum AttrValue {
    Idents(Vec<String>),
    Text(String),
}

/// One `key = value` configuration entry, with the position of its key for
/// diagnostics. Positions are indices into a side table of source locations
/// kept by the caller; the generator only carries them through.
#[derive(Debug, PartialEq, Eq, Clone)]
pub struct AttrEntry {
    pub key: String,
    pub value: AttrValue,
    pub pos: usize,
}

// ---------------------------------------------------------------------------
// The declarative module block and its items
// ---------------------------------------------------------------------------

/// One segment of a qualified-name path: its identifier, and the printed
/// generic arguments that follow it, carried opaquely and unchanged (empty
/// when the segment has none).
#[derive(Debug, PartialEq, Eq, Clone)]
pub struct PathSeg {
    pub name: String,
    pub args: String,
}

/// The mathematical value of a `PathSeg`.
#[verifier::ext_equal]
pub ghost struct PathSegV {
    pub name: Seq<char>,
    pub args: Seq<char>,
}

impl View for PathSeg {
    type V = PathSegV;

    open spec fn view(&self) -> PathSegV {
        PathSegV { name: self.name@, args: self.args@ }
    }
}

impl DeepView for PathSeg {
    type V = PathSegV;

    open spec fn deep_view(&self) -> PathSegV {
        self.view()
    }
}

/// A path segment consisting of a bare name, without generic arguments — the
/// shape of the block-name segment that hoisting inserts.
pub open spec fn bare_seg(name: Seq<char>) -> PathSegV {
    PathSegV { name, args: Seq::empty() }
}

/// The target of a type alias: either a plain qualified-name path, given as
/// its segments, or any other (compound) type — a tuple, array, reference or
/// qualified-self path — carried as its printed text for diagnostics and for
/// the contract pairs.
#[derive(Debug, PartialEq, Eq, Clone)]
pub enum Ty {
    Path { segments: Vec<PathSeg> },
    NonPath { repr: String },
}

/// The mathematical value of a `Ty`.
#[verifier::ext_equal]
pub ghost enum TyV {
    Path { segments: Seq<PathSegV> },
    NonPath { repr: Seq<char> },
}

impl View for Ty {
    type V = TyV;

    open spec fn view(&self) -> TyV {
        match self {
            Ty::Path { segments } => TyV::Path { segments: segments.deep_view() },
            Ty::NonPath { repr } => TyV::NonPath { repr: repr@ },
        }
    }
}

impl DeepView for Ty {
    type V = TyV;

    open spec fn deep_view(&self) -> TyV {
        self.view()
    }
}

/// The interface reference of a contract-assertion item: the interface path
/// and whether the reference is negated.
#[derive(Debug, PartialEq, Eq, Clone)]
pub struct TraitRef {
    pub negated: bool,
    pub path: Vec<PathSeg>,
}

/// One item of the declarative module block, as written by the user.
/// Every variant carries the position of the item for diagnostics. Aliases
/// and re-exports also carry their own printed attributes and visibility,
/// and an alias its own printed generic parameters, all opaque to the
/// rewrite and preserved unchanged by hoisting.
#[derive(Debug, PartialEq, Eq, Clone)]
pub enum SpiItem {
    /// `type Name<Generics> = Target;`
    TypeAlias {
        attrs: String,
        vis: String,
        name: String,
        generics: String,
        target: Ty,
        pos: usize,
    },
    /// `use Path [as Rename];`
    Reexport {
        attrs: String,
        vis: String,
        path: Vec<String>,
        rename: Option<String>,
        pos: usize,
    },
    /// `impl Interface for Type { ... }`, possibly malformed: a body,
    /// generic or where-clause qualification, a negated interface, or no
    /// interface at all (an inherent block).
    ContractAssertion {
        self_ty: Ty,
        trait_ref: Option<TraitRef>,
        has_body: bool,
        has_generics: bool,
        pos: usize,
    },
    /// Any other item kind, named for the diagnostic.
    Other { kind: String, pos: usize },
}

/// The user-authored declarative module block. `items` is `None` when the
/// block is a reference to an external file (`mod name;`) rather than an
/// inline block, which the validator rejects. `pos` is the position of the
/// block's name.
#[derive(Debug, PartialEq, Eq, Clone)]
pub struct ModuleBlock {
    pub name: String,
    pub vis: String,
    pub items: Option<Vec<SpiItem>>,
    pub pos: usize,
}

impl ModuleBlock {
    /// The block's item list; meaningful only when the block is inline.
    pub open spec fn spec_items(&self) -> Seq<SpiItem> {
        match self.items {
            Some(v) => v@,
            None => Seq::empty(),
        }
    }

    /// Whether the block is an inline block rather than an external reference.
    pub open spec fn is_inline(&self) -> bool {
        self.items is Some
    }
}

// ---------------------------------------------------------------------------
// Outputs of the classification pass
// ---------------------------------------------------------------------------

/// A forwarding declaration hoisted into the enclosing scope: the original
/// alias or re-export — its own attributes, visibility, name, generic
/// parameters and rename clause unchanged — with its path now qualified
/// through the per-platform module.
#[derive(Debug, PartialEq, Eq, Clone)]
pub enum HoistedDecl {
    TypeAlias {
        attrs: String,
        vis: String,
        name: String,
        generics: String,
        target: Vec<PathSeg>,
        pos: usize,
    },
    Reexport {
        attrs: String,
        vis: String,
        path: Vec<String>,
        rename: Option<String>,
        pos: usize,
    },
}

/// The mathematical value of a `HoistedDecl`.
#[verifier::ext_equal]
pub ghost enum HoistedDeclV {
    TypeAlias {
        attrs: Seq<char>,
        vis: Seq<char>,
        name: Seq<char>,
        generics: Seq<char>,
        target: Seq<PathSegV>,
        pos: int,
    },
    Reexport {
        attrs: Seq<char>,
        vis: Seq<char>,
        path: Seq<Seq<char>>,
        rename: Option<Seq<char>>,
        pos: int,
    },
}

impl View for HoistedDecl {
    type V = HoistedDeclV;

    open spec fn view(&self) -> HoistedDeclV {
        match self {
            HoistedDecl::TypeAlias { attrs, vis, name, generics, target, pos } => (HoistedDeclV::TypeAlias {
                attrs: attrs@,
                vis: vis@,
                name: name@,
                generics: generics@,
                target: target.deep_view(),
                pos: *pos as int,
            }),
            HoistedDecl::Reexport { attrs, vis, path, rename, pos } => (HoistedDeclV::Reexport {
                attrs: attrs@,
                vis: vis@,
                path: path.deep_view(),
                rename: rename.deep_view(),
                pos: *pos as int,
            }),
        }
    }
}

impl DeepView for HoistedDecl {
    type V = HoistedDeclV;

    open spec fn deep_view(&self) -> HoistedDeclV {
        self.view()
    }
}

/// One recorded capability contract: the implementing type, exactly as
/// written (never prefixed with the block name), and the interface path it
/// must provide.
#[derive(Debug, PartialEq, Eq, Clone)]
pub struct ContractPair {
    pub implementing_type: Ty,
    pub interface_path: Vec<PathSeg>,
}

/// The mathematical value of a `ContractPair`.
#[verifier::ext_equal]
pub ghost struct ContractPairV {
    pub implementing_type: TyV,
    pub interface_path: Seq<PathSegV>,
}

impl View for ContractPair {
    type V = ContractPairV;

    open spec fn view(&self) -> ContractPairV {
        ContractPairV {
            implementing_type: self.implementing_type@,
            interface_path: self.interface_path.deep_view(),
        }
    }
}

impl DeepView for ContractPair {
    type V = ContractPairV;

    open spec fn deep_view(&self) -> ContractPairV {
        self.view()
    }
}

// ---------------------------------------------------------------------------
// Diagnostics
// ---------------------------------------------------------------------------

/// A compile-time diagnostic of the generator, each positioned at the
/// configuration key, block name or item it comes from.
#[derive(Debug, PartialEq, Eq, Clone)]
pub enum Diagnostic {
    /// An unknown configuration key.
    UnexpectedAttributeKey { key: String, pos: usize },
    /// The declarative block is not inline.
    ExternalModuleNotSupported { pos: usize },
    /// A type alias targets a non-path type.
    PathAliasOnly { pos: usize },
    /// A contract-assertion item has a body, generic or where-clause
    /// qualification, or a negated or missing interface reference.
    MalformedContractAssertion { pos: usize },
    /// An item is none of the recognized kinds.
    UnsupportedItemKind { kind: String, pos: usize },
}

/// The mathematical value of a `Diagnostic`.
#[verifier::ext_equal]
pub ghost enum DiagnosticV {
    UnexpectedAttributeKey { key: Seq<char>, pos: int },
    ExternalModuleNotSupported { pos: int },
    PathAliasOnly { pos: int },
    MalformedContractAssertion { pos: int },
    UnsupportedItemKind { kind: Seq<char>, pos: int },
}

impl View for Diagnostic {
    type V = DiagnosticV;

    open spec fn view(&self) -> DiagnosticV {
        match self {
            Diagnostic::UnexpectedAttributeKey { key, pos } => (DiagnosticV::UnexpectedAttributeKey {
                key: key@,
                pos: *pos as int,
            }),
            Diagnostic::ExternalModuleNotSupported { pos } => (DiagnosticV::ExternalModuleNotSupported {
                pos: *pos as int,
            }),
            Diagnostic::PathAliasOnly { pos } => (DiagnosticV::PathAliasOnly { pos: *pos as int }),
            Diagnostic::MalformedContractAssertion { pos } => (DiagnosticV::MalformedContractAssertion {
                pos: *pos as int,
            }),
            Diagnostic::UnsupportedItemKind { kind, pos } => (DiagnosticV::UnsupportedItemKind {
                kind: kind@,
                pos: *pos as int,
            }),
        }
    }
}

impl DeepView for Diagnostic {
    type V = DiagnosticV;

    open spec fn deep_view(&self) -> DiagnosticV {
        self.view()
    }
}

// ---------------------------------------------------------------------------
// Generated output
// ---------------------------------------------------------------------------

/// One conditional inclusion of the per-platform module: active exactly when
/// the build's platform is `target_os`, sourced from `source_path`.
#[derive(Debug, PartialEq, Eq, Clone)]
pub struct PlatformRef {
    pub target_os: String,
    pub source_path: String,
}

/// The mathematical value of a `PlatformRef`.
#[verifier::ext_equal]
pub ghost struct PlatformRefV {
    pub target_os: Seq<char>,
    pub source_path: Seq<char>,
}

impl View for PlatformRef {
    type V = PlatformRefV;

    open spec fn view(&self) -> PlatformRefV {
        PlatformRefV { target_os: self.target_os@, source_path: self.source_path@ }
    }
}

impl DeepView for PlatformRef {
    type V = PlatformRefV;

    open spec fn deep_view(&self) -> PlatformRefV {
        self.view()
    }
}

/// The assembled result of one successful generation: the platform-specific
/// conditional inclusions in target order, the fallback inclusion (active
/// exactly when no platform inclusion is), the hoisted declarations in
/// original order, and the contract assertions in original order. All
/// inclusions declare one module named `module_name` with the block's own
/// visibility.
#[derive(Debug, PartialEq, Eq, Clone)]
pub struct GeneratedOutput {
    pub module_name: String,
    pub module_vis: String,
    pub platform_refs: Vec<PlatformRef>,
    pub fallback_path: String,
    pub hoisted: Vec<HoistedDecl>,
    pub assertions: Vec<ContractPair>,
}

} // verus!
