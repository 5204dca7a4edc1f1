//! The source extractor: discovers API modules in the aggregator source unit
//! produced by the external binding generator, and the operations each API
//! module declares, preserving source order throughout.

use vstd::prelude::*;

use crate::names::ends_with_api;
use crate::syntax::{parse_decls, source_decls, parsed_file, Decl, DeclData, DeclKind, ParseError};

verus! {

/// One discovered API module: its raw identifier (still carrying the marker
/// suffix) and the raw identifiers of its operations, in discovery order.
///
/// Operation identifiers are expected to be unique within their module.
/// Emission is exact either way: two operations whose identifiers derive the
/// same Pascal name would surface as duplicate variants in the emitted enum,
/// visibly, rather than being dropped or renamed here.
pub struct ApiModule {
    pub raw: String,
    pub ops: Vec<String>,
}

/// The mathematical image of an [`ApiModule`].
pub struct ApiModuleData {
    pub raw: Seq<char>,
    pub ops: Seq<Seq<char>>,
}

impl View for ApiModule {
    type V = ApiModuleData;

    open spec fn view(&self) -> ApiModuleData {
        ApiModuleData { raw: self.raw@, ops: self.ops@.map_values(|o: String| o@) }
    }
}

/// A well-formed module: its raw identifier and every operation identifier
/// are valid snake-case identifiers, as the external generator's output has
/// them. The emitters' output is a fixed grammar exactly on such modules.
pub open spec fn wf_module(m: ApiModuleData) -> bool {
    &&& crate::names::snake_ident(m.raw)
    &&& forall|i: int| 0 <= i < m.ops.len() ==> crate::names::snake_ident(#[trigger] m.ops[i])
}

/// All modules of a run well-formed.
pub open spec fn wf_modules(ms: Seq<ApiModuleData>) -> bool {
    forall|i: int| 0 <= i < ms.len() ==> wf_module(#[trigger] ms[i])
}

impl ApiModule {
    /// Tests whether this module's identifiers are all valid snake-case
    /// identifiers.
    pub fn well_formed(&self) -> (r: bool)
        ensures
            r == wf_module(self@),
    {
        if !crate::names::is_snake_ident(self.raw.as_str()) {
            return false;
        }
        let n = self.ops.len();
        let mut i: usize = 0;
        while i < n
            invariant
                n == self.ops@.len(),
                0 <= i <= n,
                forall|k: int| 0 <= k < i ==> crate::names::snake_ident(#[trigger] self@.ops[k]),
        decreases n - i,
        {
            if !crate::names::is_snake_ident(self.ops[i].as_str()) {
                proof {
                    assert(!crate::names::snake_ident(self@.ops[i as int]));
                }
                return false;
            }
            i = i + 1;
        }
        true
    }
}

/// The identifiers of the module declarations carrying the API marker, in
/// declaration order.
pub open spec fn api_mod_names(ds: Seq<DeclData>) -> Seq<Seq<char>>
    decreases ds.len(),
{
    if ds.len() == 0 {
        Seq::empty()
    } else {
        let init = api_mod_names(ds.drop_last());
        if ds.last().kind == DeclKind::Module && ends_with_api(ds.last().name) {
            init.push(ds.last().name)
        } else {
            init
        }
    }
}

/// The identifiers of the function declarations, in declaration order.
pub open spec fn fn_decl_names(ds: Seq<DeclData>) -> Seq<Seq<char>>
    decreases ds.len(),
{
    if ds.len() == 0 {
        Seq::empty()
    } else {
        let init = fn_decl_names(ds.drop_last());
        if ds.last().kind == DeclKind::Function {
            init.push(ds.last().name)
        } else {
            init
        }
    }
}

/// The API module identifiers an aggregator source unit declares, assuming it
/// parses.
pub open spec fn agg_api_mods(s: Seq<char>) -> Seq<Seq<char>> {
    api_mod_names(source_decls(s))
}

/// The operation identifiers an API module source unit declares, assuming it
/// parses.
pub open spec fn module_ops(s: Seq<char>) -> Seq<Seq<char>> {
    fn_decl_names(source_decls(s))
}

fn collect_api_mods(decls: &Vec<Decl>) -> (r: Vec<String>)
    ensures
        r@.map_values(|x: String| x@) == api_mod_names(decls@.map_values(|d: Decl| d@)),
{
    let ghost dv = decls@.map_values(|d: Decl| d@);
    let mut out: Vec<String> = Vec::new();
    let n = decls.len();
    let mut i: usize = 0;
    proof {
        assert(dv.take(0) =~= Seq::<DeclData>::empty());
        assert(out@.map_values(|x: String| x@) =~= api_mod_names(dv.take(0)));
    }
    while i < n
        invariant
            n == decls@.len(),
            0 <= i <= n,
            dv == decls@.map_values(|d: Decl| d@),
            out@.map_values(|x: String| x@) == api_mod_names(dv.take(i as int)),
        decreases n - i,
    {
        proof {
            assert(dv.take(i as int + 1).drop_last() =~= dv.take(i as int));
            assert(dv.take(i as int + 1).last() == dv[i as int]);
        }
        let d = &decls[i];
        if d.kind == DeclKind::Module && crate::names::has_api_marker(d.name.as_str()) {
            let ghost prev = out@;
            out.push(d.name.clone());
            proof {
                assert(out@.map_values(|x: String| x@) =~= prev.map_values(|x: String| x@).push(
                    dv[i as int].name));
            }
        }
        i = i + 1;
    }
    proof {
        assert(dv.take(n as int) =~= dv);
    }
    out
}

fn collect_fn_decls(decls: &Vec<Decl>) -> (r: Vec<String>)
    ensures
        r@.map_values(|x: String| x@) == fn_decl_names(decls@.map_values(|d: Decl| d@)),
{
    let ghost dv = decls@.map_values(|d: Decl| d@);
    let mut out: Vec<String> = Vec::new();
    let n = decls.len();
    let mut i: usize = 0;
    proof {
        assert(dv.take(0) =~= Seq::<DeclData>::empty());
        assert(out@.map_values(|x: String| x@) =~= fn_decl_names(dv.take(0)));
    }
    while i < n
        invariant
            n == decls@.len(),
            0 <= i <= n,
            dv == decls@.map_values(|d: Decl| d@),
            out@.map_values(|x: String| x@) == fn_decl_names(dv.take(i as int)),
        decreases n - i,
    {
        proof {
            assert(dv.take(i as int + 1).drop_last() =~= dv.take(i as int));
            assert(dv.take(i as int + 1).last() == dv[i as int]);
        }
        let d = &decls[i];
        if d.kind == DeclKind::Function {
            let ghost prev = out@;
            out.push(d.name.clone());
            proof {
                assert(out@.map_values(|x: String| x@) =~= prev.map_values(|x: String| x@).push(
                    dv[i as int].name));
            }
        }
        i = i + 1;
    }
    proof {
        assert(dv.take(n as int) =~= dv);
    }
    out
}

/// Scans the aggregator source unit: collects every module declaration whose
/// identifier carries the API marker, in source order. A module without the
/// marker is ignored entirely. Fails with [`ParseError`] exactly when the
/// text is not valid source.
pub fn scan_aggregator(text: &str) -> (r: Result<Vec<String>, ParseError>)
    ensures
        r is Ok <==> parsed_file(text@) is Some,
        r matches Ok(v) ==> v@.map_values(|x: String| x@) == agg_api_mods(text@),
{
    match parse_decls(text) {
        Ok(decls) => Ok(collect_api_mods(&decls)),
        Err(e) => Err(e),
    }
}

/// Scans one API module source unit: collects every top-level function
/// declaration, in source order. Fails with [`ParseError`] exactly when the
/// text is not valid source.
pub fn scan_api_module(text: &str) -> (r: Result<Vec<String>, ParseError>)
    ensures
        r is Ok <==> parsed_file(text@) is Some,
        r matches Ok(v) ==> v@.map_values(|x: String| x@) == module_ops(text@),
{
    match parse_decls(text) {
        Ok(decls) => Ok(collect_fn_decls(&decls)),
        Err(e) => Err(e),
    }
}

/// Pairs each discovered module identifier with the operations scanned from
/// its own source unit. The two sequences correspond index-wise; extraction
/// stops at the first module text that does not parse.
pub fn build_modules(names: &Vec<String>, texts: &Vec<String>) -> (r: Result<
    Vec<ApiModule>,
    ParseError,
>)
    requires
        names@.len() == texts@.len(),
    ensures
        r is Ok <==> (forall|i: int|
            0 <= i < texts@.len() ==> parsed_file(#[trigger] texts@[i]@) is Some),
        r matches Ok(v) ==> {
            &&& v@.len() == names@.len()
            &&& forall|i: int|
                0 <= i < v@.len() ==> (#[trigger] v@[i]@).raw == names@[i]@ && v@[i]@.ops
                    == module_ops(texts@[i]@)
        },
{
    let mut out: Vec<ApiModule> = Vec::new();
    let n = names.len();
    let mut i: usize = 0;
    while i < n
        invariant
            n == names@.len(),
            names@.len() == texts@.len(),
            0 <= i <= n,
            out@.len() == i,
            forall|j: int| 0 <= j < i ==> parsed_file(#[trigger] texts@[j]@) is Some,
            forall|j: int|
                0 <= j < i ==> (#[trigger] out@[j]@).raw == names@[j]@ && out@[j]@.ops
                    == module_ops(texts@[j]@),
        decreases n - i,
    {
        match scan_api_module(texts[i].as_str()) {
            Ok(ops) => {
                let m = ApiModule { raw: names[i].clone(), ops };
                proof {
                    assert(m@.ops =~= module_ops(texts@[i as int]@));
                }
                out.push(m);
            },
            Err(e) => {
                return Err(e);
            },
        }
        i = i + 1;
    }
    Ok(out)
}

} // verus!
