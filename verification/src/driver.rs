//! The generator driver: runs emission and formatting for every discovered
//! API module and for the aggregator, yielding the files to write. Per-API
//! files come before the aggregator file, so a failure part-way leaves no
//! aggregator referencing missing modules. The caller performs the actual
//! file writes.

use vstd::prelude::*;

use crate::emit::{emit_api_unit, emit_main_unit, emit_root_unit, spec_emit_api, spec_main_unit,
    spec_emit_root};
use crate::extract::{ApiModule, ApiModuleData};
use crate::names::base_name_of;
use crate::syntax::{fmt_of, format_ok, format_source, parsed_file, FormatError};

verus! {

/// One file the generator wants written: a path relative to the scaffolded
/// project's root, and the formatted source text to store there.
pub struct GenFile {
    pub path: String,
    pub content: String,
}

/// The mathematical image of a [`GenFile`].
pub struct GenFileData {
    pub path: Seq<char>,
    pub content: Seq<char>,
}

impl View for GenFile {
    type V = GenFileData;

    open spec fn view(&self) -> GenFileData {
        GenFileData { path: self.path@, content: self.content@ }
    }
}

/// The output path of one API module's source unit, keyed by its base name.
pub open spec fn api_file_path(m: ApiModuleData) -> Seq<char> {
    "src/cli/"@ + base_name_of(m.raw) + ".rs"@
}

/// The output path of the aggregator source unit.
pub open spec fn root_file_path() -> Seq<char> {
    "src/cli/mod.rs"@
}

/// Whether a full generation run succeeds: every per-API unit and the
/// aggregator unit format cleanly.
pub open spec fn gen_ok(ms: Seq<ApiModuleData>) -> bool {
    &&& forall|i: int| 0 <= i < ms.len() ==> format_ok(spec_emit_api(#[trigger] ms[i]))
    &&& format_ok(spec_emit_root(ms))
}

/// The files a successful generation run produces: one formatted per-API
/// unit per module, in discovery order, followed by the formatted aggregator
/// unit.
pub open spec fn spec_outputs(ms: Seq<ApiModuleData>) -> Seq<GenFileData> {
    ms.map_values(
        |m: ApiModuleData| GenFileData { path: api_file_path(m), content: fmt_of(spec_emit_api(m)) },
    ).push(GenFileData { path: root_file_path(), content: fmt_of(spec_emit_root(ms)) })
}

fn api_path(m: &ApiModule) -> (r: String)
    ensures
        r@ == api_file_path(m@),
{
    let base = crate::names::base_name(m.raw.as_str());
    let mut out = String::new();
    out.append("src/cli/");
    out.append(base.as_str());
    out.append(".rs");
    proof {
        assert(out@ =~= api_file_path(m@));
    }
    out
}

/// Runs emission and formatting for every discovered module and for the
/// aggregator. Returns the files to write, per-API files first, then the
/// aggregator; stops at the first unit that fails to format, which signals a
/// generation defect, never user error. The modules' identifiers must be
/// valid snake-case identifiers, as the extractor discovers them; callers
/// holding unchecked data test them with [`ApiModule::well_formed`].
pub fn generate(mods: &Vec<ApiModule>) -> (r: Result<Vec<GenFile>, FormatError>)
    requires
        crate::extract::wf_modules(mods@.map_values(|m: ApiModule| m@)),
    ensures
        r is Ok <==> gen_ok(mods@.map_values(|m: ApiModule| m@)),
        r matches Ok(v) ==> v@.map_values(|g: GenFile| g@) == spec_outputs(
            mods@.map_values(|m: ApiModule| m@),
        ),
{
    let ghost mv = mods@.map_values(|m: ApiModule| m@);
    let mut out: Vec<GenFile> = Vec::new();
    let n = mods.len();
    let mut i: usize = 0;
    while i < n
        invariant
            n == mods@.len(),
            mv == mods@.map_values(|m: ApiModule| m@),
            crate::extract::wf_modules(mv),
            0 <= i <= n,
            out@.len() == i,
            forall|j: int| 0 <= j < i ==> format_ok(spec_emit_api(#[trigger] mv[j])),
            forall|j: int|
                0 <= j < i ==> (#[trigger] out@[j]@).path == api_file_path(mv[j]) && out@[j]@.content
                    == fmt_of(spec_emit_api(mv[j])),
        decreases n - i,
    {
        let unit = emit_api_unit(&mods[i]);
        proof {
            assert(crate::extract::wf_module(mv[i as int]));
            assert(unit@ == spec_emit_api(mv[i as int]));
            assert(crate::syntax::emitted_unit(unit@));
        }
        match format_source(unit.as_str()) {
            Ok(content) => {
                let path = api_path(&mods[i]);
                out.push(GenFile { path, content });
            },
            Err(e) => {
                proof {
                    assert(!format_ok(spec_emit_api(mv[i as int])));
                    assert(!gen_ok(mv));
                }
                return Err(e);
            },
        }
        i = i + 1;
    }
    let root_unit = emit_root_unit(mods);
    proof {
        assert(root_unit@ == spec_emit_root(mv));
        assert(crate::syntax::emitted_unit(root_unit@));
    }
    match format_source(root_unit.as_str()) {
        Ok(content) => {
            let mut path = String::new();
            path.append("src/cli/mod.rs");
            out.push(GenFile { path, content });
            proof {
                assert(Seq::<char>::empty() + "src/cli/mod.rs"@ =~= root_file_path());
                assert(out@.map_values(|g: GenFile| g@) =~= spec_outputs(mv));
            }
            Ok(out)
        },
        Err(e) => Err(e),
    }
}

/// Emits and formats the generated program's entry-point source unit.
pub fn main_unit() -> (r: Result<String, FormatError>)
    ensures
        r is Ok <==> format_ok(spec_main_unit()),
        r matches Ok(out) ==> out@ == fmt_of(spec_main_unit()),
        r matches Ok(out) ==> parsed_file(out@) is Some,
{
    let unit = emit_main_unit();
    proof {
        assert(crate::syntax::emitted_unit(unit@));
    }
    format_source(unit.as_str())
}

/// Idempotence: generation is a function of the discovered modules alone, so
/// two runs over the same input produce identical files, byte for byte.
pub proof fn lemma_generate_idempotent(
    ms: Seq<ApiModuleData>,
    r1: Seq<GenFileData>,
    r2: Seq<GenFileData>,
)
    requires
        r1 == spec_outputs(ms),
        r2 == spec_outputs(ms),
    ensures
        r1 == r2,
{
}

/// Round-trip well-formedness: every file a successful generation run
/// produces re-parses as valid source, with no errors.
pub proof fn lemma_outputs_reparse(ms: Seq<ApiModuleData>, files: Seq<GenFileData>)
    requires
        gen_ok(ms),
        files == spec_outputs(ms),
    ensures
        forall|i: int| 0 <= i < files.len() ==> parsed_file(#[trigger] files[i].content) is Some,
{
    assert forall|i: int| 0 <= i < files.len() implies parsed_file(
        #[trigger] files[i].content,
    ) is Some by {
        if i < ms.len() {
            assert(format_ok(spec_emit_api(ms[i])));
            assert(files[i].content == fmt_of(spec_emit_api(ms[i])));
        } else {
            assert(files[i].content == fmt_of(spec_emit_root(ms)));
        }
    }
}

} // verus!
