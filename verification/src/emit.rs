//! The code emitter: constructs the per-API subcommand source unit and the
//! aggregator source unit as plain text. Emission is pure: the emitted text
//! is a function of the discovered modules and operations alone, variant
//! order always matching discovery order.

use vstd::prelude::*;

use crate::extract::{ApiModule, ApiModuleData};
use crate::names::{base_name, base_name_of, pascal_of, to_pascal};

verus! {

/// The enum identifier derived for an API module: its Pascal base name with
/// the `Api` suffix.
pub open spec fn enum_name_of(raw: Seq<char>) -> Seq<char> {
    pascal_of(base_name_of(raw)) + "Api"@
}

/// The Pascal-case variant identifiers derived from the operations, in
/// discovery order.
pub open spec fn op_pascals(ops: Seq<Seq<char>>) -> Seq<Seq<char>> {
    ops.map_values(|o: Seq<char>| pascal_of(o))
}

/// The Pascal-case variant identifiers of the top-level command enum, one per
/// API module, in discovery order.
pub open spec fn root_variant_names(ms: Seq<ApiModuleData>) -> Seq<Seq<char>> {
    ms.map_values(|m: ApiModuleData| pascal_of(base_name_of(m.raw)))
}

/// Derives the enum identifier of an API module.
pub fn enum_name(raw: &str) -> (r: String)
    ensures
        r@ == enum_name_of(raw@),
{
    let base = base_name(raw);
    let p = to_pascal(base.as_str());
    p.concat("Api")
}

fn pascal_all(ops: &Vec<String>) -> (r: Vec<String>)
    ensures
        r@.map_values(|x: String| x@) == op_pascals(ops@.map_values(|x: String| x@)),
{
    let ghost ov = ops@.map_values(|x: String| x@);
    let mut out: Vec<String> = Vec::new();
    let n = ops.len();
    let mut i: usize = 0;
    while i < n
        invariant
            n == ops@.len(),
            0 <= i <= n,
            ov == ops@.map_values(|x: String| x@),
            out@.len() == i,
            forall|j: int| 0 <= j < i ==> (#[trigger] out@[j])@ == pascal_of(ov[j]),
        decreases n - i,
    {
        let p = to_pascal(ops[i].as_str());
        out.push(p);
        i = i + 1;
    }
    proof {
        assert(out@.map_values(|x: String| x@) =~= op_pascals(ov));
    }
    out
}

/// The import block of a per-API source unit.
pub open spec fn api_use_block() -> Seq<char> {
    "use std::error::Error;\nuse clap::{Parser, Subcommand};\nuse enum_dispatch::enum_dispatch;\nuse serde::{Deserialize, Serialize};\nuse crate::Cli;\nuse crate::cli::CliCommand;\n"@
}

/// One enum variant line per derived identifier, in order.
pub open spec fn variant_lines(vs: Seq<Seq<char>>) -> Seq<char>
    decreases vs.len(),
{
    if vs.len() == 0 {
        Seq::empty()
    } else {
        variant_lines(vs.drop_last()) + "    "@ + vs.last() + ",\n"@
    }
}

/// The stub type and dispatch implementation emitted for one operation. The
/// stub's body is an explicit "not yet implemented" placeholder — it returns
/// that error when run, rather than aborting — because the generator
/// produces structure, not behavior.
pub open spec fn stub_block(v: Seq<char>) -> Seq<char> {
    "#[derive(Parser, Debug, Deserialize, Serialize)]\npub struct "@ + v
        + ";\nimpl CliCommand for "@ + v
        + " {\n    async fn exec(&self, _cli: Cli) -> Result<(), Box<dyn Error>> {\n        Err(\"not yet implemented\".into())\n    }\n}\n"@
}

/// The stub blocks of all operations, in order.
pub open spec fn stub_blocks(vs: Seq<Seq<char>>) -> Seq<char>
    decreases vs.len(),
{
    if vs.len() == 0 {
        Seq::empty()
    } else {
        stub_blocks(vs.drop_last()) + stub_block(vs.last())
    }
}

/// The complete per-API source unit: imports, the subcommand enum with one
/// variant per operation in discovery order, and one stub block per
/// operation.
pub open spec fn spec_emit_api(m: ApiModuleData) -> Seq<char> {
    api_use_block()
        + "#[enum_dispatch(CliCommand)]\n#[derive(Subcommand, Debug, Deserialize, Serialize)]\npub enum "@
        + enum_name_of(m.raw) + " {\n"@ + variant_lines(op_pascals(m.ops)) + "}\n"@
        + stub_blocks(op_pascals(m.ops))
}

fn append_variant_lines(out: &mut String, vs: &Vec<String>)
    ensures
        final(out)@ == old(out)@ + variant_lines(vs@.map_values(|x: String| x@)),
{
    let ghost vv = vs@.map_values(|x: String| x@);
    let n = vs.len();
    let mut i: usize = 0;
    proof {
        assert(vv.take(0) =~= Seq::<Seq<char>>::empty());
        assert(old(out)@ + variant_lines(vv.take(0)) =~= old(out)@);
    }
    while i < n
        invariant
            n == vs@.len(),
            vv == vs@.map_values(|x: String| x@),
            0 <= i <= n,
            out@ == old(out)@ + variant_lines(vv.take(i as int)),
        decreases n - i,
    {
        proof {
            assert(vv.take(i as int + 1).drop_last() =~= vv.take(i as int));
            assert(vv.take(i as int + 1).last() == vv[i as int]);
        }
        out.append("    ");
        out.append(vs[i].as_str());
        out.append(",\n");
        proof {
            assert(out@ =~= old(out)@ + variant_lines(vv.take(i as int + 1)));
        }
        i = i + 1;
    }
    proof {
        assert(vv.take(n as int) =~= vv);
    }
}

fn append_stub_blocks(out: &mut String, vs: &Vec<String>)
    ensures
        final(out)@ == old(out)@ + stub_blocks(vs@.map_values(|x: String| x@)),
{
    let ghost vv = vs@.map_values(|x: String| x@);
    let n = vs.len();
    let mut i: usize = 0;
    proof {
        assert(vv.take(0) =~= Seq::<Seq<char>>::empty());
        assert(old(out)@ + stub_blocks(vv.take(0)) =~= old(out)@);
    }
    while i < n
        invariant
            n == vs@.len(),
            vv == vs@.map_values(|x: String| x@),
            0 <= i <= n,
            out@ == old(out)@ + stub_blocks(vv.take(i as int)),
        decreases n - i,
    {
        proof {
            assert(vv.take(i as int + 1).drop_last() =~= vv.take(i as int));
            assert(vv.take(i as int + 1).last() == vv[i as int]);
        }
        out.append("#[derive(Parser, Debug, Deserialize, Serialize)]\npub struct ");
        out.append(vs[i].as_str());
        out.append(";\nimpl CliCommand for ");
        out.append(vs[i].as_str());
        out.append(
            " {\n    async fn exec(&self, _cli: Cli) -> Result<(), Box<dyn Error>> {\n        Err(\"not yet implemented\".into())\n    }\n}\n",
        );
        proof {
            assert(out@ =~= old(out)@ + stub_blocks(vv.take(i as int + 1)));
        }
        i = i + 1;
    }
    proof {
        assert(vv.take(n as int) =~= vv);
    }
}

/// Emits the per-API source unit for one discovered module.
pub fn emit_api_unit(m: &ApiModule) -> (r: String)
    ensures
        r@ == spec_emit_api(m@),
{
    let pascals = pascal_all(&m.ops);
    let ename = enum_name(m.raw.as_str());
    let mut out = String::new();
    out.append(
        "use std::error::Error;\nuse clap::{Parser, Subcommand};\nuse enum_dispatch::enum_dispatch;\nuse serde::{Deserialize, Serialize};\nuse crate::Cli;\nuse crate::cli::CliCommand;\n",
    );
    out.append(
        "#[enum_dispatch(CliCommand)]\n#[derive(Subcommand, Debug, Deserialize, Serialize)]\npub enum ",
    );
    out.append(ename.as_str());
    out.append(" {\n");
    append_variant_lines(&mut out, &pascals);
    out.append("}\n");
    append_stub_blocks(&mut out, &pascals);
    proof {
        assert(out@ =~= spec_emit_api(m@));
    }
    out
}

/// The import block of the aggregator source unit.
pub open spec fn root_use_block() -> Seq<char> {
    "use std::error::Error;\nuse clap::{Parser, Subcommand};\nuse enum_dispatch::enum_dispatch;\nuse serde::{Deserialize, Serialize};\nuse openapi;\nuse crate::Cli;\n"@
}

/// The trailing members of one module's import list: a comma-separated entry
/// per operation stub type.
pub open spec fn op_use_list(vs: Seq<Seq<char>>) -> Seq<char>
    decreases vs.len(),
{
    if vs.len() == 0 {
        Seq::empty()
    } else {
        op_use_list(vs.drop_last()) + ", "@ + vs.last()
    }
}

/// The import line of one API module: its enum and every operation stub type.
pub open spec fn use_line(m: ApiModuleData) -> Seq<char> {
    "use crate::cli::"@ + base_name_of(m.raw) + "::{"@ + enum_name_of(m.raw) + op_use_list(
        op_pascals(m.ops),
    ) + "};\n"@
}

/// The import lines of all modules, in discovery order.
pub open spec fn use_lines(ms: Seq<ApiModuleData>) -> Seq<char>
    decreases ms.len(),
{
    if ms.len() == 0 {
        Seq::empty()
    } else {
        use_lines(ms.drop_last()) + use_line(ms.last())
    }
}

/// The sub-module declaration of one API module.
pub open spec fn mod_line(m: ApiModuleData) -> Seq<char> {
    "pub mod "@ + base_name_of(m.raw) + ";\n"@
}

/// The sub-module declarations of all modules, in discovery order.
pub open spec fn mod_lines(ms: Seq<ApiModuleData>) -> Seq<char>
    decreases ms.len(),
{
    if ms.len() == 0 {
        Seq::empty()
    } else {
        mod_lines(ms.drop_last()) + mod_line(ms.last())
    }
}

/// The shared dispatch capability declaration every operation stub satisfies.
pub open spec fn trait_block() -> Seq<char> {
    "#[enum_dispatch]\npub trait CliCommand {\n    async fn exec(&self, _cli: Cli) -> Result<(), Box<dyn Error>>;\n}\n"@
}

/// The head of the top-level command enum.
pub open spec fn commands_head() -> Seq<char> {
    "#[derive(Parser, Debug, Deserialize, Serialize)]\npub enum Commands {\n"@
}

/// The top-level variant of one API module, wrapping that module's
/// subcommand enum as a nested command group.
pub open spec fn root_variant_line(m: ApiModuleData) -> Seq<char> {
    "    #[command(subcommand)]\n    "@ + pascal_of(base_name_of(m.raw)) + "("@ + enum_name_of(
        m.raw,
    ) + "),\n"@
}

/// The top-level variant lines of all modules, in discovery order.
pub open spec fn root_variant_lines(ms: Seq<ApiModuleData>) -> Seq<char>
    decreases ms.len(),
{
    if ms.len() == 0 {
        Seq::empty()
    } else {
        root_variant_lines(ms.drop_last()) + root_variant_line(ms.last())
    }
}

/// The complete aggregator source unit: imports, one import line and one
/// sub-module declaration per API module, the dispatch capability, and the
/// top-level command enum with one variant per API module in discovery order.
pub open spec fn spec_emit_root(ms: Seq<ApiModuleData>) -> Seq<char> {
    root_use_block() + use_lines(ms) + mod_lines(ms) + trait_block() + commands_head()
        + root_variant_lines(ms) + "}\n"@
}

fn append_use_lines(out: &mut String, mods: &Vec<ApiModule>)
    ensures
        final(out)@ == old(out)@ + use_lines(mods@.map_values(|m: ApiModule| m@)),
{
    let ghost mv = mods@.map_values(|m: ApiModule| m@);
    let n = mods.len();
    let mut i: usize = 0;
    proof {
        assert(mv.take(0) =~= Seq::<ApiModuleData>::empty());
        assert(old(out)@ + use_lines(mv.take(0)) =~= old(out)@);
    }
    while i < n
        invariant
            n == mods@.len(),
            mv == mods@.map_values(|m: ApiModule| m@),
            0 <= i <= n,
            out@ == old(out)@ + use_lines(mv.take(i as int)),
        decreases n - i,
    {
        proof {
            assert(mv.take(i as int + 1).drop_last() =~= mv.take(i as int));
            assert(mv.take(i as int + 1).last() == mv[i as int]);
        }
        let m = &mods[i];
        let base = base_name(m.raw.as_str());
        let ename = enum_name(m.raw.as_str());
        let pascals = pascal_all(&m.ops);
        out.append("use crate::cli::");
        out.append(base.as_str());
        out.append("::{");
        out.append(ename.as_str());
        let ghost vv = op_pascals(mv[i as int].ops);
        let k = pascals.len();
        let mut j: usize = 0;
        let ghost mid = out@;
        proof {
            assert(vv.take(0) =~= Seq::<Seq<char>>::empty());
            assert(mid + op_use_list(vv.take(0)) =~= mid);
        }
        while j < k
            invariant
                k == pascals@.len(),
                pascals@.map_values(|x: String| x@) == vv,
                0 <= j <= k,
                out@ == mid + op_use_list(vv.take(j as int)),
            decreases k - j,
        {
            proof {
                assert(vv.take(j as int + 1).drop_last() =~= vv.take(j as int));
                assert(vv.take(j as int + 1).last() == vv[j as int]);
            }
            out.append(", ");
            out.append(pascals[j].as_str());
            proof {
                assert(out@ =~= mid + op_use_list(vv.take(j as int + 1)));
            }
            j = j + 1;
        }
        out.append("};\n");
        proof {
            assert(vv.take(k as int) =~= vv);
            assert(out@ =~= old(out)@ + use_lines(mv.take(i as int + 1)));
        }
        i = i + 1;
    }
    proof {
        assert(mv.take(n as int) =~= mv);
    }
}

fn append_mod_lines(out: &mut String, mods: &Vec<ApiModule>)
    ensures
        final(out)@ == old(out)@ + mod_lines(mods@.map_values(|m: ApiModule| m@)),
{
    let ghost mv = mods@.map_values(|m: ApiModule| m@);
    let n = mods.len();
    let mut i: usize = 0;
    proof {
        assert(mv.take(0) =~= Seq::<ApiModuleData>::empty());
        assert(old(out)@ + mod_lines(mv.take(0)) =~= old(out)@);
    }
    while i < n
        invariant
            n == mods@.len(),
            mv == mods@.map_values(|m: ApiModule| m@),
            0 <= i <= n,
            out@ == old(out)@ + mod_lines(mv.take(i as int)),
        decreases n - i,
    {
        proof {
            assert(mv.take(i as int + 1).drop_last() =~= mv.take(i as int));
            assert(mv.take(i as int + 1).last() == mv[i as int]);
        }
        let base = base_name(mods[i].raw.as_str());
        out.append("pub mod ");
        out.append(base.as_str());
        out.append(";\n");
        proof {
            assert(out@ =~= old(out)@ + mod_lines(mv.take(i as int + 1)));
        }
        i = i + 1;
    }
    proof {
        assert(mv.take(n as int) =~= mv);
    }
}

fn append_root_variant_lines(out: &mut String, mods: &Vec<ApiModule>)
    ensures
        final(out)@ == old(out)@ + root_variant_lines(mods@.map_values(|m: ApiModule| m@)),
{
    let ghost mv = mods@.map_values(|m: ApiModule| m@);
    let n = mods.len();
    let mut i: usize = 0;
    proof {
        assert(mv.take(0) =~= Seq::<ApiModuleData>::empty());
        assert(old(out)@ + root_variant_lines(mv.take(0)) =~= old(out)@);
    }
    while i < n
        invariant
            n == mods@.len(),
            mv == mods@.map_values(|m: ApiModule| m@),
            0 <= i <= n,
            out@ == old(out)@ + root_variant_lines(mv.take(i as int)),
        decreases n - i,
    {
        proof {
            assert(mv.take(i as int + 1).drop_last() =~= mv.take(i as int));
            assert(mv.take(i as int + 1).last() == mv[i as int]);
        }
        let base = base_name(mods[i].raw.as_str());
        let p = to_pascal(base.as_str());
        let ename = enum_name(mods[i].raw.as_str());
        out.append("    #[command(subcommand)]\n    ");
        out.append(p.as_str());
        out.append("(");
        out.append(ename.as_str());
        out.append("),\n");
        proof {
            assert(out@ =~= old(out)@ + root_variant_lines(mv.take(i as int + 1)));
        }
        i = i + 1;
    }
    proof {
        assert(mv.take(n as int) =~= mv);
    }
}

/// Emits the aggregator source unit wiring every discovered API module into
/// the top-level command enum.
pub fn emit_root_unit(mods: &Vec<ApiModule>) -> (r: String)
    ensures
        r@ == spec_emit_root(mods@.map_values(|m: ApiModule| m@)),
{
    let ghost mv = mods@.map_values(|m: ApiModule| m@);
    let mut out = String::new();
    out.append(
        "use std::error::Error;\nuse clap::{Parser, Subcommand};\nuse enum_dispatch::enum_dispatch;\nuse serde::{Deserialize, Serialize};\nuse openapi;\nuse crate::Cli;\n",
    );
    append_use_lines(&mut out, mods);
    append_mod_lines(&mut out, mods);
    out.append(
        "#[enum_dispatch]\npub trait CliCommand {\n    async fn exec(&self, _cli: Cli) -> Result<(), Box<dyn Error>>;\n}\n",
    );
    out.append("#[derive(Parser, Debug, Deserialize, Serialize)]\npub enum Commands {\n");
    append_root_variant_lines(&mut out, mods);
    out.append("}\n");
    proof {
        assert(out@ =~= spec_emit_root(mv));
    }
    out
}

/// The source unit of the generated program's entry point: a fixed unit
/// declaring the command-line surface and handing dispatch to the generated
/// command enum.
pub open spec fn spec_main_unit() -> Seq<char> {
    "use cli::Commands;\nuse std::error::Error;\nuse clap::Parser;\nuse serde::{Deserialize, Serialize};\nmod cli;\n#[derive(Parser, Debug, Serialize, Deserialize)]\n#[command(author, version, about, long_about = None)]\nstruct Cli {\n    #[command(subcommand)]\n    cmd: Commands,\n}\n#[tokio::main]\nasync fn main() -> Result<(), Box<dyn Error>> {\n    let cli = Cli::parse();\n    Ok(())\n}\n"@
}

/// Emits the generated program's entry-point source unit.
pub fn emit_main_unit() -> (r: String)
    ensures
        r@ == spec_main_unit(),
{
    String::from_str(
        "use cli::Commands;\nuse std::error::Error;\nuse clap::Parser;\nuse serde::{Deserialize, Serialize};\nmod cli;\n#[derive(Parser, Debug, Serialize, Deserialize)]\n#[command(author, version, about, long_about = None)]\nstruct Cli {\n    #[command(subcommand)]\n    cmd: Commands,\n}\n#[tokio::main]\nasync fn main() -> Result<(), Box<dyn Error>> {\n    let cli = Cli::parse();\n    Ok(())\n}\n",
    )
}

/// Cardinality: the top-level command enum derives exactly one variant per
/// discovered API module, and each per-API enum exactly one variant per
/// discovered operation.
pub proof fn lemma_variant_cardinality(ms: Seq<ApiModuleData>, ops: Seq<Seq<char>>)
    ensures
        root_variant_names(ms).len() == ms.len(),
        op_pascals(ops).len() == ops.len(),
{
}

/// Order preservation: the variants of every emitted enum are the Pascal
/// names of the corresponding modules or operations, index for index, in
/// discovery order.
pub proof fn lemma_variant_order(ms: Seq<ApiModuleData>, ops: Seq<Seq<char>>)
    ensures
        forall|i: int|
            0 <= i < ms.len() ==> root_variant_names(ms)[i] == pascal_of(
                base_name_of(ms[i].raw),
            ),
        forall|i: int| 0 <= i < ops.len() ==> op_pascals(ops)[i] == pascal_of(ops[i]),
{
}

} // verus!
