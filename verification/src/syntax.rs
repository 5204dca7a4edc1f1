//! The boundary to the parser/printer pair: parsing source text into a
//! syntax tree (`syn`) and printing a tree back as canonically formatted
//! source text (`prettyplease`). The tree itself is opaque here; the library
//! reads it only through the top-level declaration list, and pins every
//! outcome down as a function of the source text alone.

use vstd::prelude::*;

use crate::emit::{spec_emit_api, spec_emit_root, spec_main_unit};
use crate::extract::{wf_module, wf_modules, ApiModuleData};

verus! {

/// The kind of a top-level declaration the extractor can meet.
#[derive(Clone, Copy, Debug, PartialEq, Eq, Structural)]
pub enum DeclKind {
    /// A module declaration.
    Module,
    /// A function declaration.
    Function,
    /// Any other item; its identifier is not recorded.
    Other,
}

/// A top-level declaration: its kind and its identifier.
#[derive(Debug)]
pub struct Decl {
    pub kind: DeclKind,
    pub name: String,
}

/// The mathematical image of a [`Decl`].
pub struct DeclData {
    pub kind: DeclKind,
    pub name: Seq<char>,
}

impl View for Decl {
    type V = DeclData;

    open spec fn view(&self) -> DeclData {
        DeclData { kind: self.kind, name: self.name@ }
    }
}

/// The text is not syntactically valid source.
#[derive(Clone, Copy, Debug, PartialEq, Eq, Structural)]
pub struct ParseError;

/// An emitted tree failed to print and re-parse: a generation defect, fatal
/// to the run.
#[derive(Clone, Copy, Debug, PartialEq, Eq, Structural)]
pub struct FormatError;

#[verifier::external_type_specification]
#[verifier::external_body]
pub struct ExSynFile(syn::File);

#[verifier::external_type_specification]
#[verifier::external_body]
pub struct ExSynError(syn::Error);

/// The syntax tree that the source text parses to, or `None` when the text is
/// not valid source. Parsing is a function of the text alone.
pub uninterp spec fn parsed_file(s: Seq<char>) -> Option<syn::File>;

/// The top-level declarations a syntax tree holds, in source order, each
/// reduced to its kind and identifier.
pub uninterp spec fn file_decls_of(f: syn::File) -> Seq<DeclData>;

/// The canonically formatted source text a syntax tree prints to.
pub uninterp spec fn unparse_of(f: syn::File) -> Seq<char>;

/// The syntax trees the printer covers. `prettyplease::unparse` aborts on
/// trees outside this set — one holding an ill-shaped `macro_rules` interior,
/// or a verbatim node its fallback parsers do not recognize — so the printer
/// wrapper admits only trees in it.
pub uninterp spec fn printable(f: syn::File) -> bool;

/// Relies on `syn::parse_file`: parses source text into a syntax tree, with
/// `Err` exactly when the text is not syntactically valid source. Nothing is
/// claimed about the printer here: valid source can parse to a tree the
/// printer refuses (an ill-shaped `macro_rules` interior, for one).
#[verifier::external_body]
fn parse_source(text: &str) -> (r: Result<syn::File, syn::Error>)
    ensures
        r is Ok <==> parsed_file(text@) is Some,
        r matches Ok(f) ==> parsed_file(text@) == Some(f),
{
    syn::parse_file(text)
}

/// A source unit this library's emitters produce for well-formed module
/// data, or the fixed entry-point unit.
pub open spec fn emitted_unit(s: Seq<char>) -> bool {
    ||| (exists|m: ApiModuleData| wf_module(m) && s == #[trigger] spec_emit_api(m))
    ||| (exists|ms: Seq<ApiModuleData>| wf_modules(ms) && s == #[trigger] spec_emit_root(ms))
    ||| s == spec_main_unit()
}

/// Relies on `syn::parse_file` and on `prettyplease`'s printers jointly: an
/// emitted unit holds only import declarations, attributed enums and unit
/// structs, an impl or trait with an async method, and module declarations —
/// identifiers only where names are spliced in, so no macro or verbatim item
/// anywhere — and the trees these parse to are ones the printer covers.
/// Admission is restricted to emitted units; on arbitrary source the joint
/// claim would be false.
#[verifier::external_body]
fn parse_emitted(text: &str) -> (r: Result<syn::File, syn::Error>)
    requires
        emitted_unit(text@),
    ensures
        r is Ok <==> parsed_file(text@) is Some,
        r matches Ok(f) ==> parsed_file(text@) == Some(f) && printable(f),
{
    syn::parse_file(text)
}

/// Relies on the `items` field of `syn::File`: hands out the tree's top-level
/// declarations in source order, module and function declarations mapped to
/// their identifiers and everything else to [`DeclKind::Other`].
#[verifier::external_body]
fn decls_of_file(f: &syn::File) -> (r: Vec<Decl>)
    ensures
        r@.map_values(|d: Decl| d@) == file_decls_of(*f),
{
    f.items
        .iter()
        .map(|item| match item {
            syn::Item::Mod(m) => Decl { kind: DeclKind::Module, name: m.ident.to_string() },
            syn::Item::Fn(g) => Decl { kind: DeclKind::Function, name: g.sig.ident.to_string() },
            _ => Decl { kind: DeclKind::Other, name: String::new() },
        })
        .collect()
}

/// Relies on `prettyplease::unparse` (with its `verbatim` feature): prints a
/// syntax tree as formatted source text, a function of the tree alone. The
/// call aborts on trees outside the printer's covered set, so admission is
/// restricted to [`printable`] trees.
#[verifier::external_body]
fn unparse_file(f: &syn::File) -> (r: String)
    requires
        printable(*f),
    ensures
        r@ == unparse_of(*f),
{
    prettyplease::unparse(f)
}

/// The top-level declarations of a piece of source text, assuming it parses.
pub open spec fn source_decls(s: Seq<char>) -> Seq<DeclData> {
    file_decls_of(parsed_file(s)->0)
}

/// Whether formatting the text succeeds: the text parses, and the printed
/// form of its tree parses again.
pub open spec fn format_ok(s: Seq<char>) -> bool {
    &&& parsed_file(s) is Some
    &&& parsed_file(unparse_of(parsed_file(s)->0)) is Some
}

/// The canonically formatted form of a piece of source text, assuming it
/// parses.
pub open spec fn fmt_of(s: Seq<char>) -> Seq<char> {
    unparse_of(parsed_file(s)->0)
}

/// Parses the declarations of a piece of source text, failing with
/// [`ParseError`] exactly when the text is not valid source.
pub fn parse_decls(text: &str) -> (r: Result<Vec<Decl>, ParseError>)
    ensures
        r is Ok <==> parsed_file(text@) is Some,
        r matches Ok(v) ==> v@.map_values(|d: Decl| d@) == source_decls(text@),
{
    match parse_source(text) {
        Ok(f) => Ok(decls_of_file(&f)),
        Err(_) => Err(ParseError),
    }
}

/// Serializes an emitted source unit to its canonical formatted text:
/// parses the text, prints the tree back, and re-parses the printed text as a
/// defensive check. Failure signals a defect in the emitted unit, never user
/// error. Admission is restricted to the units this library emits, the one
/// domain on which the printer is relied on.
pub fn format_source(text: &str) -> (r: Result<String, FormatError>)
    requires
        emitted_unit(text@),
    ensures
        r is Ok <==> format_ok(text@),
        r matches Ok(out) ==> out@ == fmt_of(text@),
        r matches Ok(out) ==> parsed_file(out@) is Some,
{
    match parse_emitted(text) {
        Err(_) => Err(FormatError),
        Ok(f) => {
            let out = unparse_file(&f);
            match parse_source(out.as_str()) {
                Ok(_) => Ok(out),
                Err(_) => Err(FormatError),
            }
        },
    }
}

} // verus!
