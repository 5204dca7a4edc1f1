use slygen::driver::{generate, main_unit};
use slygen::emit::{emit_api_unit, emit_main_unit, emit_root_unit, enum_name};
use slygen::extract::{build_modules, scan_aggregator, scan_api_module, ApiModule};
use slygen::syntax::format_source;

fn module(raw: &str, ops: &[&str]) -> ApiModule {
    ApiModule { raw: raw.to_string(), ops: ops.iter().map(|o| o.to_string()).collect() }
}

#[test]
fn scan_aggregator_keeps_marked_modules_in_order() {
    let text = "pub mod pet_api;\npub mod store_api;\n";
    let names = scan_aggregator(text).unwrap();
    assert_eq!(names, vec!["pet_api".to_string(), "store_api".to_string()]);
}

#[test]
fn scan_aggregator_ignores_unmarked_module() {
    let text = "pub mod configuration;\npub mod pet_api;\nuse std::fmt;\n";
    let names = scan_aggregator(text).unwrap();
    assert_eq!(names, vec!["pet_api".to_string()]);
}

#[test]
fn scan_aggregator_rejects_invalid_source() {
    assert!(scan_aggregator("pub mod").is_err());
}

#[test]
fn scan_api_module_collects_functions_in_order() {
    let text = "pub fn add_pet() {}\nstruct Helper;\npub fn get_pet() {}\n";
    let ops = scan_api_module(text).unwrap();
    assert_eq!(ops, vec!["add_pet".to_string(), "get_pet".to_string()]);
}

#[test]
fn scan_api_module_rejects_invalid_source() {
    assert!(scan_api_module("fn {").is_err());
}

#[test]
fn enum_name_derives_from_base_name() {
    assert_eq!(enum_name("pet_api"), "PetApi");
    assert_eq!(enum_name("user_account_api"), "UserAccountApi");
}

#[test]
fn emitted_api_unit_is_exactly_the_formula() {
    let m = module("pet_api", &["add_pet"]);
    let expected = "use std::error::Error;\nuse clap::{Parser, Subcommand};\nuse enum_dispatch::enum_dispatch;\nuse serde::{Deserialize, Serialize};\nuse crate::Cli;\nuse crate::cli::CliCommand;\n#[enum_dispatch(CliCommand)]\n#[derive(Subcommand, Debug, Deserialize, Serialize)]\npub enum PetApi {\n    AddPet,\n}\n#[derive(Parser, Debug, Deserialize, Serialize)]\npub struct AddPet;\nimpl CliCommand for AddPet {\n    async fn exec(&self, _cli: Cli) -> Result<(), Box<dyn Error>> {\n        Err(\"not yet implemented\".into())\n    }\n}\n";
    assert_eq!(emit_api_unit(&m), expected);
}

#[test]
fn emitted_root_unit_wires_every_module() {
    let mods = vec![module("pet_api", &["add_pet", "get_pet"]), module("store_api", &["place_order"])];
    let text = emit_root_unit(&mods);
    assert!(text.contains("use crate::cli::pet::{PetApi, AddPet, GetPet};\n"));
    assert!(text.contains("use crate::cli::store::{StoreApi, PlaceOrder};\n"));
    assert!(text.contains("pub mod pet;\n"));
    assert!(text.contains("pub mod store;\n"));
    assert!(text.contains("pub trait CliCommand"));
    assert!(text.contains("pub enum Commands"));
    let pet = text.find("Pet(PetApi)").unwrap();
    let store = text.find("Store(StoreApi)").unwrap();
    assert!(pet < store);
}

#[test]
fn format_source_canonicalizes_an_emitted_unit() {
    let raw = emit_main_unit();
    let out = format_source(&raw).unwrap();
    assert!(out.contains("async fn main()"));
    assert!(scan_api_module(&out).is_ok());
}

#[test]
fn formatting_an_api_unit_matches_the_generated_file() {
    let mods = vec![module("pet_api", &["add_pet"])];
    let unit = emit_api_unit(&mods[0]);
    let formatted = format_source(&unit).unwrap();
    let files = generate(&mods).unwrap();
    assert_eq!(files[0].content, formatted);
}

#[test]
fn well_formed_accepts_discovered_identifiers_only() {
    assert!(module("pet_api", &["add_pet", "get_pet2"]).well_formed());
    assert!(!module("Pet_api", &["add_pet"]).well_formed());
    assert!(!module("pet_api", &["add pet"]).well_formed());
    assert!(!module("pet_api", &[""]).well_formed());
}

#[test]
fn two_marked_modules_generate_two_files_and_the_aggregator() {
    let aggregator = "pub mod pet_api;\npub mod store_api;\n";
    let pet = "pub fn add_pet() {}\npub fn get_pet() {}\n";
    let store = "pub fn place_order() {}\n";

    let names = scan_aggregator(aggregator).unwrap();
    assert_eq!(names, vec!["pet_api".to_string(), "store_api".to_string()]);
    let texts = vec![pet.to_string(), store.to_string()];
    let mods = build_modules(&names, &texts).unwrap();
    let files = generate(&mods).unwrap();

    assert_eq!(files.len(), 3);
    assert_eq!(files[0].path, "src/cli/pet.rs");
    assert_eq!(files[1].path, "src/cli/store.rs");
    assert_eq!(files[2].path, "src/cli/mod.rs");

    let pet_out = &files[0].content;
    assert!(pet_out.contains("pub enum PetApi"));
    let add = pet_out.find("AddPet").unwrap();
    let get = pet_out.find("GetPet").unwrap();
    assert!(add < get);

    let root_out = &files[2].content;
    assert!(root_out.contains("pub enum Commands"));
    let pet_variant = root_out.find("Pet(PetApi)").unwrap();
    let store_variant = root_out.find("Store(StoreApi)").unwrap();
    assert!(pet_variant < store_variant);
}

#[test]
fn module_without_functions_still_yields_a_file() {
    let mods = vec![module("empty_api", &[])];
    let files = generate(&mods).unwrap();
    assert_eq!(files.len(), 2);
    assert_eq!(files[0].path, "src/cli/empty.rs");
    assert!(files[0].content.contains("pub enum EmptyApi {}"));
}

#[test]
fn generation_is_idempotent() {
    let mods = vec![module("pet_api", &["add_pet", "get_pet"]), module("store_api", &["place_order"])];
    let first = generate(&mods).unwrap();
    let second = generate(&mods).unwrap();
    assert_eq!(first.len(), second.len());
    for (a, b) in first.iter().zip(second.iter()) {
        assert_eq!(a.path, b.path);
        assert_eq!(a.content, b.content);
    }
}

#[test]
fn every_generated_file_reparses_cleanly() {
    let mods = vec![module("pet_api", &["add_pet"]), module("store_api", &["place_order"])];
    let files = generate(&mods).unwrap();
    for f in &files {
        assert!(scan_api_module(&f.content).is_ok());
    }
    let entry = main_unit().unwrap();
    assert!(scan_api_module(&entry).is_ok());
}

#[test]
fn entry_point_unit_declares_the_command_surface() {
    let entry = main_unit().unwrap();
    assert!(entry.contains("struct Cli"));
    assert!(entry.contains("async fn main()"));
    assert!(entry.contains("mod cli;"));
}

#[test]
fn raw_entry_point_unit_is_fixed() {
    let raw = emit_main_unit();
    assert!(raw.starts_with("use cli::Commands;\n"));
    assert!(raw.ends_with("    let cli = Cli::parse();\n    Ok(())\n}\n"));
}
