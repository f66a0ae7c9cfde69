use std::path::PathBuf;

use comline_codegen::codegen::{GenRequest, GeneratedFile, Generator, Mode, PackageMeta, Registry};
use comline_codegen::codegen_rust;

#[test]
fn new_registry_finds_nothing() {
    let registry: Registry<Generator> = Registry::new();
    assert_eq!(registry.find("rust", "1.70.0"), None);
    assert_eq!(registry.find("", ""), None);
}

#[test]
fn default_registry_is_empty() {
    let registry: Registry<u32> = Registry::default();
    assert_eq!(registry.find("rust", "1.70.0"), None);
}

#[test]
fn find_after_register() {
    let mut registry = Registry::new();
    registry.register("rust", "rs", "1.70.0", 7u32);
    assert_eq!(registry.find("rust", "1.70.0"), Some((7, "rs")));
    assert_eq!(registry.find("rust", "1.71.0"), None);
    assert_eq!(registry.find("Rust", "1.70.0"), None);
    assert_eq!(registry.find("rus", "1.70.0"), None);
}

#[test]
fn extension_is_fixed_by_first_registration() {
    let mut registry = Registry::new();
    registry.register("typescript", "ts", "5.0", 1u32);
    registry.register("typescript", "mts", "5.4", 2u32);
    assert_eq!(registry.find("typescript", "5.0"), Some((1, "ts")));
    assert_eq!(registry.find("typescript", "5.4"), Some((2, "ts")));
}

#[test]
fn register_replaces_the_generator_of_the_same_pair() {
    let mut registry = Registry::new();
    registry.register("rust", "rs", "1.70.0", 1u32);
    registry.register("rust", "rs", "1.70.0", 2u32);
    assert_eq!(registry.find("rust", "1.70.0"), Some((2, "rs")));
}

#[test]
fn register_keeps_other_pairs() {
    let mut registry = Registry::new();
    registry.register("rust", "rs", "1.70.0", 1u32);
    registry.register("typescript", "ts", "5.0", 2u32);
    registry.register("rust", "rs", "1.80.0", 3u32);
    assert_eq!(registry.find("rust", "1.70.0"), Some((1, "rs")));
    assert_eq!(registry.find("typescript", "5.0"), Some((2, "ts")));
    assert_eq!(registry.find("rust", "1.80.0"), Some((3, "rs")));
    assert_eq!(registry.find("typescript", "1.70.0"), None);
}

#[test]
fn register_twice_is_register_once() {
    let mut once = Registry::new();
    once.register("luau", "luau", "0.6", 5u8);
    let mut twice = Registry::new();
    twice.register("luau", "luau", "0.6", 5u8);
    twice.register("luau", "luau", "0.6", 5u8);
    assert_eq!(once.find("luau", "0.6"), twice.find("luau", "0.6"));
    assert_eq!(twice.find("luau", "0.6"), Some((5, "luau")));
}

#[test]
fn rust_contributes_itself() {
    let mut registry = Registry::new();
    codegen_rust::register(&mut registry);
    assert_eq!(registry.find("rust", "1.70.0"), Some((Generator::Rust, "rs")));
    assert_eq!(registry.find("rust", "1.69.0"), None);
    assert_eq!(registry.find("typescript", "5.0"), None);
}

#[test]
fn rust_contribution_keeps_an_earlier_extension() {
    let mut registry = Registry::new();
    registry.register("rust", "rust", "1.60.0", Generator::Rust);
    codegen_rust::register(&mut registry);
    assert_eq!(registry.find("rust", "1.70.0"), Some((Generator::Rust, "rust")));
    assert_eq!(registry.find("rust", "1.60.0"), Some((Generator::Rust, "rust")));
}

fn stub_generator(req: &GenRequest) -> Result<Vec<GeneratedFile>, String> {
    Ok(vec![GeneratedFile {
        path: PathBuf::from(format!("{}.rs", req.package.name)),
        contents: String::new(),
    }])
}

type GeneratorFn = fn(&GenRequest) -> Result<Vec<GeneratedFile>, String>;

#[test]
fn registry_holds_generator_functions() {
    let mut registry: Registry<GeneratorFn> = Registry::new();
    registry.register("stub", "rs", "1", stub_generator);
    let (generator, ext) = registry.find("stub", "1").expect("registered");
    assert_eq!(ext, "rs");
    let schemas = vec![];
    let req = GenRequest {
        mode: Mode::Code,
        schemas: &schemas,
        package: PackageMeta { name: "pkg".to_string(), version: "0.1.0".to_string() },
    };
    let files = generator(&req).unwrap();
    assert_eq!(files.len(), 1);
    let copy = files[0].clone();
    assert_eq!(copy.path.to_str().unwrap(), "pkg.rs");
}

#[test]
fn find_after_a_sequence_of_registrations() {
    let mut registry = Registry::new();
    registry.register("ts", "ts", "5.0", 1u32);
    registry.register("rust", "rs", "1.70.0", 2u32);
    registry.register("ts", "mts", "5.0", 3u32);
    registry.register("rust", "rust", "1.80.0", 4u32);
    registry.register("ts", "cts", "5.1", 5u32);
    assert_eq!(registry.find("ts", "5.0"), Some((3, "ts")));
    assert_eq!(registry.find("ts", "5.1"), Some((5, "ts")));
    assert_eq!(registry.find("rust", "1.70.0"), Some((2, "rs")));
    assert_eq!(registry.find("rust", "1.80.0"), Some((4, "rs")));
    assert_eq!(registry.find("rust", "5.0"), None);
}

#[test]
fn new_language_gets_the_given_extension() {
    let mut registry = Registry::new();
    registry.register("typescript", "ts", "5.0", 1u32);
    registry.register("luau", "luau", "0.6", 2u32);
    assert_eq!(registry.find("luau", "0.6"), Some((2, "luau")));
}
