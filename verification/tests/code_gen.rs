use comline_codegen::code_gen::{self, find_generator, lang_generators};
use comline_codegen::codegen::{Generator, Mode};

#[test]
fn finds_rust() {
    assert_eq!(find_generator("rust", "1.70.0"), Some((Generator::Rust, "rs")));
}

#[test]
fn finds_typescript() {
    assert_eq!(find_generator("typescript", "5.0"), Some((Generator::TypeScript, "ts")));
}

#[test]
fn ts_is_typescript() {
    assert_eq!(find_generator("ts", "5.0"), find_generator("typescript", "5.0"));
    assert_eq!(find_generator("ts", "1.70.0"), find_generator("typescript", "1.70.0"));
}

#[test]
fn unknown_language_or_version_finds_nothing() {
    assert_eq!(find_generator("luau", "0.6"), None);
    assert_eq!(find_generator("python", "3.12"), None);
    assert_eq!(find_generator("rust", "5.0"), None);
    assert_eq!(find_generator("typescript", "1.70.0"), None);
    assert_eq!(find_generator("rust", "1.70"), None);
    assert_eq!(find_generator("RUST", "1.70.0"), None);
    assert_eq!(find_generator("", ""), None);
}

#[test]
fn table_as_registry() {
    let table = lang_generators();
    assert_eq!(table.find("rust", "1.70.0"), Some((Generator::Rust, "rs")));
    assert_eq!(table.find("ts", "5.0"), Some((Generator::TypeScript, "ts")));
    assert_eq!(table.find("ts", "5.1"), None);
}

#[test]
fn shares_the_request_types() {
    let mode: code_gen::Mode = Mode::Lib;
    assert_eq!(mode, Mode::Lib);
    assert_ne!(mode, Mode::Code);
}
