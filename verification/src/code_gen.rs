//! The built-in generator table: every language this project generates for,
//! the versions of each, and their file extensions.
use vstd::prelude::*;

use crate::codegen::{Generator, Registry, RegistryView};

pub use crate::codegen::{GenRequest, GeneratedFile, Mode, PackageMeta};

verus! {

/// What the built-in table holds: Rust 1.70.0 (`.rs`), and TypeScript 5.0
/// (`.ts`) under the names `"typescript"` and `"ts"`.
pub open spec fn lang_generators_spec() -> RegistryView<Generator> {
    RegistryView::<Generator>::empty().registered(
        "rust"@,
        "rs"@,
        "1.70.0"@,
        Generator::Rust,
    ).registered("typescript"@, "ts"@, "5.0"@, Generator::TypeScript).registered(
        "ts"@,
        "ts"@,
        "5.0"@,
        Generator::TypeScript,
    )
}

/// What `find_generator` answers for a language name and version.
pub open spec fn find_generator_spec(name: Seq<char>, version: Seq<char>) -> Option<
    (Generator, Seq<char>),
> {
    if name == "rust"@ && version == "1.70.0"@ {
        Some((Generator::Rust, "rs"@))
    } else if (name == "typescript"@ || name == "ts"@) && version == "5.0"@ {
        Some((Generator::TypeScript, "ts"@))
    } else {
        None
    }
}

/// The built-in table as a registry.
pub fn lang_generators() -> (r: Registry<Generator>)
    ensures
        r@ == lang_generators_spec(),
        forall|name: Seq<char>, version: Seq<char>|
            #[trigger] r@.lookup(name, version) == if name == "rust"@ && version == "1.70.0"@ {
                Some((Generator::Rust, "rs"@))
            } else if (name == "typescript"@ || name == "ts"@) && version == "5.0"@ {
                Some((Generator::TypeScript, "ts"@))
            } else {
                None
            },
{
    let mut r = Registry::new();
    r.register("rust", "rs", "1.70.0", Generator::Rust);
    r.register("typescript", "ts", "5.0", Generator::TypeScript);
    r.register("ts", "ts", "5.0", Generator::TypeScript);
    proof {
        assert forall|name: Seq<char>, version: Seq<char>|
            #[trigger] r@.lookup(name, version) == if name == "rust"@ && version == "1.70.0"@ {
                Some((Generator::Rust, "rs"@))
            } else if (name == "typescript"@ || name == "ts"@) && version == "5.0"@ {
                Some((Generator::TypeScript, "ts"@))
            } else {
                None
            } by {
            lemma_lang_generators_lookup(name, version);
        }
    }
    r
}

/// The table's lookups are those of `find_generator_spec`.
pub proof fn lemma_lang_generators_lookup(name: Seq<char>, version: Seq<char>)
    ensures
        lang_generators_spec().lookup(name, version) == find_generator_spec(name, version),
{
    lemma_names_differ();
}

/// The generator for `(name, version)` and its file extension, if the
/// built-in table has one.
pub fn find_generator(name: &str, version: &str) -> (r: Option<(Generator, &'static str)>)
    ensures
        match find_generator_spec(name@, version@) {
            Some((g, e)) => r matches Some((rg, re)) && rg == g && re@ == e,
            None => r is None,
        },
        name@ == "rust"@ && version@ == "1.70.0"@ ==> (r matches Some((g, e)) && g
            == Generator::Rust && e@ == "rs"@),
        (name@ == "typescript"@ || name@ == "ts"@) && version@ == "5.0"@ ==> (r matches Some(
            (g, e),
        ) && g == Generator::TypeScript && e@ == "ts"@),
        r is Some ==> (name@ == "rust"@ && version@ == "1.70.0"@) || ((name@ == "typescript"@
            || name@ == "ts"@) && version@ == "5.0"@),
{
    let table = lang_generators();
    proof {
        lemma_lang_generators_lookup(name@, version@);
    }
    table.find(name, version)
}

/// The built-in table has exactly three entries: Rust at 1.70.0 (`.rs`),
/// and TypeScript at 5.0 (`.ts`) under the names `"typescript"` and `"ts"`.
/// Every other language name and version finds nothing.
pub proof fn law_builtin_table_is_exact(name: Seq<char>, version: Seq<char>)
    ensures
        lang_generators_spec().lookup(name, version) is Some <==> (name == "rust"@ && version
            == "1.70.0"@) || (name == "typescript"@ && version == "5.0"@) || (name == "ts"@ && version
            == "5.0"@),
        lang_generators_spec().lookup("rust"@, "1.70.0"@) == Some((Generator::Rust, "rs"@)),
        lang_generators_spec().lookup("typescript"@, "5.0"@) == Some((Generator::TypeScript, "ts"@)),
        lang_generators_spec().lookup("ts"@, "5.0"@) == Some((Generator::TypeScript, "ts"@)),
        find_generator_spec(name, version) == lang_generators_spec().lookup(name, version),
{
    lemma_lang_generators_lookup(name, version);
    lemma_lang_generators_lookup("rust"@, "1.70.0"@);
    lemma_lang_generators_lookup("typescript"@, "5.0"@);
    lemma_lang_generators_lookup("ts"@, "5.0"@);
    lemma_names_differ();
}

/// Rust has one generator version, 1.70.0: every other version of `"rust"`
/// finds nothing.
pub proof fn law_rust_has_one_version(version: Seq<char>)
    requires
        version != "1.70.0"@,
    ensures
        lang_generators_spec().lookup("rust"@, version) is None,
        find_generator_spec("rust"@, version) is None,
{
    lemma_lang_generators_lookup("rust"@, version);
    lemma_names_differ();
}

/// TypeScript has one generator version, 5.0, under either name: every other
/// version of `"typescript"` or `"ts"` finds nothing.
pub proof fn law_typescript_has_one_version(version: Seq<char>)
    requires
        version != "5.0"@,
    ensures
        lang_generators_spec().lookup("typescript"@, version) is None,
        lang_generators_spec().lookup("ts"@, version) is None,
        find_generator_spec("typescript"@, version) is None,
        find_generator_spec("ts"@, version) is None,
{
    lemma_lang_generators_lookup("typescript"@, version);
    lemma_lang_generators_lookup("ts"@, version);
    lemma_names_differ();
}

/// `"ts"` is another name for `"typescript"`: both find the same generator
/// and extension at every version.
pub proof fn law_ts_is_typescript(version: Seq<char>)
    ensures
        find_generator_spec("ts"@, version) == find_generator_spec("typescript"@, version),
{
    lemma_names_differ();
}

proof fn lemma_names_differ()
    ensures
        "rust"@ != "typescript"@,
        "rust"@ != "ts"@,
        "typescript"@ != "ts"@,
{
    reveal_strlit("rust");
    reveal_strlit("typescript");
    reveal_strlit("ts");
    assert("rust"@.len() == 4);
    assert("typescript"@.len() == 10);
    assert("ts"@.len() == 2);
}

} // verus!
