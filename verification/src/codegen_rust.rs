//! The Rust code generator's contribution to a [`Registry`].
use vstd::prelude::*;

use crate::codegen::{Generator, Registry};

verus! {

/// Contribute the Rust generator to a CLI's [`Registry`]: language `"rust"`,
/// extension `"rs"`, version `"1.70.0"`.
pub fn register(registry: &mut Registry<Generator>)
    ensures
        final(registry)@ == old(registry)@.registered(
            "rust"@,
            "rs"@,
            "1.70.0"@,
            Generator::Rust,
        ),
        (forall|v: Seq<char>| old(registry)@.lookup("rust"@, v) is None) ==> final(registry)@.lookup(
            "rust"@,
            "1.70.0"@,
        ) == Some((Generator::Rust, "rs"@)),
{
    registry.register("rust", "rs", "1.70.0", Generator::Rust);
}

} // verus!
