//! The contract every code generator is built against, plus the [`Registry`]
//! a command line composes generators into.
use vstd::prelude::*;

use crate::ir::FrozenUnit;
use crate::text::str_eq;

verus! {

#[verifier::external_type_specification]
#[verifier::external_body]
pub struct ExPathBuf(std::path::PathBuf);

/// `PathBuf::clone` copies the path; nothing is claimed of the copy, only
/// that the call is defined on every path.
pub assume_specification[ <std::path::PathBuf as Clone>::clone ](
    p: &std::path::PathBuf,
) -> std::path::PathBuf;

/// One file a generator wants written, relative to the target's output root.
#[derive(Debug, Clone)]
pub struct GeneratedFile {
    pub path: std::path::PathBuf,
    pub contents: String,
}

/// How far generation goes: `Code` = bare source files; `Lib` = a buildable
/// package (manifest + module tree).
#[derive(Debug, Clone, Copy, PartialEq, Eq, Structural)]
pub enum Mode {
    Code,
    Lib,
}

/// Package identity, for the manifest a `Lib` build emits. Unused by `Code`.
#[derive(Debug, Clone)]
pub struct PackageMeta {
    pub name: String,
    pub version: String,
}

/// Everything a generator needs for one (target, version): every schema in the
/// package (namespace + IR), the mode, and the package identity.
pub struct GenRequest<'a> {
    pub mode: Mode,
    pub schemas: &'a [(String, Vec<FrozenUnit>)],
    pub package: PackageMeta,
}

/// The code generators this project ships. A registry entry holds one of
/// these as the handle a caller dispatches on.
#[derive(Debug, Clone, Copy, PartialEq, Eq, Structural)]
pub enum Generator {
    Rust,
    TypeScript,
}

/// What a registry holds: the file extension of every registered language,
/// and the generator of every registered `(language, version)` pair.
pub struct RegistryView<G> {
    pub exts: Map<Seq<char>, Seq<char>>,
    pub generators: Map<(Seq<char>, Seq<char>), G>,
}

impl<G> RegistryView<G> {
    /// The registry with nothing registered.
    pub open spec fn empty() -> Self {
        RegistryView { exts: Map::empty(), generators: Map::empty() }
    }

    /// Every registered pair belongs to a language with an extension, and a
    /// language has an extension only while some version of it is registered.
    pub open spec fn wf(self) -> bool {
        &&& forall|k: (Seq<char>, Seq<char>)| #[trigger]
            self.generators.contains_key(k) ==> self.exts.contains_key(k.0)
        &&& forall|n: Seq<char>| #[trigger]
            self.exts.contains_key(n) ==> exists|v: Seq<char>|
                self.generators.contains_key((n, v))
    }

    /// The generator for `(name, version)` and the extension of `name`, if
    /// that pair is registered.
    pub open spec fn lookup(self, name: Seq<char>, version: Seq<char>) -> Option<(G, Seq<char>)> {
        if self.generators.contains_key((name, version)) {
            Some((self.generators[(name, version)], self.exts[name]))
        } else {
            None
        }
    }

    /// The registry after registering `generator` for `name` at `version`:
    /// the pair now maps to `generator` (replacing any earlier one), and the
    /// language keeps the extension of its first registration.
    pub open spec fn registered(
        self,
        name: Seq<char>,
        ext: Seq<char>,
        version: Seq<char>,
        generator: G,
    ) -> Self {
        RegistryView {
            exts: if self.exts.contains_key(name) {
                self.exts
            } else {
                self.exts.insert(name, ext)
            },
            generators: self.generators.insert((name, version), generator),
        }
    }
}

impl<G> RegistryView<G> {
    /// The registry after registering each `(name, ext, version, generator)`
    /// of `regs` in turn.
    pub open spec fn registered_all(self, regs: Seq<(Seq<char>, Seq<char>, Seq<char>, G)>) -> Self
        decreases regs.len(),
    {
        if regs.len() == 0 {
            self
        } else {
            let last = regs.last();
            self.registered_all(regs.drop_last()).registered(last.0, last.1, last.2, last.3)
        }
    }
}

/// One registered `(language, version)`; `ext` is the language's extension.
struct Entry<G> {
    name: &'static str,
    ext: &'static str,
    version: &'static str,
    generator: G,
}

impl<G> Entry<G> {
    spec fn key(&self) -> (Seq<char>, Seq<char>) {
        (self.name@, self.version@)
    }
}

spec fn has_name<G>(s: Seq<Entry<G>>, name: Seq<char>) -> bool {
    exists|i: int| 0 <= i < s.len() && s[i].name@ == name
}

spec fn ext_of<G>(s: Seq<Entry<G>>, name: Seq<char>) -> Seq<char> {
    s[choose|i: int| 0 <= i < s.len() && s[i].name@ == name].ext@
}

spec fn has_key<G>(s: Seq<Entry<G>>, k: (Seq<char>, Seq<char>)) -> bool {
    exists|i: int| 0 <= i < s.len() && s[i].key() == k
}

spec fn generator_of<G>(s: Seq<Entry<G>>, k: (Seq<char>, Seq<char>)) -> G {
    s[choose|i: int| 0 <= i < s.len() && s[i].key() == k].generator
}

spec fn view_of<G>(s: Seq<Entry<G>>) -> RegistryView<G> {
    RegistryView {
        exts: Map::new(|n: Seq<char>| has_name(s, n), |n: Seq<char>| ext_of(s, n)),
        generators: Map::new(
            |k: (Seq<char>, Seq<char>)| has_key(s, k),
            |k: (Seq<char>, Seq<char>)| generator_of(s, k),
        ),
    }
}

/// No pair is registered twice, and all entries of one language agree on its
/// extension.
spec fn entries_wf<G>(s: Seq<Entry<G>>) -> bool {
    &&& forall|i: int, j: int|
        0 <= i < s.len() && 0 <= j < s.len() && i != j ==> #[trigger] s[i].key() != #[trigger] s[j].key()
    &&& forall|i: int, j: int|
        0 <= i < s.len() && 0 <= j < s.len() && #[trigger] s[i].name@ == #[trigger] s[j].name@
            ==> s[i].ext@ == s[j].ext@
}

proof fn lemma_ext_of<G>(s: Seq<Entry<G>>, i: int)
    requires
        entries_wf(s),
        0 <= i < s.len(),
    ensures
        has_name(s, s[i].name@),
        ext_of(s, s[i].name@) == s[i].ext@,
{
    let n = s[i].name@;
    assert(s[i].name@ == n);
    let j = choose|j: int| 0 <= j < s.len() && s[j].name@ == n;
    assert(s[j].name@ == s[i].name@);
}

proof fn lemma_generator_of<G>(s: Seq<Entry<G>>, i: int)
    requires
        entries_wf(s),
        0 <= i < s.len(),
    ensures
        has_key(s, s[i].key()),
        generator_of(s, s[i].key()) == s[i].generator,
{
    let k = s[i].key();
    assert(s[i].key() == k);
    let j = choose|j: int| 0 <= j < s.len() && s[j].key() == k;
    if j != i {
        assert(s[i].key() != s[j].key());
    }
}

/// Maps `(language, version)` to a generator of type `G`, and each language to
/// its source file extension.
pub struct Registry<G> {
    entries: Vec<Entry<G>>,
}

impl<G> View for Registry<G> {
    type V = RegistryView<G>;

    closed spec fn view(&self) -> RegistryView<G> {
        view_of(self.entries@)
    }
}

impl<G> Default for Registry<G> {
    /// An empty registry.
    fn default() -> (r: Self)
        ensures
            r@ == RegistryView::<G>::empty(),
    {
        let r = Registry { entries: Vec::new() };
        assert(r@.exts =~= Map::empty());
        assert(r@.generators =~= Map::empty());
        r
    }
}

impl<G> Registry<G> {
    #[verifier::type_invariant]
    spec fn inv(self) -> bool {
        entries_wf(self.entries@)
    }

    /// Every registry's view is well formed.
    pub proof fn lemma_view_wf(&self)
        ensures
            self@.wf(),
    {
        let s = self.entries@;
        assert forall|k: (Seq<char>, Seq<char>)| #[trigger]
            self@.generators.contains_key(k) implies self@.exts.contains_key(k.0) by {
            let i = choose|i: int| 0 <= i < s.len() && s[i].key() == k;
            assert(s[i].name@ == k.0);
        }
        assert forall|n: Seq<char>| #[trigger] self@.exts.contains_key(n) implies exists|v: Seq<
            char,
        >| self@.generators.contains_key((n, v)) by {
            let i = choose|i: int| 0 <= i < s.len() && s[i].name@ == n;
            assert(s[i].key() == (n, s[i].version@));
            assert(self@.generators.contains_key((n, s[i].version@)));
        }
    }

    /// An empty registry.
    pub fn new() -> (r: Self)
        ensures
            r@ == RegistryView::<G>::empty(),
    {
        Self::default()
    }

    /// Register `generator` for `name` at `version`. `ext` is the source file
    /// extension (`"rs"`, `"ts"`, …); a language keeps the extension it was
    /// first registered with.
    pub fn register(
        &mut self,
        name: &'static str,
        ext: &'static str,
        version: &'static str,
        generator: G,
    )
        ensures
            final(self)@ == old(self)@.registered(name@, ext@, version@, generator),
            (forall|v: Seq<char>| old(self)@.lookup(name@, v) is None) ==> final(self)@.lookup(
                name@,
                version@,
            ) == Some((generator, ext@)),
    {
        proof {
            use_type_invariant(&*self);
            self.lemma_view_wf();
            if forall|v: Seq<char>| old(self)@.lookup(name@, v) is None {
                law_new_language_gets_ext(old(self)@, name@, ext@, version@, generator);
            }
        }
        let ghost s = self.entries@;
        let mut lang_ext: Option<&'static str> = None;
        let mut i: usize = 0;
        while i < self.entries.len()
            invariant
                self.entries@ == s,
                old(self).entries@ == s,
                entries_wf(s),
                i <= s.len(),
                forall|j: int| 0 <= j < i ==> #[trigger] s[j].key() != (name@, version@),
                match lang_ext {
                    Some(e) => has_name(s, name@) && ext_of(s, name@) == e@,
                    None => forall|j: int| 0 <= j < i ==> #[trigger] s[j].name@ != name@,
                },
            decreases s.len() - i,
        {
            if str_eq(self.entries[i].name, name) {
                proof {
                    lemma_ext_of(s, i as int);
                }
                lang_ext = Some(self.entries[i].ext);
                if str_eq(self.entries[i].version, version) {
                    let entry = Entry {
                        name: self.entries[i].name,
                        ext: self.entries[i].ext,
                        version: self.entries[i].version,
                        generator,
                    };
                    let mut entries = Vec::new();
                    std::mem::swap(&mut entries, &mut self.entries);
                    entries.set(i, entry);
                    proof {
                        lemma_set_view(s, entries@, i as int);
                        assert(view_of(s).exts.contains_key(name@));
                        assert(s[i as int].key() == (name@, version@));
                        lemma_generator_of(s, i as int);
                        assert(old(self)@ == view_of(s));
                        assert(old(self)@.lookup(name@, version@) is Some);
                    }
                    self.entries = entries;
                    return;
                }
            }
            i += 1;
        }
        let new_ext = match lang_ext {
            Some(e) => e,
            None => ext,
        };
        let mut entries = Vec::new();
        std::mem::swap(&mut entries, &mut self.entries);
        entries.push(Entry { name, ext: new_ext, version, generator });
        proof {
            lemma_push_view(s, entries@, name@, ext@, version@, generator);
        }
        self.entries = entries;
    }

}

proof fn lemma_set_view<G>(s: Seq<Entry<G>>, t: Seq<Entry<G>>, i: int)
    requires
        entries_wf(s),
        0 <= i < s.len(),
        t.len() == s.len(),
        forall|j: int| 0 <= j < s.len() && j != i ==> t[j] == s[j],
        t[i].name@ == s[i].name@,
        t[i].ext@ == s[i].ext@,
        t[i].version@ == s[i].version@,
    ensures
        entries_wf(t),
        view_of(t) == view_of(s).registered(
            s[i].name@,
            s[i].ext@,
            s[i].version@,
            t[i].generator,
        ),
{
    assert(forall|j: int| 0 <= j < s.len() ==> t[j].key() == s[j].key());
    assert(forall|j: int| 0 <= j < s.len() ==> t[j].name@ == s[j].name@);
    assert(forall|j: int| 0 <= j < s.len() ==> t[j].ext@ == s[j].ext@);
    let old_v = view_of(s);
    let new_v = view_of(t);
    lemma_ext_of(s, i);
    let target = old_v.registered(s[i].name@, s[i].ext@, s[i].version@, t[i].generator);
    assert forall|n: Seq<char>| true implies #[trigger] has_name(t, n) == has_name(s, n)
        && (has_name(s, n) ==> ext_of(t, n) == ext_of(s, n)) by {
        if has_name(s, n) {
            let j = choose|j: int| 0 <= j < s.len() && s[j].name@ == n;
            lemma_ext_of(s, j);
            lemma_ext_of(t, j);
        }
        if has_name(t, n) {
            let j = choose|j: int| 0 <= j < t.len() && t[j].name@ == n;
            assert(s[j].name@ == n);
        }
    }
    assert(new_v.exts =~= target.exts);
    assert forall|k: (Seq<char>, Seq<char>)| true implies #[trigger] has_key(t, k) == has_key(s, k)
        && (has_key(s, k) ==> generator_of(t, k) == (if k == s[i].key() {
            t[i].generator
        } else {
            generator_of(s, k)
        })) by {
        if has_key(s, k) {
            let j = choose|j: int| 0 <= j < s.len() && s[j].key() == k;
            lemma_generator_of(s, j);
            lemma_generator_of(t, j);
            if k == s[i].key() {
                if j != i {
                    assert(s[i].key() != s[j].key());
                }
            }
        }
        if has_key(t, k) {
            let j = choose|j: int| 0 <= j < t.len() && t[j].key() == k;
            assert(s[j].key() == k);
        }
    }
    lemma_generator_of(s, i);
    assert(new_v.generators =~= target.generators);
}

proof fn lemma_push_view<G>(
    s: Seq<Entry<G>>,
    t: Seq<Entry<G>>,
    name: Seq<char>,
    ext: Seq<char>,
    version: Seq<char>,
    generator: G,
)
    requires
        entries_wf(s),
        t.len() == s.len() + 1,
        forall|j: int| 0 <= j < s.len() ==> t[j] == s[j],
        t[s.len() as int].name@ == name,
        t[s.len() as int].version@ == version,
        t[s.len() as int].generator == generator,
        t[s.len() as int].ext@ == (if has_name(s, name) {
            ext_of(s, name)
        } else {
            ext
        }),
        forall|j: int| 0 <= j < s.len() ==> #[trigger] s[j].key() != (name, version),
    ensures
        entries_wf(t),
        view_of(t) == view_of(s).registered(name, ext, version, generator),
{
    let m = s.len() as int;
    assert(t[m].key() == (name, version));
    assert forall|i: int, j: int|
        0 <= i < t.len() && 0 <= j < t.len() && #[trigger] t[i].name@ == #[trigger] t[j].name@
            implies t[i].ext@ == t[j].ext@ by {
        if i < m && j < m {
        } else if i < m {
            lemma_ext_of(s, i);
        } else if j < m {
            lemma_ext_of(s, j);
        }
    }
    assert(entries_wf(t));
    let target = view_of(s).registered(name, ext, version, generator);
    assert forall|n: Seq<char>| true implies #[trigger] has_name(t, n) == (has_name(s, n) || n
        == name) && (has_name(t, n) ==> ext_of(t, n) == target.exts[n]) by {
        if has_name(s, n) {
            let j = choose|j: int| 0 <= j < s.len() && s[j].name@ == n;
            lemma_ext_of(s, j);
            lemma_ext_of(t, j);
        }
        if n == name {
            lemma_ext_of(t, m);
        }
        if has_name(t, n) {
            let j = choose|j: int| 0 <= j < t.len() && t[j].name@ == n;
            if j < m {
                assert(s[j].name@ == n);
            }
        }
    }
    assert(view_of(t).exts =~= target.exts);
    assert forall|k: (Seq<char>, Seq<char>)| true implies #[trigger] has_key(t, k) == (has_key(s, k)
        || k == (name, version)) && (has_key(t, k) ==> generator_of(t, k)
        == target.generators[k]) by {
        if has_key(s, k) {
            let j = choose|j: int| 0 <= j < s.len() && s[j].key() == k;
            lemma_generator_of(s, j);
            lemma_generator_of(t, j);
        }
        if k == (name, version) {
            lemma_generator_of(t, m);
        }
        if has_key(t, k) {
            let j = choose|j: int| 0 <= j < t.len() && t[j].key() == k;
            if j < m {
                assert(s[j].key() == k);
            }
        }
    }
    assert(view_of(t).generators =~= target.generators);
}

impl<G: Copy> Registry<G> {
    /// The generator for `(name, version)` and its file extension, if one is
    /// registered.
    pub fn find(&self, name: &str, version: &str) -> (r: Option<(G, &'static str)>)
        ensures
            match self@.lookup(name@, version@) {
                Some((g, e)) => r matches Some((rg, re)) && rg == g && re@ == e,
                None => r is None,
            },
    {
        proof {
            use_type_invariant(self);
        }
        let ghost s = self.entries@;
        let mut i: usize = 0;
        while i < self.entries.len()
            invariant
                self.entries@ == s,
                entries_wf(s),
                i <= s.len(),
                forall|j: int| 0 <= j < i ==> #[trigger] s[j].key() != (name@, version@),
            decreases s.len() - i,
        {
            if str_eq(self.entries[i].name, name) && str_eq(self.entries[i].version, version) {
                proof {
                    lemma_ext_of(s, i as int);
                    lemma_generator_of(s, i as int);
                }
                return Some((self.entries[i].generator, self.entries[i].ext));
            }
            i += 1;
        }
        proof {
            if has_key(s, (name@, version@)) {
                let j = choose|j: int| 0 <= j < s.len() && s[j].key() == (name@, version@);
                assert(s[j].key() == (name@, version@));
            }
        }
        None
    }
}

/// Nothing is found in a registry with nothing registered.
pub proof fn law_empty_finds_nothing<G>(name: Seq<char>, version: Seq<char>)
    ensures
        RegistryView::<G>::empty().lookup(name, version) is None,
{
}

/// A lookup right after registering `generator` for `(name, version)` finds
/// that generator, with the extension the language was first registered with.
pub proof fn law_find_after_register<G>(
    r: RegistryView<G>,
    name: Seq<char>,
    ext: Seq<char>,
    version: Seq<char>,
    generator: G,
)
    ensures
        r.registered(name, ext, version, generator).lookup(name, version) == Some(
            (
                generator,
                if r.exts.contains_key(name) {
                    r.exts[name]
                } else {
                    ext
                },
            ),
        ),
{
}

/// Registering one `(name, version)` leaves the lookup of every other pair
/// unchanged.
pub proof fn law_register_keeps_others<G>(
    r: RegistryView<G>,
    name: Seq<char>,
    ext: Seq<char>,
    version: Seq<char>,
    generator: G,
    other_name: Seq<char>,
    other_version: Seq<char>,
)
    requires
        r.wf(),
        (other_name, other_version) != (name, version),
    ensures
        r.registered(name, ext, version, generator).lookup(other_name, other_version) == r.lookup(
            other_name,
            other_version,
        ),
{
    let after = r.registered(name, ext, version, generator);
    if r.generators.contains_key((other_name, other_version)) {
        assert(r.exts.contains_key(other_name));
    }
    assert(after.generators.contains_key((other_name, other_version)) == r.generators.contains_key(
        (other_name, other_version),
    ));
}

/// Registering keeps a registry well formed.
pub proof fn law_register_keeps_wf<G>(
    r: RegistryView<G>,
    name: Seq<char>,
    ext: Seq<char>,
    version: Seq<char>,
    generator: G,
)
    requires
        r.wf(),
    ensures
        r.registered(name, ext, version, generator).wf(),
{
    let after = r.registered(name, ext, version, generator);
    assert forall|k: (Seq<char>, Seq<char>)| #[trigger]
        after.generators.contains_key(k) implies after.exts.contains_key(k.0) by {
        if k != (name, version) {
            assert(r.generators.contains_key(k));
        }
    }
    assert forall|n: Seq<char>| #[trigger] after.exts.contains_key(n) implies exists|v: Seq<char>|
        after.generators.contains_key((n, v)) by {
        if n == name {
            assert(after.generators.contains_key((name, version)));
        } else {
            let v = choose|v: Seq<char>| r.generators.contains_key((n, v));
            assert(after.generators.contains_key((n, v)));
        }
    }
}

/// Registering a language none of whose versions is registered gives it the
/// extension passed in.
pub proof fn law_new_language_gets_ext<G>(
    r: RegistryView<G>,
    name: Seq<char>,
    ext: Seq<char>,
    version: Seq<char>,
    generator: G,
)
    requires
        r.wf(),
        forall|v: Seq<char>| r.lookup(name, v) is None,
    ensures
        r.registered(name, ext, version, generator).lookup(name, version) == Some((generator, ext)),
{
    if r.exts.contains_key(name) {
        let v = choose|v: Seq<char>| r.generators.contains_key((name, v));
        assert(r.lookup(name, v) is None);
    }
}

/// Registering the same generator twice is the same as registering it once.
pub proof fn law_register_idempotent<G>(
    r: RegistryView<G>,
    name: Seq<char>,
    ext: Seq<char>,
    version: Seq<char>,
    generator: G,
)
    ensures
        r.registered(name, ext, version, generator).registered(name, ext, version, generator)
            == r.registered(name, ext, version, generator),
{
    let once = r.registered(name, ext, version, generator);
    let twice = once.registered(name, ext, version, generator);
    assert(twice.exts =~= once.exts);
    assert(twice.generators =~= once.generators);
}

proof fn lemma_all_generators<G>(
    regs: Seq<(Seq<char>, Seq<char>, Seq<char>, G)>,
    name: Seq<char>,
    version: Seq<char>,
)
    ensures
        RegistryView::<G>::empty().registered_all(regs).generators.contains_key((name, version))
            <==> exists|i: int| 0 <= i < regs.len() && regs[i].0 == name && regs[i].2 == version,
    decreases regs.len(),
{
    if regs.len() > 0 {
        let prefix = regs.drop_last();
        lemma_all_generators(prefix, name, version);
        if exists|i: int| 0 <= i < regs.len() && regs[i].0 == name && regs[i].2 == version {
            let i = choose|i: int| 0 <= i < regs.len() && regs[i].0 == name && regs[i].2 == version;
            if i < regs.len() - 1 {
                assert(prefix[i] == regs[i]);
            }
        }
        if exists|i: int| 0 <= i < prefix.len() && prefix[i].0 == name && prefix[i].2 == version {
            let i = choose|i: int|
                0 <= i < prefix.len() && prefix[i].0 == name && prefix[i].2 == version;
            assert(regs[i] == prefix[i]);
        }
    }
}

proof fn lemma_all_generator_value<G>(
    regs: Seq<(Seq<char>, Seq<char>, Seq<char>, G)>,
    name: Seq<char>,
    version: Seq<char>,
    j: int,
)
    requires
        0 <= j < regs.len(),
        regs[j].0 == name,
        regs[j].2 == version,
        forall|i: int| j < i < regs.len() ==> !(regs[i].0 == name && regs[i].2 == version),
    ensures
        RegistryView::<G>::empty().registered_all(regs).generators[(name, version)] == regs[j].3,
    decreases regs.len(),
{
    if j < regs.len() - 1 {
        let prefix = regs.drop_last();
        assert forall|i: int| j < i < prefix.len() implies !(prefix[i].0 == name && prefix[i].2
            == version) by {
            assert(prefix[i] == regs[i]);
        }
        lemma_all_generator_value(prefix, name, version, j);
        assert(!(regs.last().0 == name && regs.last().2 == version));
    }
}

proof fn lemma_all_exts<G>(regs: Seq<(Seq<char>, Seq<char>, Seq<char>, G)>, name: Seq<char>)
    ensures
        RegistryView::<G>::empty().registered_all(regs).exts.contains_key(name) <==> exists|i: int|
            0 <= i < regs.len() && regs[i].0 == name,
    decreases regs.len(),
{
    if regs.len() > 0 {
        let prefix = regs.drop_last();
        lemma_all_exts(prefix, name);
        if exists|i: int| 0 <= i < regs.len() && regs[i].0 == name {
            let i = choose|i: int| 0 <= i < regs.len() && regs[i].0 == name;
            if i < regs.len() - 1 {
                assert(prefix[i] == regs[i]);
            }
        }
        if exists|i: int| 0 <= i < prefix.len() && prefix[i].0 == name {
            let i = choose|i: int| 0 <= i < prefix.len() && prefix[i].0 == name;
            assert(regs[i] == prefix[i]);
        }
    }
}

proof fn lemma_all_ext_value<G>(
    regs: Seq<(Seq<char>, Seq<char>, Seq<char>, G)>,
    name: Seq<char>,
    m: int,
)
    requires
        0 <= m < regs.len(),
        regs[m].0 == name,
        forall|i: int| 0 <= i < m ==> regs[i].0 != name,
    ensures
        RegistryView::<G>::empty().registered_all(regs).exts[name] == regs[m].1,
    decreases regs.len(),
{
    let prefix = regs.drop_last();
    if m < regs.len() - 1 {
        assert forall|i: int| 0 <= i < m implies prefix[i].0 != name by {
            assert(prefix[i] == regs[i]);
        }
        lemma_all_ext_value(prefix, name, m);
        lemma_all_exts(prefix, name);
        assert(prefix[m] == regs[m]);
    } else {
        lemma_all_exts(prefix, name);
        if exists|i: int| 0 <= i < prefix.len() && prefix[i].0 == name {
            let i = choose|i: int| 0 <= i < prefix.len() && prefix[i].0 == name;
            assert(regs[i] == prefix[i]);
        }
    }
}

/// After registering `regs` in turn into an empty registry, a pair that none
/// of them registered is not found.
pub proof fn law_find_after_registrations_missing<G>(
    regs: Seq<(Seq<char>, Seq<char>, Seq<char>, G)>,
    name: Seq<char>,
    version: Seq<char>,
)
    requires
        forall|i: int| 0 <= i < regs.len() ==> !(regs[i].0 == name && regs[i].2 == version),
    ensures
        RegistryView::<G>::empty().registered_all(regs).lookup(name, version) is None,
{
    lemma_all_generators(regs, name, version);
}

/// After registering `regs` in turn into an empty registry, a pair is found
/// with the generator of its last registration (`regs[j]`) and the extension
/// of its language's first registration (`regs[m]`).
pub proof fn law_find_after_registrations<G>(
    regs: Seq<(Seq<char>, Seq<char>, Seq<char>, G)>,
    name: Seq<char>,
    version: Seq<char>,
    j: int,
    m: int,
)
    requires
        0 <= j < regs.len(),
        regs[j].0 == name,
        regs[j].2 == version,
        forall|i: int| j < i < regs.len() ==> !(regs[i].0 == name && regs[i].2 == version),
        0 <= m < regs.len(),
        regs[m].0 == name,
        forall|i: int| 0 <= i < m ==> regs[i].0 != name,
    ensures
        RegistryView::<G>::empty().registered_all(regs).lookup(name, version) == Some(
            (regs[j].3, regs[m].1),
        ),
{
    lemma_all_generators(regs, name, version);
    lemma_all_generator_value(regs, name, version, j);
    lemma_all_ext_value(regs, name, m);
}

} // verus!
