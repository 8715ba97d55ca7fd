use vstd::prelude::*;

use crate::pkgid::{str_eq, BuiltinPackage};

verus! {

/// A borrowed reference to a package, as a definition names it.
#[derive(Clone, Copy, Debug, PartialEq, Eq, PartialOrd, Ord, Hash)]
pub enum PackageRef<'a> {
    Builtin(BuiltinPackage),
    Special(&'a str),
    Local(&'a str),
    Remote(&'a str),
}

/// A package reference with its names as character sequences.
pub enum PackageKey {
    Builtin(BuiltinPackage),
    Special(Seq<char>),
    Local(Seq<char>),
    Remote(Seq<char>),
}

impl<'a> View for PackageRef<'a> {
    type V = PackageKey;

    open spec fn view(&self) -> PackageKey {
        match self {
            PackageRef::Builtin(p) => PackageKey::Builtin(*p),
            PackageRef::Special(s) => PackageKey::Special(s@),
            PackageRef::Local(s) => PackageKey::Local(s@),
            PackageRef::Remote(s) => PackageKey::Remote(s@),
        }
    }
}

impl<'a> PackageRef<'a> {
    /// The builtin `core` package.
    pub fn core_package() -> (r: PackageRef<'a>)
        ensures
            r == PackageRef::<'a>::Builtin(BuiltinPackage::Core),
    {
        PackageRef::Builtin(BuiltinPackage::Core)
    }

    /// The builtin `basic` package.
    pub fn basic_package() -> (r: PackageRef<'a>)
        ensures
            r == PackageRef::<'a>::Builtin(BuiltinPackage::Basic),
    {
        PackageRef::Builtin(BuiltinPackage::Basic)
    }

    /// The builtin `mpsc` package.
    pub fn mpsc_package() -> (r: PackageRef<'a>)
        ensures
            r == PackageRef::<'a>::Builtin(BuiltinPackage::Mpsc),
    {
        PackageRef::Builtin(BuiltinPackage::Mpsc)
    }
}

/// Where a definition lives: its package, the module path inside the
/// package, the module and the definition's name.
#[derive(Hash, Eq, PartialEq, Clone, Copy, Debug)]
pub struct DefinitionRef<'a> {
    pub package: PackageRef<'a>,
    pub path: &'a [&'a str],
    pub module: &'a str,
    pub name: &'a str,
}

/// A definition reference with its names as character sequences; two
/// references denote the same definition exactly when their keys agree.
pub struct DefinitionKey {
    pub package: PackageKey,
    pub path: Seq<Seq<char>>,
    pub module: Seq<char>,
    pub name: Seq<char>,
}

impl<'a> View for DefinitionRef<'a> {
    type V = DefinitionKey;

    open spec fn view(&self) -> DefinitionKey {
        DefinitionKey {
            package: self.package@,
            path: self.path@.map_values(|s: &str| s@),
            module: self.module@,
            name: self.name@,
        }
    }
}

/// An external function registered under the definition it implements.
#[derive(Clone, Copy)]
pub struct ExternalDef<F> {
    pub path: DefinitionRef<'static>,
    pub f: F,
}

/// Whether two package references denote the same package.
pub fn same_package(a: &PackageRef, b: &PackageRef) -> (r: bool)
    ensures
        r == (a@ == b@),
{
    match (a, b) {
        (PackageRef::Builtin(x), PackageRef::Builtin(y)) => *x == *y,
        (PackageRef::Special(x), PackageRef::Special(y)) => str_eq(x, y),
        (PackageRef::Local(x), PackageRef::Local(y)) => str_eq(x, y),
        (PackageRef::Remote(x), PackageRef::Remote(y)) => str_eq(x, y),
        _ => false,
    }
}

/// Whether two module paths are the same, name by name.
pub fn same_path(a: &[&str], b: &[&str]) -> (r: bool)
    ensures
        r == (a@.map_values(|s: &str| s@) == b@.map_values(|s: &str| s@)),
{
    let ghost va = a@.map_values(|s: &str| s@);
    let ghost vb = b@.map_values(|s: &str| s@);
    if a.len() != b.len() {
        assert(va.len() != vb.len());
        return false;
    }
    let mut i: usize = 0;
    while i < a.len()
        invariant
            i <= a@.len(),
            a@.len() == b@.len(),
            va == a@.map_values(|s: &str| s@),
            vb == b@.map_values(|s: &str| s@),
            forall|j: int| 0 <= j < i ==> va[j] == vb[j],
        decreases a@.len() - i,
    {
        if !str_eq(a[i], b[i]) {
            assert(va[i as int] != vb[i as int]);
            return false;
        }
        i = i + 1;
    }
    assert(va =~= vb);
    true
}

/// Whether two definition references denote the same definition.
pub fn same_definition(a: &DefinitionRef, b: &DefinitionRef) -> (r: bool)
    ensures
        r == (a@ == b@),
{
    same_package(&a.package, &b.package) && same_path(a.path, b.path) && str_eq(a.module, b.module)
        && str_eq(a.name, b.name)
}

/// The table that registrations build: each registration in order maps
/// its definition to its function, so a later one for the same definition
/// replaces an earlier one.
pub open spec fn registry_map<F>(defs: Seq<ExternalDef<F>>) -> Map<DefinitionKey, F>
    decreases defs.len(),
{
    if defs.len() == 0 {
        Map::empty()
    } else {
        registry_map(defs.drop_last()).insert(defs.last().path@, defs.last().f)
    }
}

/// What the table answers for a definition.
pub open spec fn registry_lookup<F>(defs: Seq<ExternalDef<F>>, key: DefinitionKey) -> Option<F> {
    if registry_map(defs).dom().contains(key) {
        Some(registry_map(defs)[key])
    } else {
        None
    }
}

/// The external functions known to the runtime, by the definition each
/// one implements.
pub struct Registry<F> {
    defs: Vec<ExternalDef<F>>,
}

impl<F> View for Registry<F> {
    type V = Seq<ExternalDef<F>>;

    closed spec fn view(&self) -> Seq<ExternalDef<F>> {
        self.defs@
    }
}

impl<F: Copy> Registry<F> {
    /// Builds the table from the registrations, in the order given.
    pub fn new(defs: Vec<ExternalDef<F>>) -> (r: Registry<F>)
        ensures
            r@ == defs@,
    {
        Registry { defs }
    }

    /// The number of registrations, counting repeated ones.
    pub fn len(&self) -> (r: usize)
        ensures
            r == self@.len(),
    {
        self.defs.len()
    }
}

/// The function registered for `path`; where several registrations name
/// it, the last one.
pub fn get_external_fn<F: Copy>(registry: &Registry<F>, path: &DefinitionRef) -> (r: Option<F>)
    ensures
        r == registry_lookup(registry@, path@),
{
    let defs = &registry.defs;
    let ghost key = path@;
    let mut i: usize = defs.len();
    proof {
        assert(defs@.take(i as int) =~= defs@);
    }
    while i > 0
        invariant
            i <= defs@.len(),
            defs@ == registry@,
            key == path@,
            registry_lookup(defs@, key) == registry_lookup(defs@.take(i as int), key),
        decreases i,
    {
        let ghost prefix = defs@.take(i as int);
        assert(prefix.drop_last() =~= defs@.take(i - 1));
        assert(prefix.last() == defs@[i - 1]);
        if same_definition(&defs[i - 1].path, path) {
            return Some(defs[i - 1].f);
        }
        i = i - 1;
    }
    assert(defs@.take(0) =~= Seq::<ExternalDef<F>>::empty());
    None
}

/// Whether registration `i` names the definition `key`.
pub open spec fn registered_at<F>(defs: Seq<ExternalDef<F>>, i: int, key: DefinitionKey) -> bool {
    0 <= i < defs.len() && defs[i].path@ == key
}

/// Whether registration `i` is the last one that names `key`.
pub open spec fn last_registered_at<F>(defs: Seq<ExternalDef<F>>, i: int, key: DefinitionKey) -> bool {
    registered_at(defs, i, key) && forall|j: int| i < j < defs.len() ==> defs[j].path@ != key
}

/// The table holds a definition exactly when some registration names it.
pub proof fn lemma_registered_iff_named<F>(defs: Seq<ExternalDef<F>>, key: DefinitionKey)
    ensures
        registry_map(defs).dom().contains(key) <==> exists|i: int|
            #[trigger] registered_at(defs, i, key),
    decreases defs.len(),
{
    if defs.len() > 0 {
        let init = defs.drop_last();
        let n = defs.len() - 1;
        lemma_registered_iff_named(init, key);
        if registry_map(defs).dom().contains(key) {
            if defs.last().path@ == key {
                assert(registered_at(defs, n, key));
            } else {
                let w = choose|i: int| #[trigger] registered_at(init, i, key);
                assert(registered_at(defs, w, key));
            }
        }
        if exists|i: int| #[trigger] registered_at(defs, i, key) {
            let w = choose|i: int| #[trigger] registered_at(defs, i, key);
            if w < n {
                assert(registered_at(init, w, key));
            }
        }
    }
}

/// Where several registrations name a definition, the table holds the
/// function of the last of them.
pub proof fn lemma_last_registration_wins<F>(defs: Seq<ExternalDef<F>>, key: DefinitionKey, i: int)
    requires
        last_registered_at(defs, i, key),
    ensures
        registry_map(defs).dom().contains(key),
        registry_map(defs)[key] == defs[i].f,
        registry_lookup(defs, key) == Some(defs[i].f),
    decreases defs.len(),
{
    let n = defs.len() - 1;
    let init = defs.drop_last();
    if i < n {
        assert(defs[n].path@ != key);
        assert forall|j: int| i < j < init.len() implies init[j].path@ != key by {
            assert(defs[j].path@ != key);
        }
        lemma_last_registration_wins(init, key, i);
    }
}

/// A definition that no registration names is not found.
pub proof fn lemma_unregistered_not_found<F>(defs: Seq<ExternalDef<F>>, key: DefinitionKey)
    requires
        forall|i: int| 0 <= i < defs.len() ==> defs[i].path@ != key,
    ensures
        registry_lookup(defs, key) is None,
{
    lemma_registered_iff_named(defs, key);
}

} // verus!
