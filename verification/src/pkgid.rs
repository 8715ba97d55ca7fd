use vstd::prelude::*;

verus! {

/// The packages that ship with the runtime itself.
#[derive(Clone, Copy, Debug, PartialEq, Eq, Structural, PartialOrd, Ord, Hash)]
pub enum BuiltinPackage {
    Core,
    Basic,
    Mpsc,
}

/// The name under which a builtin package is written in source code.
pub open spec fn builtin_name(p: BuiltinPackage) -> Seq<char> {
    match p {
        BuiltinPackage::Core => seq!['c', 'o', 'r', 'e'],
        BuiltinPackage::Basic => seq!['b', 'a', 's', 'i', 'c'],
        BuiltinPackage::Mpsc => seq!['m', 'p', 's', 'c'],
    }
}

/// The builtin package that a name denotes, if any.
pub open spec fn builtin_from_name(s: Seq<char>) -> Option<BuiltinPackage> {
    if s == builtin_name(BuiltinPackage::Core) {
        Some(BuiltinPackage::Core)
    } else if s == builtin_name(BuiltinPackage::Basic) {
        Some(BuiltinPackage::Basic)
    } else if s == builtin_name(BuiltinPackage::Mpsc) {
        Some(BuiltinPackage::Mpsc)
    } else {
        None
    }
}

/// Compares two string slices character by character.
pub fn str_eq(a: &str, b: &str) -> (r: bool)
    ensures
        r == (a@ == b@),
{
    let x: String = a.to_owned();
    let y: String = b.to_owned();
    x == y
}

impl BuiltinPackage {
    /// Every builtin package, each listed once.
    pub fn all() -> (r: Vec<BuiltinPackage>)
        ensures
            r@ == seq![BuiltinPackage::Core, BuiltinPackage::Basic, BuiltinPackage::Mpsc],
    {
        let mut v: Vec<BuiltinPackage> = Vec::new();
        v.push(BuiltinPackage::Core);
        v.push(BuiltinPackage::Basic);
        v.push(BuiltinPackage::Mpsc);
        v
    }

    /// Parses the source-level name of a builtin package.
    pub fn from_str(s: &str) -> (r: Option<BuiltinPackage>)
        ensures
            r == builtin_from_name(s@),
    {
        proof {
            reveal_strlit("core");
            reveal_strlit("basic");
            reveal_strlit("mpsc");
            assert("core"@ =~= builtin_name(BuiltinPackage::Core));
            assert("basic"@ =~= builtin_name(BuiltinPackage::Basic));
            assert("mpsc"@ =~= builtin_name(BuiltinPackage::Mpsc));
        }
        if str_eq(s, "core") {
            Some(BuiltinPackage::Core)
        } else if str_eq(s, "basic") {
            Some(BuiltinPackage::Basic)
        } else if str_eq(s, "mpsc") {
            Some(BuiltinPackage::Mpsc)
        } else {
            None
        }
    }

    /// The source-level name of the package.
    pub fn as_str(self) -> (r: &'static str)
        ensures
            r@ == builtin_name(self),
    {
        match self {
            BuiltinPackage::Core => {
                proof {
                    reveal_strlit("core");
                    assert("core"@ =~= builtin_name(BuiltinPackage::Core));
                }
                "core"
            },
            BuiltinPackage::Basic => {
                proof {
                    reveal_strlit("basic");
                    assert("basic"@ =~= builtin_name(BuiltinPackage::Basic));
                }
                "basic"
            },
            BuiltinPackage::Mpsc => {
                proof {
                    reveal_strlit("mpsc");
                    assert("mpsc"@ =~= builtin_name(BuiltinPackage::Mpsc));
                }
                "mpsc"
            },
        }
    }

    /// The text that the package is displayed as: its name.
    pub fn display_string(self) -> (r: String)
        ensures
            r@ == builtin_name(self),
    {
        self.as_str().to_owned()
    }
}

/// Parsing the name of a builtin package gives the package back.
pub proof fn lemma_builtin_name_roundtrip(p: BuiltinPackage)
    ensures
        builtin_from_name(builtin_name(p)) == Some(p),
{
    assert(builtin_name(BuiltinPackage::Core) != builtin_name(BuiltinPackage::Basic)) by {
        assert(builtin_name(BuiltinPackage::Core).len() != builtin_name(BuiltinPackage::Basic).len());
    }
    assert(builtin_name(BuiltinPackage::Core) != builtin_name(BuiltinPackage::Mpsc)) by {
        assert(builtin_name(BuiltinPackage::Core)[0] != builtin_name(BuiltinPackage::Mpsc)[0]);
    }
    assert(builtin_name(BuiltinPackage::Basic) != builtin_name(BuiltinPackage::Mpsc)) by {
        assert(builtin_name(BuiltinPackage::Basic).len() != builtin_name(BuiltinPackage::Mpsc).len());
    }
}

/// A name parses to a builtin package exactly when it is that package's name,
/// so no two packages share a name.
pub proof fn lemma_builtin_from_name_inverse(s: Seq<char>, p: BuiltinPackage)
    ensures
        builtin_from_name(s) == Some(p) <==> s == builtin_name(p),
{
    lemma_builtin_name_roundtrip(p);
}

/// The identity of a package: a builtin one, or one named by a path.
#[derive(Clone, Debug, Hash, PartialEq, Eq, PartialOrd, Ord)]
pub enum PackageId {
    Builtin(BuiltinPackage),
    Special(String),
    Local(String),
    Remote(String),
}

impl PackageId {
    /// The name of the package: a builtin's name, or the path it carries.
    pub open spec fn name_view(&self) -> Seq<char> {
        match self {
            PackageId::Builtin(p) => builtin_name(*p),
            PackageId::Special(s) => s@,
            PackageId::Local(s) => s@,
            PackageId::Remote(s) => s@,
        }
    }

    /// Whether the package is one that a user writes: local or remote.
    pub open spec fn is_regular_view(&self) -> bool {
        self is Local || self is Remote
    }

    /// The path of a local package.
    pub open spec fn local_path_view(&self) -> Option<Seq<char>> {
        match self {
            PackageId::Local(s) => Some(s@),
            _ => None,
        }
    }

    /// The path of a remote package.
    pub open spec fn remote_path_view(&self) -> Option<Seq<char>> {
        match self {
            PackageId::Remote(s) => Some(s@),
            _ => None,
        }
    }

    pub fn name(&self) -> (r: &str)
        ensures
            r@ == self.name_view(),
            match self {
                PackageId::Builtin(p) => r@ == builtin_name(*p) && builtin_from_name(r@) == Some(*p),
                PackageId::Special(s) => r@ == s@,
                PackageId::Local(s) => r@ == s@,
                PackageId::Remote(s) => r@ == s@,
            },
    {
        match self {
            PackageId::Builtin(p) => p.as_str(),
            PackageId::Special(s) => s.as_str(),
            PackageId::Local(s) => s.as_str(),
            PackageId::Remote(s) => s.as_str(),
        }
    }

    pub fn is_regular(&self) -> (r: bool)
        ensures
            r == self.is_regular_view(),
    {
        match self {
            PackageId::Local(_) => true,
            PackageId::Remote(_) => true,
            _ => false,
        }
    }

    pub fn local_path(&self) -> (r: Option<&str>)
        ensures
            match r {
                Some(p) => self.local_path_view() == Some(p@),
                None => self.local_path_view() is None,
            },
    {
        match self {
            PackageId::Local(s) => Some(s.as_str()),
            _ => None,
        }
    }

    pub fn remote_path(&self) -> (r: Option<&str>)
        ensures
            match r {
                Some(p) => self.remote_path_view() == Some(p@),
                None => self.remote_path_view() is None,
            },
    {
        match self {
            PackageId::Remote(s) => Some(s.as_str()),
            _ => None,
        }
    }

    /// The text that the package is displayed as: `@` and its name.
    pub fn display_string(&self) -> (r: String)
        ensures
            r@ == seq!['@'] + self.name_view(),
    {
        let mut out: String = "@".to_owned();
        proof {
            reveal_strlit("@");
        }
        out.append(self.name());
        out
    }
}

/// A builtin package's id is named by the package's own source-level name
/// ("core", "basic", "mpsc"), displayed with `@` before it; a path-named
/// id is named by its path.
pub proof fn lemma_package_names(p: BuiltinPackage, s: String)
    ensures
        PackageId::Builtin(p).name_view() == builtin_name(p),
        PackageId::Builtin(BuiltinPackage::Core).name_view() == seq!['c', 'o', 'r', 'e'],
        PackageId::Builtin(BuiltinPackage::Basic).name_view() == seq!['b', 'a', 's', 'i', 'c'],
        PackageId::Builtin(BuiltinPackage::Mpsc).name_view() == seq!['m', 'p', 's', 'c'],
        PackageId::Special(s).name_view() == s@,
        PackageId::Local(s).name_view() == s@,
        PackageId::Remote(s).name_view() == s@,
        builtin_from_name(PackageId::Builtin(p).name_view()) == Some(p),
{
    lemma_builtin_name_roundtrip(p);
}

/// A package is regular exactly when it has a local or a remote path.
pub proof fn lemma_regular_has_path(id: PackageId)
    ensures
        id.is_regular_view() <==> (id.local_path_view() is Some || id.remote_path_view() is Some),
{
}

} // verus!
