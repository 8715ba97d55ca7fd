use par_runtime::pkgid::BuiltinPackage;
use par_runtime::registry::{
    get_external_fn, same_definition, DefinitionRef, ExternalDef, PackageRef, Registry,
};

fn def(package: PackageRef<'static>, path: &'static [&'static str], module: &'static str, name: &'static str) -> DefinitionRef<'static> {
    DefinitionRef { package, path, module, name }
}

#[test]
fn builtin_package_refs() {
    assert_eq!(PackageRef::core_package(), PackageRef::Builtin(BuiltinPackage::Core));
    assert_eq!(PackageRef::basic_package(), PackageRef::Builtin(BuiltinPackage::Basic));
    assert_eq!(PackageRef::mpsc_package(), PackageRef::Builtin(BuiltinPackage::Mpsc));
}

#[test]
fn registered_function_is_found() {
    let new = def(PackageRef::mpsc_package(), &[], "Mailbox", "New");
    let print = def(PackageRef::core_package(), &["Debug"], "Console", "Print");
    let registry = Registry::new(vec![
        ExternalDef { path: new, f: 1u32 },
        ExternalDef { path: print, f: 2u32 },
    ]);
    assert_eq!(registry.len(), 2);
    assert_eq!(get_external_fn(&registry, &new), Some(1));
    assert_eq!(get_external_fn(&registry, &print), Some(2));
}

#[test]
fn lookup_compares_names_not_addresses() {
    let registry = Registry::new(vec![ExternalDef {
        path: def(PackageRef::Local("pkg"), &["a", "b"], "M", "f"),
        f: 7u32,
    }]);
    let owned_module = String::from("M");
    let owned_pkg = String::from("pkg");
    let seg_a = String::from("a");
    let seg_b = String::from("b");
    let path = [seg_a.as_str(), seg_b.as_str()];
    let query = DefinitionRef {
        package: PackageRef::Local(owned_pkg.as_str()),
        path: &path,
        module: owned_module.as_str(),
        name: "f",
    };
    assert_eq!(get_external_fn(&registry, &query), Some(7));
}

#[test]
fn unregistered_definition_is_missing() {
    let registry = Registry::new(vec![ExternalDef {
        path: def(PackageRef::mpsc_package(), &[], "Mailbox", "New"),
        f: 1u32,
    }]);
    assert_eq!(get_external_fn(&registry, &def(PackageRef::mpsc_package(), &[], "Mailbox", "Old")), None);
    assert_eq!(get_external_fn(&registry, &def(PackageRef::basic_package(), &[], "Mailbox", "New")), None);
    assert_eq!(get_external_fn(&registry, &def(PackageRef::mpsc_package(), &["x"], "Mailbox", "New")), None);
    assert_eq!(get_external_fn(&registry, &def(PackageRef::Special("mpsc"), &[], "Mailbox", "New")), None);
    let empty: Registry<u32> = Registry::new(vec![]);
    assert_eq!(get_external_fn(&empty, &def(PackageRef::mpsc_package(), &[], "Mailbox", "New")), None);
}

#[test]
fn last_registration_wins() {
    let key = def(PackageRef::Remote("r"), &[], "M", "g");
    let other = def(PackageRef::Remote("r"), &[], "M", "h");
    let registry = Registry::new(vec![
        ExternalDef { path: key, f: 1u32 },
        ExternalDef { path: other, f: 2u32 },
        ExternalDef { path: key, f: 3u32 },
    ]);
    assert_eq!(get_external_fn(&registry, &key), Some(3));
    assert_eq!(get_external_fn(&registry, &other), Some(2));
}

#[test]
fn definition_equality() {
    let a = def(PackageRef::Local("p"), &["x"], "M", "n");
    let b = def(PackageRef::Local("p"), &["x"], "M", "n");
    let c = def(PackageRef::Remote("p"), &["x"], "M", "n");
    let d = def(PackageRef::Local("p"), &["x", "y"], "M", "n");
    assert!(same_definition(&a, &b));
    assert!(!same_definition(&a, &c));
    assert!(!same_definition(&a, &d));
}
