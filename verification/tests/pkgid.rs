use par_runtime::pkgid::{BuiltinPackage, PackageId};

#[test]
fn builtin_names_round_trip() {
    for p in BuiltinPackage::all() {
        assert_eq!(BuiltinPackage::from_str(p.as_str()), Some(p));
    }
}

#[test]
fn builtin_as_str_values() {
    assert_eq!(BuiltinPackage::Core.as_str(), "core");
    assert_eq!(BuiltinPackage::Basic.as_str(), "basic");
    assert_eq!(BuiltinPackage::Mpsc.as_str(), "mpsc");
}

#[test]
fn builtin_from_str_known_and_unknown() {
    assert_eq!(BuiltinPackage::from_str("core"), Some(BuiltinPackage::Core));
    assert_eq!(BuiltinPackage::from_str("basic"), Some(BuiltinPackage::Basic));
    assert_eq!(BuiltinPackage::from_str("mpsc"), Some(BuiltinPackage::Mpsc));
    assert_eq!(BuiltinPackage::from_str("Core"), None);
    assert_eq!(BuiltinPackage::from_str(""), None);
    assert_eq!(BuiltinPackage::from_str("cor"), None);
    assert_eq!(BuiltinPackage::from_str("mpsc "), None);
}

#[test]
fn builtin_all_lists_each_once() {
    assert_eq!(
        BuiltinPackage::all(),
        vec![BuiltinPackage::Core, BuiltinPackage::Basic, BuiltinPackage::Mpsc]
    );
}

#[test]
fn builtin_display() {
    assert_eq!(BuiltinPackage::Mpsc.display_string(), "mpsc");
}

#[test]
fn package_id_names() {
    assert_eq!(PackageId::Builtin(BuiltinPackage::Basic).name(), "basic");
    assert_eq!(PackageId::Special("special".to_string()).name(), "special");
    assert_eq!(PackageId::Local("./pkg".to_string()).name(), "./pkg");
    assert_eq!(PackageId::Remote("github.com/x/y".to_string()).name(), "github.com/x/y");
}

#[test]
fn package_id_regular_and_paths() {
    let builtin = PackageId::Builtin(BuiltinPackage::Core);
    let special = PackageId::Special("s".to_string());
    let local = PackageId::Local("here".to_string());
    let remote = PackageId::Remote("there".to_string());
    assert!(!builtin.is_regular());
    assert!(!special.is_regular());
    assert!(local.is_regular());
    assert!(remote.is_regular());
    assert_eq!(local.local_path(), Some("here"));
    assert_eq!(local.remote_path(), None);
    assert_eq!(remote.remote_path(), Some("there"));
    assert_eq!(remote.local_path(), None);
    assert_eq!(builtin.local_path(), None);
    assert_eq!(special.remote_path(), None);
}

#[test]
fn package_id_display() {
    assert_eq!(PackageId::Builtin(BuiltinPackage::Core).display_string(), "@core");
    assert_eq!(PackageId::Local("a/b".to_string()).display_string(), "@a/b");
}
