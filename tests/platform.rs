use setup_protoc::config::{Config, ConfigError};
use setup_protoc::platform::{arch_warning, get_file_name, is_usual_arch, locate, OsPlat};
use setup_protoc::version::SemVersion;

fn args(list: &[&str]) -> Vec<String> {
    list.iter().map(|s| s.to_string()).collect()
}

#[test]
fn locate_linux_artifact() {
    let v = SemVersion::parse("3.20.2").unwrap();
    let a = locate(v, OsPlat::Linux, "x86_64");
    assert_eq!(a.file_name, "protoc-3.20.2-linux-x86_64.zip");
    assert_eq!(
        a.url,
        "https://github.com/protocolbuffers/protobuf/releases/download/v3.20.2/protoc-3.20.2-linux-x86_64.zip"
    );
    assert_eq!(a.version.to_text(), "3.20.2");
}

#[test]
fn locate_is_repeatable() {
    let a = locate(SemVersion::parse("3.20.2").unwrap(), OsPlat::Darwin, "aarch_64");
    let b = locate(SemVersion::parse("3.20.2").unwrap(), OsPlat::Darwin, "aarch_64");
    assert_eq!(a.file_name, b.file_name);
    assert_eq!(a.url, b.url);
}

#[test]
fn file_names_per_platform() {
    let v = SemVersion::parse("21.6.0").unwrap();
    assert_eq!(get_file_name(&v, OsPlat::Windows, "64"), "protoc-21.6.0-win64.zip");
    assert_eq!(get_file_name(&v, OsPlat::Darwin, "x86_64"), "protoc-21.6.0-osx-x86_64.zip");
    assert_eq!(get_file_name(&v, OsPlat::Linux, "s390_64"), "protoc-21.6.0-linux-s390_64.zip");
}

#[test]
fn unusual_architecture_gets_advice() {
    assert_eq!(arch_warning("64", OsPlat::Windows), None);
    assert_eq!(arch_warning("ppcle_64", OsPlat::Linux), None);
    assert_eq!(
        arch_warning("x86_64", OsPlat::Windows).unwrap(),
        "warning: x86_64 is an unusual architecture, I suggest one of [\"32\", \"64\"]"
    );
    assert_eq!(
        arch_warning("arm", OsPlat::Darwin).unwrap(),
        "warning: arm is an unusual architecture, I suggest one of [\"aarch_64\", \"x86_64\"]"
    );
    assert!(is_usual_arch("x86_32", OsPlat::Linux));
    assert!(!is_usual_arch("x86_32", OsPlat::Darwin));
}

#[test]
fn platform_names() {
    assert_eq!(OsPlat::from_name("windows"), Some(OsPlat::Windows));
    assert_eq!(OsPlat::from_name("darwin"), Some(OsPlat::Darwin));
    assert_eq!(OsPlat::from_name("linux"), Some(OsPlat::Linux));
    assert_eq!(OsPlat::from_name("Linux"), None);
    assert_eq!(OsPlat::from_name("solaris"), None);
    assert_eq!("darwin".parse::<OsPlat>().unwrap(), OsPlat::Darwin);
    assert!(matches!("bsd".parse::<OsPlat>(), Err(ConfigError::UnsupportedOs(_))));
}

#[test]
fn config_from_full_arguments() {
    let c = Config::from_args(&args(&["v3.20.x", "true", "tok", "x86_64", "linux"])).unwrap();
    assert_eq!(c.tag, "v3.20.x");
    assert!(c.include_pre_releases);
    assert_eq!(c.repo_token, "tok");
    assert_eq!(c.os_arch, "x86_64");
    assert_eq!(c.os_plat, OsPlat::Linux);
    let c = Config::from_args(&args(&["v21.6", "false", "", "64", "windows"])).unwrap();
    assert!(!c.include_pre_releases);
}

#[test]
fn config_errors() {
    assert!(matches!(Config::from_args(&args(&[])), Err(ConfigError::MissingArg(1))));
    assert!(matches!(Config::from_args(&args(&[""])), Err(ConfigError::EmptyTag)));
    assert!(matches!(
        Config::from_args(&args(&["v3", "true", "t"])),
        Err(ConfigError::MissingArg(4))
    ));
    match Config::from_args(&args(&["v3", "true", "t", "x86_64", "plan9"])) {
        Err(ConfigError::UnsupportedOs(s)) => assert_eq!(s, "plan9"),
        other => panic!("unexpected {:?}", other),
    }
}
