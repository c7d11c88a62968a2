use pdmake::config::{Config, Directories};
use pdmake::errors::BuildError;
use pdmake::manifest::{manifest_path, manifest_text};
use pdmake::registry::{default_registry, ProcessorKind, Registry};

fn full_document() -> Result<Config, BuildError> {
    Config::from_document(
        Some("X".to_string()),
        Some("Y".to_string()),
        Some("D".to_string()),
        Some("com.z.x".to_string()),
        Some("1.0".to_string()),
        None,
        None,
        None,
        Vec::new(),
        Vec::new(),
        None,
    )
}

#[test]
fn directories_default_when_absent() {
    let d = Directories::from_options(None, None, None);
    assert_eq!(d.src, "src");
    assert_eq!(d.assets, "assets");
    assert_eq!(d.target, "target");
    let d = Directories::default();
    assert_eq!((d.src.as_str(), d.assets.as_str(), d.target.as_str()), ("src", "assets", "target"));
    let d = Directories::from_options(Some("s".to_string()), None, Some("out".to_string()));
    assert_eq!((d.src.as_str(), d.assets.as_str(), d.target.as_str()), ("s", "assets", "out"));
}

#[test]
fn document_requires_the_five_descriptive_fields() {
    let config = full_document().unwrap();
    assert_eq!(config.name, "X");
    assert_eq!(config.author, "Y");
    assert_eq!(config.bundle_id, "com.z.x");
    assert_eq!(config.version, "1.0");
    assert_eq!(config.directories.src, "src");

    let missing = Config::from_document(
        Some("X".to_string()),
        None,
        Some("D".to_string()),
        Some("com.z.x".to_string()),
        Some("1.0".to_string()),
        None,
        None,
        None,
        Vec::new(),
        Vec::new(),
        None,
    );
    match missing {
        Err(BuildError::Config { message }) => {
            assert_eq!(message, "missing required field: author")
        }
        _ => panic!("a missing author must be a configuration error"),
    }
}

#[test]
fn manifest_holds_exactly_the_config_fields_and_build_number() {
    let config = full_document().unwrap();
    let text = manifest_text(&config);
    assert_eq!(
        text,
        "name=X\nauthor=Y\ndescription=D\nbundleID=com.z.x\nversion=1.0\nbuildNumber=1\n"
    );
    assert_eq!(manifest_path("target/debug"), "target/debug/pdxinfo");
}

#[test]
fn error_reports_carry_their_context() {
    let e = BuildError::Config { message: "missing required field: name".to_string() };
    assert_eq!(e.text(), "configuration error: missing required field: name");
    let e = BuildError::Io { path: "target/debug".to_string(), message: "denied".to_string() };
    assert_eq!(e.text(), "i/o error at target/debug: denied");
    let e = BuildError::Processor { path: "a.plua".to_string(), message: "boom".to_string() };
    assert_eq!(e.text(), "processor error at a.plua: boom");
    let e = BuildError::Packaging { message: "bad tree".to_string() };
    assert_eq!(e.text(), "packaging error: bad tree");
}

#[test]
fn registry_lookup_is_case_normalized() {
    let registry = default_registry();
    assert_eq!(registry.lookup("ase"), Some(ProcessorKind::Image));
    assert_eq!(registry.lookup("ASE"), Some(ProcessorKind::Image));
    assert_eq!(registry.lookup("Aseprite"), Some(ProcessorKind::Image));
    assert_eq!(registry.lookup("plua"), Some(ProcessorKind::Metaprogram));
    assert_eq!(registry.lookup("PlUa"), Some(ProcessorKind::Metaprogram));
    assert_eq!(registry.lookup("txt"), None);
    assert_eq!(registry.lookup(""), None);
}

#[test]
fn registering_overwrites_the_same_extension() {
    let mut registry = Registry::empty();
    registry.register("wav".to_string(), ProcessorKind::Copy);
    assert_eq!(registry.lookup("wav"), Some(ProcessorKind::Copy));
    registry.register("wav".to_string(), ProcessorKind::Image);
    assert_eq!(registry.lookup("WAV"), Some(ProcessorKind::Image));
    assert_eq!(registry.lookup("ogg"), None);
}

#[test]
fn parse() {
    let config = Config::from_document(
        Some("PDMake Example".to_string()),
        Some("John Playdate".to_string()),
        Some("Example pdmake project".to_string()),
        Some("com.pdmake.Example".to_string()),
        Some("1.0".to_string()),
        Some("alt_source".to_string()),
        None,
        Some("alt_target".to_string()),
        Vec::new(),
        Vec::new(),
        None,
    )
    .unwrap();

    assert_eq!(config.name, "PDMake Example");
    assert_eq!(config.author, "John Playdate");
    assert_eq!(config.description, "Example pdmake project");
    assert_eq!(config.bundle_id, "com.pdmake.Example");
    assert_eq!(config.version, "1.0");
    assert_eq!(config.directories.src, "alt_source");
    assert_eq!(config.directories.target, "alt_target");
}

#[test]
fn parse_defaults() {
    let config = Config::from_document(
        Some("PDMake Example".to_string()),
        Some("John Playdate".to_string()),
        Some("Example pdmake project".to_string()),
        Some("com.pdmake.Example".to_string()),
        Some("1.0".to_string()),
        None,
        None,
        None,
        Vec::new(),
        Vec::new(),
        None,
    )
    .unwrap();

    assert_eq!(config.name, "PDMake Example");
    assert_eq!(config.author, "John Playdate");
    assert_eq!(config.description, "Example pdmake project");
    assert_eq!(config.bundle_id, "com.pdmake.Example");
    assert_eq!(config.version, "1.0");
    assert_eq!(config.directories.src, "src");
    assert_eq!(config.directories.target, "target");
}
