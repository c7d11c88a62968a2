use pdmake::builder::{
    aseprite_args, copy_processor, dir_create_outcome, next_stage, packager_args,
    packager_outcome, tool_outcome, BuildMode, BuildStage, DirCreation, PDBuild,
};
use pdmake::config::{Config, Directories};
use pdmake::errors::BuildError;
use pdmake::registry::ProcessorKind;

fn sample_config() -> Config {
    Config {
        name: "Example".to_string(),
        author: "Someone".to_string(),
        description: "An example project".to_string(),
        bundle_id: "com.example.game".to_string(),
        version: "1.0".to_string(),
        directories: Directories::from_options(Some("source".to_string()), None, None),
        environment: Vec::new(),
        dependencies: Vec::new(),
        aseprite_path: None,
    }
}

#[test]
fn output_roots_follow_mode_and_bundle() {
    let config = sample_config();
    let debug = PDBuild::new(&config, BuildMode::Debug);
    assert_eq!(debug.build_dir, "target/debug");
    assert_eq!(debug.pdx_dir, "target/com.example.game.pdx");
    assert_eq!(debug.src_dir, "source");
    let release = PDBuild::new(&config, BuildMode::Release);
    assert_eq!(release.build_dir, "target/release");
}

#[test]
fn mirrors_paths_with_processor_extensions() {
    let config = sample_config();
    let build = PDBuild::new(&config, BuildMode::Debug);

    let meta = build.plan_source("source/a/b/c.plua").unwrap();
    assert_eq!(meta.kind, ProcessorKind::Metaprogram);
    assert_eq!(meta.dest, "target/debug/a/b/c.lua");
    assert_eq!(meta.dest_parent, "target/debug/a/b");

    let image = build.plan_source("source/sprites/hero.ase").unwrap();
    assert_eq!(image.kind, ProcessorKind::Image);
    assert_eq!(image.dest, "target/debug/sprites/hero.png");

    let image2 = build.plan_source("source/sprites/hero.aseprite").unwrap();
    assert_eq!(image2.kind, ProcessorKind::Image);
    assert_eq!(image2.dest, "target/debug/sprites/hero.png");

    let lookup_is_case_normalized = build.plan_source("source/UPPER.PLUA").unwrap();
    assert_eq!(lookup_is_case_normalized.kind, ProcessorKind::Metaprogram);
    assert_eq!(lookup_is_case_normalized.dest, "target/debug/UPPER.lua");
}

#[test]
fn unrecognized_extension_falls_back_to_copy_unchanged() {
    let config = sample_config();
    let build = PDBuild::new(&config, BuildMode::Debug);
    let plan = build.plan_source("source/raw/noise.wav").unwrap();
    assert_eq!(plan.kind, ProcessorKind::Copy);
    assert_eq!(plan.dest, "target/debug/raw/noise.wav");
    let bare = build.plan_source("source/LICENSE").unwrap();
    assert_eq!(bare.kind, ProcessorKind::Copy);
    assert_eq!(bare.dest, "target/debug/LICENSE");
}

#[test]
fn file_outside_source_root_fails_the_walk() {
    let config = sample_config();
    let build = PDBuild::new(&config, BuildMode::Debug);
    assert!(matches!(
        build.plan_source("elsewhere/a.lua"),
        Err(BuildError::Io { .. })
    ));
    let sources = vec!["source/ok.lua".to_string(), "elsewhere/bad.lua".to_string()];
    assert!(build.build(&sources).is_err());
}

#[test]
fn walk_plans_every_file_in_order() {
    let config = sample_config();
    let build = PDBuild::new(&config, BuildMode::Release);
    let sources = vec![
        "source/main.lua".to_string(),
        "source/gen.plua".to_string(),
        "source/img.ase".to_string(),
    ];
    let plans = build.build(&sources).unwrap();
    assert_eq!(plans.len(), 3);
    assert_eq!(plans[0].dest, "target/release/main.lua");
    assert_eq!(plans[1].dest, "target/release/gen.lua");
    assert_eq!(plans[2].dest, "target/release/img.png");
}

#[test]
fn copy_processor_is_byte_identical() {
    let data = vec![0u8, 1, 2, 255, 254];
    assert_eq!(copy_processor(data.clone()), data);
}

#[test]
fn stages_advance_in_order_and_abort_on_failure() {
    let s0 = BuildStage::EnsureOutputRoot;
    let s1 = next_stage(s0, true);
    assert_eq!(s1, BuildStage::WalkTree);
    let s2 = next_stage(s1, true);
    assert_eq!(s2, BuildStage::EmitManifest);
    let s3 = next_stage(s2, true);
    assert_eq!(s3, BuildStage::InvokePackager);
    let s4 = next_stage(s3, true);
    assert_eq!(s4, BuildStage::Done);
    assert_eq!(next_stage(s4, false), BuildStage::Done);

    assert_eq!(next_stage(BuildStage::WalkTree, false), BuildStage::Aborted);
    assert_eq!(next_stage(BuildStage::Aborted, true), BuildStage::Aborted);
}

#[test]
fn creating_an_existing_directory_is_not_an_error() {
    assert!(dir_create_outcome("target/debug", DirCreation::AlreadyExists).is_ok());
    assert!(dir_create_outcome("target/debug", DirCreation::Created).is_ok());
    let failed = dir_create_outcome(
        "target/debug",
        DirCreation::Failed {
            message: "permission denied".to_string(),
        },
    );
    assert!(matches!(failed, Err(BuildError::Io { .. })));
}

#[test]
fn external_tool_argument_lists() {
    let a = aseprite_args("source/img.ase", "target/debug/img.png");
    assert_eq!(a, vec!["-b", "source/img.ase", "--save-as", "target/debug/img.png"]);
    let p = packager_args("target/debug", "target/com.example.game.pdx");
    assert_eq!(p, vec!["-q", "target/debug", "target/com.example.game.pdx"]);
}

#[test]
fn nonzero_exits_abort_with_diagnostics() {
    assert!(tool_outcome("source/img.ase", true, "").is_ok());
    match tool_outcome("source/img.ase", false, "cannot open file") {
        Err(BuildError::Processor { path, message }) => {
            assert_eq!(path, "source/img.ase");
            assert_eq!(message, "cannot open file");
        }
        other => panic!("expected a processor error, got {:?}", other.is_ok()),
    }
    assert!(packager_outcome(true, "").is_ok());
    match packager_outcome(false, "bad tree") {
        Err(BuildError::Packaging { message }) => assert_eq!(message, "bad tree"),
        other => panic!("expected a packaging error, got {:?}", other.is_ok()),
    }
}

#[test]
fn mode_directory_names() {
    assert_eq!(BuildMode::Debug.dir_name(), "debug");
    assert_eq!(BuildMode::Release.dir_name(), "release");
    assert!(BuildMode::Debug.is_debug());
    assert!(!BuildMode::Release.is_debug());
}
