//! The build orchestrator. A build is linear: ensure the output root, walk
//! the source tree, emit the manifest, invoke the packager; a failure at any
//! stage aborts the remaining ones. For each file of the walk the orchestrator
//! derives the destination path by stripping the source-root prefix and
//! re-rooting under `<target>/<mode>`, resolves a processor by extension
//! (falling back to a byte copy), and ensures the destination's parent
//! directory exists before the processor writes.

use vstd::prelude::*;
use vstd::string::*;
use crate::config::Config;
use crate::errors::BuildError;
use crate::paths::{
    join,
    join_spec,
    parent_dir,
    parent_spec,
    strip_prefix,
    strip_prefix_spec,
    with_extension,
    with_extension_spec,
    extension_of,
    extension_spec,
};
use crate::registry::{default_registry, code_points, folded, ProcessorKind, Registry};

verus! {

/// The build flavor: it selects the output subdirectory, it is injected into
/// the metaprogram execution context as a boolean flag, and it decides
/// whether a failing metaprogram leaves a diagnostic artifact.
#[derive(Clone, Copy, PartialEq, Eq, Structural, Debug)]
pub enum BuildMode {
    Debug,
    Release,
}

impl BuildMode {
    /// The output subdirectory name for this mode.
    pub open spec fn dir_name_spec(self) -> Seq<char> {
        match self {
            BuildMode::Debug => "debug"@,
            BuildMode::Release => "release"@,
        }
    }

    /// The output subdirectory for this mode.
    pub fn dir_name(&self) -> (r: &'static str)
        ensures
            r@ == self.dir_name_spec(),
    {
        match self {
            BuildMode::Debug => "debug",
            BuildMode::Release => "release",
        }
    }

    /// The flag value handed to the metaprogram execution context.
    pub fn is_debug(&self) -> (r: bool)
        ensures
            r == (*self is Debug),
    {
        match self {
            BuildMode::Debug => true,
            BuildMode::Release => false,
        }
    }
}

/// The stages of one build, in order.
#[derive(Clone, Copy, PartialEq, Eq, Structural, Debug)]
pub enum BuildStage {
    EnsureOutputRoot,
    WalkTree,
    EmitManifest,
    InvokePackager,
    Done,
    Aborted,
}

/// Where the build goes after `stage` ends with or without success: on
/// success to the next stage in order, on failure straight to `Aborted` —
/// a terminal failure aborts every remaining stage.
pub open spec fn next_stage_spec(stage: BuildStage, succeeded: bool) -> BuildStage {
    if stage is Done || stage is Aborted {
        stage
    } else if !succeeded {
        BuildStage::Aborted
    } else {
        match stage {
            BuildStage::EnsureOutputRoot => BuildStage::WalkTree,
            BuildStage::WalkTree => BuildStage::EmitManifest,
            BuildStage::EmitManifest => BuildStage::InvokePackager,
            BuildStage::InvokePackager => BuildStage::Done,
            _ => stage,
        }
    }
}

/// Advances the build's linear state machine by one stage outcome.
pub fn next_stage(stage: BuildStage, succeeded: bool) -> (r: BuildStage)
    ensures
        r == next_stage_spec(stage, succeeded),
{
    match stage {
        BuildStage::Done => BuildStage::Done,
        BuildStage::Aborted => BuildStage::Aborted,
        _ => {
            if !succeeded {
                BuildStage::Aborted
            } else {
                match stage {
                    BuildStage::EnsureOutputRoot => BuildStage::WalkTree,
                    BuildStage::WalkTree => BuildStage::EmitManifest,
                    BuildStage::EmitManifest => BuildStage::InvokePackager,
                    BuildStage::InvokePackager => BuildStage::Done,
                    BuildStage::Done => BuildStage::Done,
                    BuildStage::Aborted => BuildStage::Aborted,
                }
            }
        },
    }
}

/// How the filesystem answered a directory-creation attempt.
pub enum DirCreation {
    /// The directory was created.
    Created,
    /// The directory was already there.
    AlreadyExists,
    /// Any other failure, with the reported text.
    Failed { message: String },
}

/// Interprets a directory-creation outcome. Creation is idempotent: an
/// already existing output directory is never an error; any other creation
/// failure is fatal, with the path attached.
pub fn dir_create_outcome(path: &str, outcome: DirCreation) -> (r: Result<(), BuildError>)
    ensures
        r is Ok <==> !(outcome is Failed),
        outcome is AlreadyExists ==> r is Ok,
        r matches Err(e) ==> (e matches BuildError::Io { path: p, message: m } && p@ == path@
            && (outcome matches DirCreation::Failed { message } && m == message)),
{
    match outcome {
        DirCreation::Created => Ok(()),
        DirCreation::AlreadyExists => Ok(()),
        DirCreation::Failed { message } => Err(
            BuildError::Io { path: String::from_str(path), message },
        ),
    }
}

/// The processor the stock registry resolves for a file: by its extension,
/// case-normalized; a file without an extension, or with an unregistered one,
/// falls back to the byte copy.
pub open spec fn stock_processor(ext: Option<Seq<char>>) -> ProcessorKind {
    match ext {
        Some(e) => if folded(e) == code_points("ase"@) || folded(e) == code_points("aseprite"@) {
            ProcessorKind::Image
        } else if folded(e) == code_points("plua"@) {
            ProcessorKind::Metaprogram
        } else {
            ProcessorKind::Copy
        },
        None => ProcessorKind::Copy,
    }
}

/// The relative destination path for a source file relative path: the
/// processor may substitute the final extension, and the stem and the
/// directories always survive.
pub open spec fn rewritten_rel(rel: Seq<char>, kind: ProcessorKind) -> Seq<char> {
    match kind {
        ProcessorKind::Copy => rel,
        ProcessorKind::Image => with_extension_spec(rel, "png"@),
        ProcessorKind::Metaprogram => with_extension_spec(rel, "lua"@),
    }
}

/// The per-file decision of the walk: which processor runs and where its one
/// output artifact goes.
pub struct FilePlan {
    /// The processor resolved for the file.
    pub kind: ProcessorKind,
    /// The destination path under the output root.
    pub dest: String,
    /// The directory that must exist before the output is written.
    pub dest_parent: String,
}

/// The build orchestrator for one configuration and mode.
pub struct PDBuild {
    /// The source tree root.
    pub src_dir: String,
    /// The output tree root for the selected mode: `<target>/<mode>`.
    pub build_dir: String,
    /// Where the packager writes the bundle: `<target>/<bundle_id>.pdx`.
    pub pdx_dir: String,
    /// The selected build flavor.
    pub mode: BuildMode,
    /// The processor registry the walk resolves against.
    pub registry: Registry,
}

impl PDBuild {
    /// The orchestrator carries the stock processor registry.
    pub open spec fn wf(&self) -> bool {
        &&& self.registry.wf()
        &&& self.registry@ == Map::<Seq<u32>, ProcessorKind>::empty().insert(
            code_points("ase"@),
            ProcessorKind::Image,
        ).insert(code_points("aseprite"@), ProcessorKind::Image).insert(
            code_points("plua"@),
            ProcessorKind::Metaprogram,
        )
    }

    /// Sets a build up: the output root is `<target>/<mode>`, and the bundle
    /// lands beside it at `<target>/<bundle_id>.pdx`.
    pub fn new(config: &Config, mode: BuildMode) -> (r: PDBuild)
        ensures
            r.wf(),
            r.src_dir@ == config.directories.src@,
            r.build_dir@ == join_spec(config.directories.target@, mode.dir_name_spec()),
            r.pdx_dir@ == join_spec(config.directories.target@, config.bundle_id@ + ".pdx"@),
            r.mode == mode,
    {
        let build_dir = join(config.directories.target.as_str(), mode.dir_name());
        let mut bundle_name = String::from_str(config.bundle_id.as_str());
        bundle_name.append(".pdx");
        let pdx_dir = join(config.directories.target.as_str(), bundle_name.as_str());
        PDBuild {
            src_dir: String::from_str(config.directories.src.as_str()),
            build_dir,
            pdx_dir,
            mode,
            registry: default_registry(),
        }
    }

    /// The destination planned for the source file whose path under the
    /// source root is `rel`.
    pub open spec fn planned_dest(&self, rel: Seq<char>) -> Seq<char> {
        join_spec(self.build_dir@, rewritten_rel(rel, stock_processor(extension_spec(rel))))
    }

    /// Decides one file of the walk: strips the source-root prefix from
    /// `source`, resolves the processor by the file's extension, and derives
    /// the destination under the output root, substituting the extension the
    /// processor fixes. A source path that does not lie under the source root
    /// is a filesystem error.
    pub fn plan_source(&self, source: &str) -> (r: Result<FilePlan, BuildError>)
        requires
            self.wf(),
        ensures
            r is Ok <==> strip_prefix_spec(source@, self.src_dir@) is Some,
            r matches Ok(p) ==> ({
                let rel = strip_prefix_spec(source@, self.src_dir@).unwrap();
                &&& p.kind == stock_processor(extension_spec(rel))
                &&& p.dest@ == self.planned_dest(rel)
                &&& p.dest_parent@ == match parent_spec(p.dest@) {
                    Some(d) => d,
                    None => self.build_dir@,
                }
            }),
            r matches Err(e) ==> e is Io,
    {
        let rel = match strip_prefix(source, self.src_dir.as_str()) {
            Some(rel) => rel,
            None => {
                return Err(
                    BuildError::Io {
                        path: String::from_str(source),
                        message: String::from_str("source file is not under the source root"),
                    },
                );
            },
        };
        let kind = match extension_of(rel.as_str()) {
            Some(ext) => {
                proof {
                    reveal_strlit("ase");
                    reveal_strlit("aseprite");
                    reveal_strlit("plua");
                    assert(code_points("ase"@).len() == 3);
                    assert(code_points("aseprite"@).len() == 8);
                    assert(code_points("plua"@).len() == 4);
                }
                match self.registry.lookup(ext.as_str()) {
                    Some(k) => k,
                    None => ProcessorKind::Copy,
                }
            },
            None => ProcessorKind::Copy,
        };
        let rewritten = match kind {
            ProcessorKind::Copy => rel,
            ProcessorKind::Image => with_extension(rel.as_str(), "png"),
            ProcessorKind::Metaprogram => with_extension(rel.as_str(), "lua"),
        };
        let dest = join(self.build_dir.as_str(), rewritten.as_str());
        let dest_parent = match parent_dir(dest.as_str()) {
            Some(d) => d,
            None => String::from_str(self.build_dir.as_str()),
        };
        Ok(FilePlan { kind, dest, dest_parent })
    }

    /// Plans the whole walk over the files found under the source root, in
    /// their given order; the first file outside the source root aborts the
    /// walk (fail-fast). The stage-to-stage control of one whole build — walk,
    /// manifest, packager — stands in `next_stage`.
    pub fn build(&self, sources: &Vec<String>) -> (r: Result<Vec<FilePlan>, BuildError>)
        requires
            self.wf(),
        ensures
            r is Ok <==> (forall|i: int|
                0 <= i < sources@.len() ==> strip_prefix_spec(#[trigger] sources@[i]@,
                    self.src_dir@) is Some),
            r matches Ok(plans) ==> plans@.len() == sources@.len() && (forall|i: int|
                0 <= i < sources@.len() ==> {
                    let rel = strip_prefix_spec(#[trigger] sources@[i]@, self.src_dir@).unwrap();
                    &&& plans@[i].kind == stock_processor(extension_spec(rel))
                    &&& plans@[i].dest@ == self.planned_dest(rel)
                }),
            r matches Err(e) ==> e is Io,
    {
        let n = sources.len();
        let mut plans: Vec<FilePlan> = Vec::new();
        let mut i: usize = 0;
        while i < n
            invariant
                i <= n,
                n == sources@.len(),
                self.wf(),
                plans@.len() == i,
                forall|j: int|
                    0 <= j < i ==> strip_prefix_spec(#[trigger] sources@[j]@, self.src_dir@)
                        is Some,
                forall|j: int|
                    0 <= j < i ==> {
                        let rel = strip_prefix_spec(#[trigger] sources@[j]@,
                            self.src_dir@).unwrap();
                        &&& plans@[j].kind == stock_processor(extension_spec(rel))
                        &&& plans@[j].dest@ == self.planned_dest(rel)
                    },
            decreases n - i,
        {
            match self.plan_source(sources[i].as_str()) {
                Ok(p) => {
                    plans.push(p);
                },
                Err(e) => {
                    return Err(e);
                },
            }
            i = i + 1;
        }
        Ok(plans)
    }
}

/// Law: an image source's planned destination forces the `png` extension and
/// nothing else: it is the output root, the separator, and the relative
/// source path with only its final extension replaced — stem and directories
/// preserved. `aseprite_args` then fixes the converter's invocation over
/// exactly that destination.
pub proof fn lemma_image_destination(b: PDBuild, rel: Seq<char>)
    requires
        extension_spec(rel) matches Some(e) && (folded(e) == code_points("ase"@) || folded(e)
            == code_points("aseprite"@)),
    ensures
        stock_processor(extension_spec(rel)) is Image,
        b.planned_dest(rel) == join_spec(b.build_dir@, with_extension_spec(rel, "png"@)),
{
}

/// The byte-copy processor, the implicit default: its one output artifact is
/// the source content, byte for byte, at the destination with the original
/// extension preserved.
pub fn copy_processor(data: Vec<u8>) -> (r: Vec<u8>)
    ensures
        r@ == data@,
{
    data
}

/// The argument list the external image converter is invoked with: batch mode
/// over the source, saving as the forced destination.
pub fn aseprite_args(source: &str, dest: &str) -> (r: Vec<String>)
    ensures
        r@.len() == 4,
        r@[0]@ == "-b"@,
        r@[1]@ == source@,
        r@[2]@ == "--save-as"@,
        r@[3]@ == dest@,
{
    let mut args: Vec<String> = Vec::new();
    args.push(String::from_str("-b"));
    args.push(String::from_str(source));
    args.push(String::from_str("--save-as"));
    args.push(String::from_str(dest));
    args
}

/// The argument list the packaging compiler is invoked with: quiet mode, the
/// finished output tree, and the bundle output path.
pub fn packager_args(build_dir: &str, pdx_dir: &str) -> (r: Vec<String>)
    ensures
        r@.len() == 3,
        r@[0]@ == "-q"@,
        r@[1]@ == build_dir@,
        r@[2]@ == pdx_dir@,
{
    let mut args: Vec<String> = Vec::new();
    args.push(String::from_str("-q"));
    args.push(String::from_str(build_dir));
    args.push(String::from_str(pdx_dir));
    args
}

/// Interprets an external tool's exit while processing one file: a non-zero
/// exit fails the build, with the captured diagnostic output attached.
pub fn tool_outcome(path: &str, exited_ok: bool, diagnostics: &str) -> (r: Result<
    (),
    BuildError,
>)
    ensures
        r is Ok <==> exited_ok,
        r matches Err(e) ==> (e matches BuildError::Processor { path: p, message: m } && p@ == path@
            && m@ == diagnostics@),
{
    if exited_ok {
        Ok(())
    } else {
        Err(
            BuildError::Processor {
                path: String::from_str(path),
                message: String::from_str(diagnostics),
            },
        )
    }
}

/// Interprets the packaging compiler's exit: a non-zero exit fails the build,
/// with the captured diagnostic output attached.
pub fn packager_outcome(exited_ok: bool, diagnostics: &str) -> (r: Result<(), BuildError>)
    ensures
        r is Ok <==> exited_ok,
        r matches Err(e) ==> (e matches BuildError::Packaging { message: m } && m@ == diagnostics@),
{
    if exited_ok {
        Ok(())
    } else {
        Err(BuildError::Packaging { message: String::from_str(diagnostics) })
    }
}

} // verus!
