//! The metaprogram processor. A metaprogram source is compiled to an
//! intermediate program, executed inside a long-lived scripting context shared
//! by every file of one build (the context carries one global flag, the build
//! mode), and the expanded source text it yields is passed through an external
//! formatter — a formatter failure is non-fatal and falls back to the
//! unformatted text. On a failing execution, a debug build writes the best
//! available intermediate artifact to a diagnostic sibling path and still
//! fails; a release build fails without writing anything.

use vstd::prelude::*;
use vstd::string::*;
use crate::paths::{with_extension, with_extension_spec};

verus! {

#[verifier::external_type_specification]
#[verifier::external_body]
/// The embedded scripting engine's state type, opaque to the build logic.
pub struct ExLua(mlua::Lua);

/// Relies on mlua::Lua::new: a fresh scripting context.
#[verifier::external_body]
fn lua_new() -> mlua::Lua {
    mlua::Lua::new()
}

/// Relies on mlua::Lua::globals and mlua::Table::set: binds a named global
/// boolean in the context, reporting the engine's error text on failure.
#[verifier::external_body]
fn lua_set_global_bool(ctx: &mlua::Lua, name: &str, value: bool) -> (r: Result<(), String>) {
    match ctx.globals().set(name, value) {
        Ok(()) => Ok(()),
        Err(e) => Err(e.to_string()),
    }
}

/// Relies on mlua::Lua::load and mlua::Chunk::eval: runs a program in the
/// context and returns the string it evaluates to. The outcome depends on the
/// context's accumulated state and on the host (the context has full host
/// capability), so nothing is assumed of it; the caller decides what each
/// outcome means.
#[verifier::external_body]
fn lua_eval_string(ctx: &mlua::Lua, program: &str) -> (r: Result<String, String>) {
    match ctx.load(program).eval::<String>() {
        Ok(s) => Ok(s),
        Err(e) => Err(e.to_string()),
    }
}

/// What the code formatter makes of a produced source text, when it accepts
/// it: the formatting is a function of the text alone.
pub uninterp spec fn formatted_lua(s: Seq<char>) -> Option<Seq<char>>;

/// Relies on stylua_lib::format_code with the default configuration: a pure
/// function of the source text, failing exactly on text it cannot parse.
#[verifier::external_body]
fn format_lua(source: &str) -> (r: Result<String, String>)
    ensures
        r is Ok <==> formatted_lua(source@) is Some,
        r matches Ok(s) ==> Some(s@) == formatted_lua(source@),
{
    match stylua_lib::format_code(
        source,
        stylua_lib::Config::new(),
        None,
        stylua_lib::OutputVerification::None,
    ) {
        Ok(s) => Ok(s),
        Err(e) => Err(e.to_string()),
    }
}

/// The text actually written for a produced source: the formatter's output,
/// or the raw text itself when the formatter fails — a formatting failure
/// never blocks the build.
pub open spec fn rendered_lua(s: Seq<char>) -> Seq<char> {
    match formatted_lua(s) {
        Some(f) => f,
        None => s,
    }
}

/// Formats a produced source text, falling back to the unformatted text when
/// the formatter fails.
pub fn render_lua(source: &str) -> (r: String)
    ensures
        r@ == rendered_lua(source@),
{
    match format_lua(source) {
        Ok(f) => f,
        Err(_) => String::from_str(source),
    }
}

/// The long-lived metaprogram execution context, shared across all files
/// processed in one build.
pub struct Plua {
    ctx: mlua::Lua,
}

/// The intermediate representation of one metaprogram: the program text the
/// execution context runs to yield the expanded source.
pub struct PluaMetaProgram {
    /// The executable intermediate program.
    pub metaprogram: String,
}

impl Plua {
    /// A fresh execution context.
    pub fn new() -> (r: Plua) {
        Plua { ctx: lua_new() }
    }

    /// Binds a named global boolean in the context; the build sets exactly
    /// one, the build-mode flag, once per build.
    pub fn set_global(&self, name: &str, value: bool) -> (r: Result<(), String>) {
        lua_set_global_bool(&self.ctx, name, value)
    }

    /// Compiles a metaprogram source into its intermediate representation.
    /// The macro language is the execution language itself, so the compiled
    /// program is the source text.
    pub fn preprocess(&self, source: &str) -> (r: PluaMetaProgram)
        ensures
            r.metaprogram@ == source@,
    {
        PluaMetaProgram::new(String::from_str(source))
    }
}

impl PluaMetaProgram {
    /// Wraps a compiled intermediate program.
    pub fn new(metaprogram: String) -> (r: PluaMetaProgram)
        ensures
            r.metaprogram == metaprogram,
    {
        PluaMetaProgram { metaprogram }
    }

    /// Runs the intermediate program in the execution context, yielding the
    /// expanded source text or the engine's failure text. The outcome depends
    /// on the context's state and the host; the caller decides what each
    /// outcome means.
    pub fn compile(&self, ctx: &Plua) -> (r: Result<String, String>) {
        lua_eval_string(&ctx.ctx, self.metaprogram.as_str())
    }
}

/// What one metaprogram processing run decided: the one artifact to write, if
/// any, and whether the build goes on.
pub enum MetaOutcome {
    /// The metaprogram ran: write the rendered text at the destination, whose
    /// extension is fixed to the target script extension, and continue.
    Expanded { path: String, text: String },
    /// The metaprogram failed in a debug build: write the best available
    /// intermediate artifact at a sibling path with the distinguishing
    /// secondary extension, for human inspection, and still fail the build.
    Diagnostic { path: String, text: String, message: String },
    /// The metaprogram failed in a release build: write nothing and fail.
    Failed { message: String },
}

/// Decides the metaprogram processor's outcome for one file from the build
/// mode, the destination path, the intermediate program, and how the
/// execution ended. A success writes the rendered expansion at the
/// destination with the `lua` extension; a failure under a debug build writes
/// the intermediate program at the `meta.lua` sibling and still fails; a
/// failure under a release build writes nothing.
pub fn metaprogram_outcome(
    debug: bool,
    destination: &str,
    metaprogram: &str,
    executed: Result<String, String>,
) -> (o: MetaOutcome)
    ensures
        executed matches Ok(produced) ==> (o matches MetaOutcome::Expanded { path, text }
            && path@ == with_extension_spec(destination@, "lua"@) && text@ == rendered_lua(
            produced@,
        )),
        (executed is Err && debug) ==> (o matches MetaOutcome::Diagnostic { path, text, message }
            && path@ == with_extension_spec(destination@, "meta.lua"@) && text@ == metaprogram@
            && message == executed->Err_0),
        (executed is Err && !debug) ==> (o matches MetaOutcome::Failed { message } && message
            == executed->Err_0),
{
    match executed {
        Ok(produced) => MetaOutcome::Expanded {
            path: with_extension(destination, "lua"),
            text: render_lua(produced.as_str()),
        },
        Err(message) => {
            if debug {
                MetaOutcome::Diagnostic {
                    path: with_extension(destination, "meta.lua"),
                    text: String::from_str(metaprogram),
                    message,
                }
            } else {
                MetaOutcome::Failed { message }
            }
        },
    }
}

/// The metaprogram processor: one execution context for the whole build, with
/// the build-mode flag bound once at creation.
pub struct PluaProcessor {
    /// The shared execution context.
    pub plua: Plua,
    /// Whether this is a debug build, in which failures leave diagnostics.
    pub debug: bool,
}

impl PluaProcessor {
    /// Creates the processor and binds the context's build-mode flag.
    pub fn new(debug: bool) -> (r: Result<PluaProcessor, String>)
        ensures
            r matches Ok(p) ==> p.debug == debug,
    {
        let plua = Plua::new();
        match plua.set_global("debug", debug) {
            Ok(_) => Ok(PluaProcessor { plua, debug }),
            Err(m) => Err(m),
        }
    }

    /// Processes one metaprogram source: compiles it, executes it in the
    /// shared context, and decides the outcome. Whatever the execution did,
    /// the artifact's path and text are fixed by the outcome rule: a success
    /// writes a rendered expansion at the destination with the `lua`
    /// extension; a failure leaves the intermediate program at the `meta.lua`
    /// sibling in a debug build, and nothing in a release build.
    pub fn process(&self, source_text: &str, destination: &str) -> (o: MetaOutcome)
        ensures
            o matches MetaOutcome::Expanded { path, text } ==> path@ == with_extension_spec(
                destination@,
                "lua"@,
            ) && (exists|produced: Seq<char>| text@ == #[trigger] rendered_lua(produced)),
            o matches MetaOutcome::Diagnostic { path, text, message } ==> self.debug && path@
                == with_extension_spec(destination@, "meta.lua"@) && text@ == source_text@,
            o is Failed ==> !self.debug,
    {
        let prog = self.plua.preprocess(source_text);
        let executed = prog.compile(&self.plua);
        let o = metaprogram_outcome(self.debug, destination, prog.metaprogram.as_str(), executed);
        proof {
            if o is Expanded {
                let produced = executed->Ok_0@;
                assert(o->Expanded_text@ == rendered_lua(produced));
            }
        }
        o
    }
}

} // verus!
