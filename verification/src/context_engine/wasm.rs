//! Loading a `.wasm` plugin: an epoch-interruptible engine and the compiled module.

use vstd::prelude::*;

verus! {

/// A wasmtime compilation environment.
#[verifier::external_type_specification]
#[verifier::external_body]
pub struct ExWasmEngine(wasmtime::Engine);

/// A compiled WASM module.
#[verifier::external_type_specification]
#[verifier::external_body]
pub struct ExWasmModule(wasmtime::Module);

/// A wasmtime error.
#[verifier::external_type_specification]
#[verifier::external_body]
pub struct ExWasmError(wasmtime::Error);

/// Creates a wasmtime engine with epoch interruption enabled (`wasmtime::Engine::new`
/// on a `Config` with `epoch_interruption(true)`). Nothing is stated of the result:
/// whether the engine can be built depends on the host.
#[verifier::external_body]
fn new_epoch_engine() -> (r: Result<wasmtime::Engine, wasmtime::Error>) {
    let mut cfg = wasmtime::Config::new();
    cfg.epoch_interruption(true);
    wasmtime::Engine::new(&cfg)
}

/// Compiles WASM bytes for an engine (`wasmtime::Module::new`), returning with the
/// outcome a record of the bytes that were compiled. Stated: the record holds the
/// argument. Not stated: whether the bytes compile, which wasmtime decides.
#[verifier::external_body]
fn compile_module(engine: &wasmtime::Engine, bytes: &[u8]) -> (r: (
    Result<wasmtime::Module, wasmtime::Error>,
    Ghost<Seq<u8>>,
))
    ensures
        r.1@ == bytes@,
{
    (wasmtime::Module::new(engine, bytes), Ghost(bytes@))
}

/// The text of a wasmtime error with its chain of causes (`Display` of the error,
/// alternate form). Nothing is stated of the text.
#[verifier::external_body]
fn error_text(e: &wasmtime::Error) -> (s: String) {
    format!("{e:#}")
}

/// Why a plugin could not be loaded.
pub enum PluginLoadError {
    /// The engine could not be created.
    Engine { detail: String },
    /// The file could not be read.
    Read { path: String, detail: String },
    /// The file is not a module the engine can compile.
    Compile { path: String, detail: String },
}

/// A loaded plugin: its engine, its compiled module and the bytes it was compiled from.
pub struct LoadedPlugin {
    pub engine: wasmtime::Engine,
    pub module: wasmtime::Module,
    pub source: Ghost<Seq<u8>>,
}

/// How loading the file at `path` may end, given the outcome of reading it;
/// `loaded` is the source of the loaded module, or the load error.
///
/// - a loaded module was compiled from exactly the file's contents;
/// - a read error comes exactly when the file could not be read (unless the
///   engine could not be created first), and carries the path and the reason;
/// - a compile error comes only for a file that was read, and carries the path.
pub open spec fn is_load_outcome(
    path: Seq<char>,
    contents: Result<Vec<u8>, String>,
    loaded: Result<Seq<u8>, PluginLoadError>,
) -> bool {
    &&& loaded matches Ok(src) ==> (contents matches Ok(b) && src == b@)
    &&& loaded matches Err(PluginLoadError::Read { path: p, detail }) ==> (contents matches Err(d)
        && p@ == path && detail@ == d@)
    &&& contents is Err ==> (loaded matches Err(e) && (e is Read || e is Engine))
    &&& loaded matches Err(PluginLoadError::Compile { path: p, .. }) ==> (p@ == path
        && contents is Ok)
}

/// The source of a loaded plugin, or the load error.
pub open spec fn loaded_source(r: Result<LoadedPlugin, PluginLoadError>) -> Result<
    Seq<u8>,
    PluginLoadError,
> {
    match r {
        Ok(p) => Ok(p.source@),
        Err(e) => Err(e),
    }
}

/// How loading the file at `path` ends, given the outcome of creating the engine
/// and the outcome of reading the file:
///
/// - the engine error comes exactly when the engine could not be created;
/// - with an engine, an unreadable file gives exactly the read error, with the
///   path and the reason;
/// - with an engine and the file's bytes, the plugin is loaded, holding that
///   engine and compiled from exactly those bytes, or a compile error with the
///   path comes back.
pub open spec fn is_engine_load_outcome(
    engine: Result<wasmtime::Engine, wasmtime::Error>,
    path: Seq<char>,
    contents: Result<Vec<u8>, String>,
    r: Result<LoadedPlugin, PluginLoadError>,
) -> bool {
    &&& (r matches Err(PluginLoadError::Engine { .. })) <==> engine is Err
    &&& engine is Ok ==> match contents {
        Err(d) => r matches Err(PluginLoadError::Read { path: p, detail }) && p@ == path
            && detail@ == d@,
        Ok(b) => {
            ||| r matches Ok(plugin) && engine == Ok::<wasmtime::Engine, wasmtime::Error>(
                plugin.engine,
            ) && plugin.source@ == b@
            ||| r matches Err(PluginLoadError::Compile { path: p, .. }) && p@ == path
        },
    }
}

/// Loads a plugin with the outcome of creating its engine and the outcome of
/// reading the file at `path`: takes the engine, then the file's contents, then
/// compiles them.
pub fn load_with_engine(
    engine: Result<wasmtime::Engine, wasmtime::Error>,
    path: &str,
    contents: Result<Vec<u8>, String>,
) -> (r: Result<LoadedPlugin, PluginLoadError>)
    ensures
        is_engine_load_outcome(engine, path@, contents, r),
        is_load_outcome(path@, contents, loaded_source(r)),
{
    let engine = match engine {
        Ok(e) => e,
        Err(e) => {
            return Err(PluginLoadError::Engine { detail: error_text(&e) });
        },
    };
    let bytes = match contents {
        Ok(b) => b,
        Err(d) => {
            return Err(PluginLoadError::Read { path: path.to_owned(), detail: d });
        },
    };
    let (compiled, source) = compile_module(&engine, bytes.as_slice());
    match compiled {
        Ok(module) => Ok(LoadedPlugin { engine, module, source }),
        Err(e) => Err(PluginLoadError::Compile { path: path.to_owned(), detail: error_text(&e) }),
    }
}

/// Loads a plugin from the outcome of reading the file at `path`: creates an
/// epoch-interruptible engine, then goes on as `load_with_engine` with the
/// outcome of creating it.
pub fn load_plugin(path: &str, contents: Result<Vec<u8>, String>) -> (r: Result<
    LoadedPlugin,
    PluginLoadError,
>)
    ensures
        is_load_outcome(path@, contents, loaded_source(r)),
        exists|engine: Result<wasmtime::Engine, wasmtime::Error>|
            #[trigger] is_engine_load_outcome(engine, path@, contents, r),
{
    let engine = new_epoch_engine();
    let ghost created = engine;
    let r = load_with_engine(engine, path, contents);
    assert(is_engine_load_outcome(created, path@, contents, r));
    r
}

/// The guest's output, or `None` when it wrote nothing.
pub fn guest_output(raw: Vec<u8>) -> (r: Option<Vec<u8>>)
    ensures
        r is None <==> raw@.len() == 0,
        r matches Some(v) ==> v@ == raw@,
{
    if raw.len() == 0 {
        None
    } else {
        Some(raw)
    }
}

/// A plugin's answer refused by the plugin itself.
pub struct HookRejected {
    pub message: String,
}

/// The rejection for a refused answer: the plugin's own message, or `fallback`.
pub fn rejection(error: Option<String>, fallback: &str) -> (r: HookRejected)
    ensures
        r.message@ == match error {
            Some(e) => e@,
            None => fallback@,
        },
{
    match error {
        Some(e) => HookRejected { message: e },
        None => HookRejected { message: fallback.to_owned() },
    }
}

} // verus!
