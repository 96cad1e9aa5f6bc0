//! The scripting engine behind the boundary.
//!
//! Everything here either declares a Rhai or serde_json item to the verifier
//! or wraps one call into those crates. Each wrapper's contract states only
//! what the called crate's own source shows; the logic that decides what to
//! do with the results lives in the verified code of `eval`.

use rhai::packages::Package;
use vstd::prelude::*;

verus! {

#[verifier::external_type_specification]
#[verifier::external_body]
pub struct ExEngine(rhai::Engine);

#[verifier::external_type_specification]
#[verifier::external_body]
pub struct ExAst(rhai::AST);

#[verifier::external_type_specification]
#[verifier::external_body]
pub struct ExDynamic(rhai::Dynamic);

/// A compiled program: an isolated engine instance together with the
/// immutable program it compiled. Evaluation borrows it and never mutates
/// it; it is destroyed as a whole when the host releases it.
pub struct CompiledAst {
    pub(crate) engine: rhai::Engine,
    pub(crate) ast: rhai::AST,
}

/// What compiling an expression on the full-capability engine yields: `None`
/// when the text compiles, or the formatted diagnostic when it does not. The
/// outcome depends on the expression text alone.
pub uninterp spec fn compile_outcome(text: Seq<char>) -> Option<Seq<char>>;

/// The formatted diagnostic a one-shot evaluation reports when the
/// expression text fails to parse, or `None` when the text parses. Parsing
/// depends on the text alone; what a successful run returns does not.
pub uninterp spec fn oneshot_parse_error(text: Seq<char>) -> Option<Seq<char>>;

/// Whether a JSON text decodes into one dynamic value. Decoding success
/// depends on the text alone.
pub uninterp spec fn context_parses(text: Seq<char>) -> bool;

/// Relies on rhai::Engine::new and Engine::register_global_module to build
/// the full-capability engine (random, filesystem, URL and scientific
/// modules, and an error raised for a missing map property), and on
/// rhai::Engine::compile: whether the text parses, and the diagnostic that
/// ParseError's Display formats when it does not, depend on the expression
/// text alone; registered modules and runtime options do not affect parsing.
#[verifier::external_body]
pub(crate) fn compile_program(text: &str) -> (r: Result<CompiledAst, String>)
    ensures
        r is Ok <==> compile_outcome(text@) is None,
        r matches Err(e) ==> (compile_outcome(text@) matches Some(d) && e@ == d),
{
    let mut engine = rhai::Engine::new();
    engine.set_fail_on_invalid_map_property(true);
    engine.register_global_module(rhai_rand::RandomPackage::new().as_shared_module());
    engine.register_global_module(rhai_fs::FilesystemPackage::new().as_shared_module());
    engine.register_global_module(rhai_url::UrlPackage::new().as_shared_module());
    engine.register_global_module(rhai_sci::SciPackage::new().as_shared_module());
    match engine.compile(text) {
        Ok(ast) => Ok(CompiledAst { engine, ast }),
        Err(error) => Err(format!("{}", error)),
    }
}

/// Relies on rhai::Engine::eval_ast: evaluates the compiled program with an
/// empty scope, borrowing engine and program immutably. The value may differ
/// between calls (for one, the random module), so nothing is claimed of the
/// outcome; a runtime error is formatted by EvalAltResult's Display.
#[verifier::external_body]
pub(crate) fn run_plain(compiled: &CompiledAst) -> (r: Result<rhai::Dynamic, String>) {
    match compiled.engine.eval_ast::<rhai::Dynamic>(&compiled.ast) {
        Ok(value) => Ok(value),
        Err(error) => Err(format!("{}", error)),
    }
}

/// Relies on rhai::Scope::push and rhai::Engine::eval_ast_with_scope:
/// evaluates the compiled program with a fresh scope holding `value` under
/// `name`, borrowing engine and program immutably. As with `run_plain`,
/// nothing is claimed of the outcome.
#[verifier::external_body]
pub(crate) fn run_with_context(compiled: &CompiledAst, name: &str, value: rhai::Dynamic) -> (r: Result<rhai::Dynamic, String>) {
    let mut scope = rhai::Scope::new();
    scope.push(name, value);
    match compiled.engine.eval_ast_with_scope::<rhai::Dynamic>(&mut scope, &compiled.ast) {
        Ok(value) => Ok(value),
        Err(error) => Err(format!("{}", error)),
    }
}

/// Relies on rhai::Engine::eval_with_scope (rhai::Engine::eval is the same
/// call with a fresh scope) on an engine without the scientific module,
/// though with the same missing-property option as the cached path: a text
/// that fails to parse yields the same formatted diagnostic on every call;
/// of a text that parses nothing is claimed, since the value may differ
/// between calls.
#[verifier::external_body]
pub(crate) fn run_oneshot(text: &str, binding: Option<(&str, rhai::Dynamic)>) -> (r: Result<rhai::Dynamic, String>)
    ensures
        r matches Err(e) ==> oneshot_parse_error(text@) is None || oneshot_parse_error(text@)
            == Some(e@),
        r is Ok ==> oneshot_parse_error(text@) is None,
{
    let mut engine = rhai::Engine::new();
    engine.set_fail_on_invalid_map_property(true);
    engine.register_global_module(rhai_rand::RandomPackage::new().as_shared_module());
    engine.register_global_module(rhai_fs::FilesystemPackage::new().as_shared_module());
    engine.register_global_module(rhai_url::UrlPackage::new().as_shared_module());
    let mut scope = rhai::Scope::new();
    if let Some((name, value)) = binding {
        scope.push(name, value);
    }
    match engine.eval_with_scope::<rhai::Dynamic>(&mut scope, text) {
        Ok(value) => Ok(value),
        Err(error) => Err(format!("{}", error)),
    }
}

/// Relies on serde_json::from_str with rhai's Deserialize for Dynamic:
/// whether a JSON text decodes into a dynamic value depends on the text
/// alone.
#[verifier::external_body]
pub(crate) fn parse_context(text: &str) -> (r: Option<rhai::Dynamic>)
    ensures
        r is Some <==> context_parses(text@),
{
    match serde_json::from_str::<rhai::Dynamic>(text) {
        Ok(value) => Some(value),
        Err(_) => None,
    }
}

/// Relies on serde_json::to_string with rhai's Serialize for Dynamic:
/// encodes a dynamic value to JSON text, or reports that the value cannot be
/// serialized. Nothing is claimed of the text.
#[verifier::external_body]
pub(crate) fn encode_value(value: &rhai::Dynamic) -> (r: Option<String>) {
    match serde_json::to_string(value) {
        Ok(text) => Some(text),
        Err(_) => None,
    }
}

} // verus!
