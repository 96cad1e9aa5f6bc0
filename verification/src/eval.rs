//! The evaluation entry points and the result envelope.
//!
//! Compile an expression into a reusable handle, evaluate a handle against
//! an optional JSON context, release a handle, or do all three in one shot.
//! Every outcome is reported through a tagged envelope; conditions the
//! boundary treats as unrecoverable are reported as a [`FatalError`] so the
//! caller at the boundary can abort, since a verified function never panics.

use crate::engine::CompiledAst;
use crate::engine::compile_outcome;
use crate::engine::compile_program;
use crate::engine::context_parses;
use crate::engine::encode_value;
use crate::engine::oneshot_parse_error;
use crate::engine::parse_context;
use crate::engine::run_oneshot;
use crate::engine::run_plain;
use crate::engine::run_with_context;
use vstd::prelude::*;

verus! {

/// The result envelope for an evaluation: exactly one variant is populated.
/// `Success(None)` is the deliberate no-op signal for a null handle or an
/// empty expression, distinct from both success-with-value and failure.
#[derive(Debug, PartialEq, Eq)]
pub enum ResultCString {
    /// Evaluation succeeded; the payload is the result encoded as JSON text,
    /// or absent for the no-op signal.
    Success(Option<String>),
    /// Compilation or evaluation failed; the payload is the diagnostic.
    Failure(String),
}

/// The result envelope for a compile step: a handle on success, the
/// formatted compile diagnostic on failure.
pub enum ResultCompiledAst {
    /// The expression compiled; the handle owns the engine and the program.
    Success(CompiledAst),
    /// The expression did not compile.
    Failure(String),
}

/// A condition the boundary treats as a caller contract violation rather
/// than a recoverable error: the caller at the boundary aborts on it.
#[derive(Clone, Copy, Debug, PartialEq, Eq, Structural)]
pub enum FatalError {
    /// A non-empty context was supplied but is not well-formed JSON.
    MalformedContext,
    /// The evaluated value could not be encoded as JSON text.
    ResultEncoding,
}

/// The well-known variable under which a decoded context is bound in the
/// scope of one evaluation.
pub const CONTEXT_VARIABLE: &'static str = "context";

/// Compile an expression into a handle that can be evaluated any number of
/// times. The engine is extended with the full capability set: random,
/// filesystem, URL and scientific modules.
pub fn compile_ast(expression: &str) -> (r: ResultCompiledAst)
    ensures
        r is Success <==> compile_outcome(expression@) is None,
        r matches ResultCompiledAst::Failure(e) ==> (compile_outcome(expression@) matches Some(d)
            && e@ == d),
{
    match compile_program(expression) {
        Ok(compiled) => ResultCompiledAst::Success(compiled),
        Err(error) => ResultCompiledAst::Failure(error),
    }
}

/// Release a handle. `None` stands for the null handle and is a no-op; a
/// present handle is consumed, and its engine and program are deallocated
/// together.
pub fn free_ast(compiled: Option<CompiledAst>) {
    match compiled {
        Some(_owned) => {},
        None => {},
    }
}

/// Turn the outcome of one engine run into an envelope: a runtime error
/// becomes a `Failure` with the formatted diagnostic; a value is encoded to
/// JSON and becomes a `Success`, unless it cannot be encoded, which is
/// fatal.
fn finish_evaluation(outcome: Result<rhai::Dynamic, String>) -> (r: Result<
    ResultCString,
    FatalError,
>)
    ensures
        outcome matches Err(d) ==> r == Ok::<ResultCString, FatalError>(ResultCString::Failure(d)),
        outcome is Ok ==> r == Err::<ResultCString, FatalError>(FatalError::ResultEncoding) || (
        r matches Ok(env) && env matches ResultCString::Success(p) && p is Some),
{
    match outcome {
        Ok(value) => match encode_value(&value) {
            Some(text) => Ok(ResultCString::Success(Some(text))),
            None => Err(FatalError::ResultEncoding),
        },
        Err(diagnostic) => Ok(ResultCString::Failure(diagnostic)),
    }
}

/// Evaluate a compiled handle against an optional JSON context; an empty
/// context text means no context. `None` stands for the null handle and
/// yields the no-op `Success` envelope with an absent payload, whatever the
/// context holds. The handle is borrowed immutably, so evaluation cannot
/// corrupt it and it stays evaluable afterwards.
pub fn eval_ast(compiled: Option<&CompiledAst>, context_json: &str) -> (r: Result<
    ResultCString,
    FatalError,
>)
    ensures
        compiled is None ==> r == Ok::<ResultCString, FatalError>(ResultCString::Success(
            None::<String>,
        )),
        r == Err::<ResultCString, FatalError>(FatalError::MalformedContext) <==> compiled is Some
            && context_json@.len() > 0 && !context_parses(context_json@),
        r matches Ok(env) ==> (compiled is Some ==> (env matches ResultCString::Success(p) ==> p
            is Some)),
        r == Err::<ResultCString, FatalError>(FatalError::ResultEncoding) ==> compiled is Some && (
        context_json@.len() == 0 || context_parses(context_json@)),
{
    let handle = match compiled {
        Some(handle) => handle,
        None => {
            return Ok(ResultCString::Success(None));
        },
    };
    if context_json.is_empty() {
        finish_evaluation(run_plain(handle))
    } else {
        match parse_context(context_json) {
            Some(value) => finish_evaluation(run_with_context(handle, CONTEXT_VARIABLE, value)),
            None => Err(FatalError::MalformedContext),
        }
    }
}

/// Compile and evaluate an expression in one shot, against an optional JSON
/// context, without exposing the intermediate handle. An empty expression
/// yields the no-op `Success` envelope with an absent payload, whatever the
/// context holds. The engine here deliberately omits the scientific module
/// that the cached-compile path registers.
pub fn perform_eval(expression: &str, context_json: &str) -> (r: Result<ResultCString, FatalError>)
    ensures
        expression@.len() == 0 ==> r == Ok::<ResultCString, FatalError>(ResultCString::Success(
            None::<String>,
        )),
        r == Err::<ResultCString, FatalError>(FatalError::MalformedContext) <==> expression@.len()
            > 0 && context_json@.len() > 0 && !context_parses(context_json@),
        oneshot_parse_error(expression@) matches Some(d) ==> (expression@.len() > 0 && (
        context_json@.len() == 0 || context_parses(context_json@)) ==> (r matches Ok(env)
            && env matches ResultCString::Failure(e) && e@ == d)),
        r matches Ok(env) ==> (env matches ResultCString::Success(p) ==> (expression@.len() > 0
            ==> p is Some && oneshot_parse_error(expression@) is None)),
        r == Err::<ResultCString, FatalError>(FatalError::ResultEncoding) ==> expression@.len() > 0
            && (context_json@.len() == 0 || context_parses(context_json@)),
{
    if expression.is_empty() {
        return Ok(ResultCString::Success(None));
    }
    if context_json.is_empty() {
        finish_evaluation(run_oneshot(expression, None))
    } else {
        match parse_context(context_json) {
            Some(value) => finish_evaluation(
                run_oneshot(expression, Some((CONTEXT_VARIABLE, value))),
            ),
            None => Err(FatalError::MalformedContext),
        }
    }
}

} // verus!
