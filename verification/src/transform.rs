//! The transform from end to end: two payloads and a program in, the rewritten
//! program out.

use vstd::prelude::*;
use crate::ast::{Program, Tree};
use crate::config::{Config, ConfigView, ContextView, PluginContext, context_view, text_of};
use crate::rewrite::rewritten_all;
use crate::schema::{
    ParseError, config_of_text, config_outcome, context_of_text, context_outcome,
};
use crate::visitor::TransformVisitor;

verus! {

/// Why a transform did not take place. Nothing is rewritten where a payload is refused.
#[derive(Clone, Copy, Debug, PartialEq, Eq, Structural)]
pub enum TransformError {
    /// The plugin's options were refused.
    PluginConfig(ParseError),
    /// The host's context was refused.
    PluginContext(ParseError),
}

/// The model of the outcome of reading a context that may be absent.
pub open spec fn optional_outcome(context: Option<Result<PluginContext, ParseError>>) -> Option<
    Result<ContextView, ParseError>,
> {
    match context {
        Some(outcome) => Some(context_outcome(outcome)),
        None => None,
    }
}

/// The characters of an optional text.
pub open spec fn chars_of(text: Option<&str>) -> Option<Seq<char>> {
    match text {
        Some(text) => Some(text@),
        None => None,
    }
}

/// The configuration that two payloads give together. The options are looked at first,
/// so that their error wins over one of the context; a context that is there has to be
/// valid even where its file name is not needed.
pub open spec fn effective(
    options: Result<ConfigView, ParseError>,
    context: Option<Result<ContextView, ParseError>>,
) -> Result<ConfigView, TransformError> {
    match options {
        Err(e) => Err(TransformError::PluginConfig(e)),
        Ok(config) => match context {
            None => Ok(config.resolved(None)),
            Some(Err(e)) => Err(TransformError::PluginContext(e)),
            Some(Ok(ctx)) => Ok(config.resolved(Some(ctx))),
        },
    }
}

/// The configuration that two texts give together.
pub open spec fn effective_of_texts(plugin_config: Seq<char>, context: Option<Seq<char>>) -> Result<
    ConfigView,
    TransformError,
> {
    effective(
        config_of_text(plugin_config),
        match context {
            Some(text) => Some(context_of_text(text)),
            None => None,
        },
    )
}

/// What becomes of a program under the configuration that two payloads give: where
/// they give one, every node is rewritten to it; where they give none, the error is
/// handed on and there is no program.
pub open spec fn transformed(program: Seq<Tree>, cfg: Result<ConfigView, TransformError>) -> Result<
    Seq<Tree>,
    TransformError,
> {
    match cfg {
        Ok(cfg) => Ok(rewritten_all(program, cfg)),
        Err(e) => Err(e),
    }
}

/// The model of the outcome of resolving a configuration.
pub open spec fn effective_outcome(outcome: Result<Config, TransformError>) -> Result<
    ConfigView,
    TransformError,
> {
    match outcome {
        Ok(config) => Ok(config@),
        Err(e) => Err(e),
    }
}

/// The model of the outcome of a transform.
pub open spec fn program_outcome(outcome: Result<Program, TransformError>) -> Result<
    Seq<Tree>,
    TransformError,
> {
    match outcome {
        Ok(program) => Ok(program@),
        Err(e) => Err(e),
    }
}

/// Puts the outcomes of reading the two payloads together: the first error is handed
/// on, the options' before the context's, and where there is none the context is merged
/// into the options.
pub fn combine(
    options: Result<Config, ParseError>,
    context: Option<Result<PluginContext, ParseError>>,
) -> (outcome: Result<Config, TransformError>)
    ensures
        effective_outcome(outcome) == effective(config_outcome(options), optional_outcome(context)),
{
    let config = match options {
        Ok(config) => config,
        Err(e) => {
            return Err(TransformError::PluginConfig(e));
        },
    };
    match context {
        None => Ok(config.resolve(None)),
        Some(Err(e)) => Err(TransformError::PluginContext(e)),
        Some(Ok(context)) => Ok(config.resolve(Some(context))),
    }
}

/// Reads the plugin's options and, where there is one, the host's context, both JSON
/// text, and merges them into the configuration that the transform works to.
pub fn resolve_config(plugin_config: &str, context: Option<&str>) -> (outcome: Result<
    Config,
    TransformError,
>)
    ensures
        effective_outcome(outcome) == effective_of_texts(plugin_config@, chars_of(context)),
{
    let options = Config::parse(plugin_config);
    let context = match context {
        Some(text) => Some(PluginContext::parse(text)),
        None => None,
    };
    combine(options, context)
}

/// Rewrites `program` to `config`, with the file name of `context` where `config` has
/// none.
pub fn transform_program(program: Program, config: Config, context: Option<PluginContext>) -> (out:
    Program)
    ensures
        out@ == rewritten_all(program@, config@.resolved(context_view(context))),
{
    let mut visitor = TransformVisitor::new(config.resolve(context));
    let mut program = program;
    visitor.visit_mut_program(&mut program);
    program
}

/// Rewrites `program` to the options in `plugin_config` and the context in `context`,
/// both JSON text. The context may be absent. Where a payload is refused, nothing is
/// rewritten and the error says which payload it was, and why.
pub fn process_transform(program: Program, plugin_config: String, context: Option<String>) -> (outcome:
    Result<Program, TransformError>)
    ensures
        program_outcome(outcome) == transformed(
            program@,
            effective_of_texts(plugin_config@, text_of(context)),
        ),
{
    let context_text: Option<&str> = match &context {
        Some(text) => Some(text.as_str()),
        None => None,
    };
    let config = match resolve_config(plugin_config.as_str(), context_text) {
        Ok(config) => config,
        Err(e) => {
            return Err(e);
        },
    };
    let mut visitor = TransformVisitor::new(config);
    let mut program = program;
    visitor.visit_mut_program(&mut program);
    Ok(program)
}

} // verus!
