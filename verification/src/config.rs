//! The configuration of the transform: the plugin's options, the host's per-file
//! context, and how the two are merged.

use vstd::prelude::*;
use crate::text::replaced;

verus! {

/// The placeholder that a prefix pattern may hold: `[filename]`.
pub open spec fn placeholder() -> Seq<char> {
    "[filename]"@
}

/// The characters of each string of a sequence.
pub open spec fn texts(items: Seq<String>) -> Seq<Seq<char>> {
    Seq::new(items.len(), |i: int| items[i]@)
}

/// The characters of an optional string.
pub open spec fn text_of(item: Option<String>) -> Option<Seq<char>> {
    match item {
        Some(s) => Some(s@),
        None => None,
    }
}

/// The mathematical model of a [`Config`].
pub struct ConfigView {
    /// The method names that are never rewritten.
    pub ignore: Seq<Seq<char>>,
    /// The pattern from which the prefix is made.
    pub prefix_pattern: Seq<char>,
    /// The name of the file under compilation, where one is known.
    pub filename: Option<Seq<char>>,
}

impl ConfigView {
    /// The configuration in which every field has its default: nothing ignored, the
    /// pattern `[filename]`, no file name.
    pub open spec fn initial() -> ConfigView {
        ConfigView { ignore: Seq::empty(), prefix_pattern: placeholder(), filename: None }
    }

    /// The prefix that this configuration generates: the pattern with every `[filename]`
    /// replaced by the file name, or by nothing where no file name is known. It may be
    /// empty.
    pub open spec fn prefix(self) -> Seq<char> {
        replaced(
            self.prefix_pattern,
            placeholder(),
            match self.filename {
                Some(name) => name,
                None => Seq::empty(),
            },
        )
    }

    /// This configuration with the file name of `context` filled in where it has none of
    /// its own. An absent context has no file name to give.
    pub open spec fn resolved(self, context: Option<ContextView>) -> ConfigView {
        match (self.filename, context) {
            (None, Some(ctx)) => ConfigView { filename: ctx.filename, ..self },
            _ => self,
        }
    }
}

/// The mathematical model of a [`PluginContext`].
pub struct ContextView {
    /// The name of the file under compilation, where the host gave one.
    pub filename: Option<Seq<char>>,
}

/// The model of a context that may be absent.
pub open spec fn context_view(context: Option<PluginContext>) -> Option<ContextView> {
    match context {
        Some(context) => Some(context@),
        None => None,
    }
}

/// The options of the plugin.
#[derive(Debug, PartialEq, Eq)]
pub struct Config {
    /// Method names of the logging object whose calls are left alone.
    pub ignore: Vec<String>,
    /// The pattern from which the prefix is made; every `[filename]` in it stands for
    /// the file name.
    pub prefix_pattern: String,
    /// The name of the file under compilation. Where it is absent, the host's context
    /// supplies it.
    pub filename: Option<String>,
}

/// What the host says of the compilation unit at hand.
#[derive(Debug, PartialEq, Eq)]
pub struct PluginContext {
    /// The name of the file under compilation.
    pub filename: Option<String>,
}

impl View for Config {
    type V = ConfigView;

    open spec fn view(&self) -> ConfigView {
        ConfigView {
            ignore: texts(self.ignore@),
            prefix_pattern: self.prefix_pattern@,
            filename: text_of(self.filename),
        }
    }
}

impl View for PluginContext {
    type V = ContextView;

    open spec fn view(&self) -> ContextView {
        ContextView { filename: text_of(self.filename) }
    }
}

/// The pattern that is used where the options name none.
pub fn default_prefix_pattern() -> (pattern: String)
    ensures
        pattern@ == placeholder(),
{
    "[filename]".to_owned()
}

impl Default for Config {
    fn default() -> (config: Config)
        ensures
            config@ == ConfigView::initial(),
    {
        let config = Config {
            ignore: Vec::new(),
            prefix_pattern: default_prefix_pattern(),
            filename: None,
        };
        assert(texts(config.ignore@) =~= Seq::empty());
        config
    }
}

impl Config {
    /// Merges the host's context into the options: the file name of the context is
    /// taken where the options have none, and nothing else of the context is read.
    pub fn resolve(self, context: Option<PluginContext>) -> (effective: Config)
        ensures
            effective@ == self@.resolved(context_view(context)),
    {
        let mut effective = self;
        if effective.filename.is_none() {
            if let Some(ctx) = context {
                effective.filename = ctx.filename;
            }
        }
        effective
    }
}

} // verus!
