//! What holds of the transform on every tree and under every configuration.

use vstd::prelude::*;
use crate::ast::Tree;
use crate::config::{ConfigView, placeholder};
use crate::json::JsonView;
use crate::rewrite::{
    always_exempt, console_method_of, exempt, has_qualifying_call, rewritten, rewritten_all,
};
use crate::schema::{ParseError, config_of, known_key};
use crate::text::{
    lemma_replaced_at_first_token, lemma_replaced_token_alone, lemma_replaced_without_token,
    occurs, occurs_at,
};

verus! {

/// Options that name nothing are the defaults: nothing ignored, the pattern
/// `[filename]`, no file name.
pub proof fn lemma_empty_options_are_the_defaults()
    ensures
        config_of(JsonView::Object(Seq::empty())) == Ok::<ConfigView, ParseError>(
            ConfigView::initial(),
        ),
{
}

/// Options with a member that the schema does not know are refused, whatever else they
/// hold.
pub proof fn lemma_unknown_member_is_refused(members: Seq<(Seq<char>, JsonView)>, at: int)
    requires
        0 <= at < members.len(),
        !known_key(members[at].0),
    ensures
        config_of(JsonView::Object(members)) == Err::<ConfigView, ParseError>(
            ParseError::UnknownField,
        ),
{
}

/// Rewriting a callee never changes which method of the logging object it names: a
/// callee that names one holds no call, and one that names none does not come to name
/// one. So rewriting the children of a call first does not disturb the test on the call
/// itself.
pub proof fn lemma_callee_keeps_its_method(callee: Tree, cfg: ConfigView)
    ensures
        console_method_of(rewritten(callee, cfg)) == console_method_of(callee),
{
    match callee {
        Tree::Member { obj, prop, computed } => {
            assert(rewritten(*obj, cfg) is Ident <==> *obj is Ident);
            assert(rewritten(*prop, cfg) is Ident <==> *prop is Ident);
        },
        _ => {},
    }
}

/// A call whose callee is not `console.name`, with both parts bare identifiers, gets no
/// new argument: the call that comes out has the rewritten callee and the rewritten
/// arguments, and nothing more.
pub proof fn lemma_unmatched_call_keeps_its_arguments(
    callee: Tree,
    args: Seq<Tree>,
    cfg: ConfigView,
)
    requires
        console_method_of(callee) is None,
    ensures
        rewritten(Tree::Call { callee: Box::new(callee), args }, cfg) == (Tree::Call {
            callee: Box::new(rewritten(callee, cfg)),
            args: rewritten_all(args, cfg),
        }),
{
    lemma_callee_keeps_its_method(callee, cfg);
}

/// A call of `console.table` gets no new argument, whatever the list of ignored methods
/// holds and whatever the prefix is.
pub proof fn lemma_table_call_keeps_its_arguments(callee: Tree, args: Seq<Tree>, cfg: ConfigView)
    requires
        console_method_of(callee) == Some(always_exempt()),
    ensures
        rewritten(Tree::Call { callee: Box::new(callee), args }, cfg) == (Tree::Call {
            callee: Box::new(rewritten(callee, cfg)),
            args: rewritten_all(args, cfg),
        }),
{
    lemma_callee_keeps_its_method(callee, cfg);
}

/// A call of a method that the options list under `ignore` gets no new argument.
pub proof fn lemma_ignored_call_keeps_its_arguments(
    callee: Tree,
    method: Seq<char>,
    args: Seq<Tree>,
    cfg: ConfigView,
)
    requires
        console_method_of(callee) == Some(method),
        cfg.ignore.contains(method),
    ensures
        rewritten(Tree::Call { callee: Box::new(callee), args }, cfg) == (Tree::Call {
            callee: Box::new(rewritten(callee, cfg)),
            args: rewritten_all(args, cfg),
        }),
{
    lemma_callee_keeps_its_method(callee, cfg);
}

/// A call of a method of the logging object that is not exempt, under a prefix that is
/// not empty, comes out with one argument more: the prefix, as a string literal, stands
/// first, and behind it stand the rewritten arguments in their order. The callee is as it
/// was.
pub proof fn lemma_qualifying_call_gets_the_prefix(
    callee: Tree,
    method: Seq<char>,
    args: Seq<Tree>,
    cfg: ConfigView,
)
    requires
        console_method_of(callee) == Some(method),
        !exempt(cfg.ignore, method),
        cfg.prefix().len() > 0,
    ensures
        rewritten(Tree::Call { callee: Box::new(callee), args }, cfg) matches Tree::Call {
            callee: out_callee,
            args: out_args,
        } && {
            &&& *out_callee == callee
            &&& out_args.len() == args.len() + 1
            &&& out_args[0] == (Tree::Str { value: cfg.prefix() })
            &&& forall|i: int|
                0 <= i < args.len() ==> #[trigger] out_args[i + 1] == rewritten(args[i], cfg)
        },
{
    lemma_callee_keeps_its_method(callee, cfg);
    // The callee is `console.method`: two identifiers, which rewriting leaves alone.
    assert(rewritten(callee, cfg) == callee);
    // The arguments that come out are the prefix and then the rewritten arguments.
    let rest = rewritten_all(args, cfg);
    let out_args = seq![Tree::Str { value: cfg.prefix() }] + rest;
    assert forall|i: int| 0 <= i < args.len() implies #[trigger] out_args[i + 1] == rewritten(
        args[i],
        cfg,
    ) by {
        assert(out_args[i + 1] == rest[i]);
    }
}

/// Under an empty prefix every tree comes out as it went in.
pub proof fn lemma_empty_prefix_changes_nothing(tree: Tree, cfg: ConfigView)
    requires
        cfg.prefix().len() == 0,
    ensures
        rewritten(tree, cfg) == tree,
    decreases tree,
{
    match tree {
        Tree::Call { callee, args } => {
            lemma_empty_prefix_changes_nothing(*callee, cfg);
            lemma_empty_prefix_changes_none(args, cfg);
        },
        Tree::Member { obj, prop, computed } => {
            lemma_empty_prefix_changes_nothing(*obj, cfg);
            lemma_empty_prefix_changes_nothing(*prop, cfg);
        },
        Tree::Other { kind, children } => {
            lemma_empty_prefix_changes_none(children, cfg);
        },
        _ => {},
    }
}

/// Under an empty prefix every sequence of trees comes out as it went in.
pub proof fn lemma_empty_prefix_changes_none(trees: Seq<Tree>, cfg: ConfigView)
    requires
        cfg.prefix().len() == 0,
    ensures
        rewritten_all(trees, cfg) == trees,
    decreases trees,
{
    assert forall|i: int| 0 <= i < trees.len() implies rewritten(trees[i], cfg) == trees[i] by {
        lemma_empty_prefix_changes_nothing(trees[i], cfg);
    }
}

/// The pattern `[filename]` with no file name to put in gives the empty prefix.
pub proof fn lemma_lone_placeholder_without_filename(cfg: ConfigView)
    requires
        cfg.prefix_pattern == placeholder(),
        cfg.filename is None,
    ensures
        cfg.prefix().len() == 0,
{
    reveal_strlit("[filename]");
    lemma_replaced_token_alone(placeholder(), Seq::empty());
}

/// A pattern in which the placeholder stands nowhere is the prefix, letter for letter:
/// nothing but `[filename]` is ever replaced.
pub proof fn lemma_pattern_without_placeholder_is_the_prefix(cfg: ConfigView)
    requires
        !occurs(cfg.prefix_pattern, placeholder()),
    ensures
        cfg.prefix() == cfg.prefix_pattern,
{
    lemma_replaced_without_token(
        cfg.prefix_pattern,
        placeholder(),
        match cfg.filename {
            Some(name) => name,
            None => Seq::empty(),
        },
    );
}

/// Substitution is by exact text: a pattern made of `head`, the placeholder and `tail`,
/// where the placeholder stands nowhere else, gives `head`, the file name and `tail`,
/// with not a character added, dropped or changed.
pub proof fn lemma_placeholder_gives_way_to_the_filename(
    head: Seq<char>,
    tail: Seq<char>,
    name: Seq<char>,
    cfg: ConfigView,
)
    requires
        cfg.prefix_pattern == head + placeholder() + tail,
        cfg.filename == Some(name),
        forall|at: int| 0 <= at < head.len() ==> !occurs_at(cfg.prefix_pattern, placeholder(), at),
        !occurs(tail, placeholder()),
    ensures
        cfg.prefix() == head + name + tail,
{
    reveal_strlit("[filename]");
    lemma_replaced_at_first_token(head, tail, placeholder(), name);
    lemma_replaced_without_token(tail, placeholder(), name);
}

/// A tree in which no call qualifies comes out as it went in, whatever the prefix is.
pub proof fn lemma_tree_without_qualifying_call_is_kept(tree: Tree, cfg: ConfigView)
    requires
        !has_qualifying_call(tree, cfg.ignore),
    ensures
        rewritten(tree, cfg) == tree,
    decreases tree,
{
    match tree {
        Tree::Call { callee, args } => {
            lemma_tree_without_qualifying_call_is_kept(*callee, cfg);
            lemma_trees_without_qualifying_call_are_kept(args, cfg);
        },
        Tree::Member { obj, prop, computed } => {
            lemma_tree_without_qualifying_call_is_kept(*obj, cfg);
            lemma_tree_without_qualifying_call_is_kept(*prop, cfg);
        },
        Tree::Other { kind, children } => {
            lemma_trees_without_qualifying_call_are_kept(children, cfg);
        },
        _ => {},
    }
}

/// A sequence of trees in none of which a call qualifies comes out as it went in.
pub proof fn lemma_trees_without_qualifying_call_are_kept(trees: Seq<Tree>, cfg: ConfigView)
    requires
        forall|i: int| 0 <= i < trees.len() ==> !has_qualifying_call(#[trigger] trees[i], cfg.ignore),
    ensures
        rewritten_all(trees, cfg) == trees,
    decreases trees,
{
    assert forall|i: int| 0 <= i < trees.len() implies rewritten(trees[i], cfg) == trees[i] by {
        lemma_tree_without_qualifying_call_is_kept(trees[i], cfg);
    }
}

} // verus!
