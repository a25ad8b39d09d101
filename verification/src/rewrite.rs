//! What the transform does to a tree, as mathematics.
//!
//! A call qualifies where its callee is `console.name` with both parts bare identifiers
//! and `name` is not exempt. Every qualifying call gets the generated prefix as a new
//! first argument, unless that prefix is empty. Nothing else in the tree changes.

use vstd::prelude::*;
use crate::ast::Tree;
use crate::config::ConfigView;

verus! {

/// The name of the logging object: `console`.
pub open spec fn logging_object() -> Seq<char> {
    "console"@
}

/// The method that is exempt whatever the options say: `table`.
pub open spec fn always_exempt() -> Seq<char> {
    "table"@
}

/// The method of the logging object that `callee` names, where `callee` is a member
/// access written with a dot whose object is the bare identifier `console` and whose
/// member is a bare identifier. Any other callee names none.
pub open spec fn console_method_of(callee: Tree) -> Option<Seq<char>> {
    match callee {
        Tree::Member { obj, prop, computed } => match (*obj, *prop) {
            (Tree::Ident { sym: object }, Tree::Ident { sym: method }) => if !computed && object
                == logging_object() {
                Some(method)
            } else {
                None
            },
            _ => None,
        },
        _ => None,
    }
}

/// Whether calls of `method` are left alone: `table` always is, and so is every name
/// among `ignore`.
pub open spec fn exempt(ignore: Seq<Seq<char>>, method: Seq<char>) -> bool {
    method == always_exempt() || ignore.contains(method)
}

/// Whether a call of `callee` is one that the transform rewrites.
pub open spec fn qualifies(callee: Tree, ignore: Seq<Seq<char>>) -> bool {
    match console_method_of(callee) {
        Some(method) => !exempt(ignore, method),
        None => false,
    }
}

/// Whether some call in `tree`, at any depth, is one that the transform rewrites.
pub open spec fn has_qualifying_call(tree: Tree, ignore: Seq<Seq<char>>) -> bool
    decreases tree,
{
    match tree {
        Tree::Call { callee, args } => {
            ||| qualifies(*callee, ignore)
            ||| has_qualifying_call(*callee, ignore)
            ||| exists|i: int|
                0 <= i < args.len() && has_qualifying_call(#[trigger] args[i], ignore)
        },
        Tree::Member { obj, prop, computed } => {
            ||| has_qualifying_call(*obj, ignore)
            ||| has_qualifying_call(*prop, ignore)
        },
        Tree::Other { kind, children } => exists|i: int|
            0 <= i < children.len() && has_qualifying_call(#[trigger] children[i], ignore),
        _ => false,
    }
}

/// The call `call` with the string literal `prefix` put before its arguments; unchanged
/// where `prefix` is empty.
pub open spec fn prefixed(call: Tree, prefix: Seq<char>) -> Tree {
    match call {
        Tree::Call { callee, args } => if prefix.len() > 0 {
            Tree::Call { callee, args: seq![Tree::Str { value: prefix }] + args }
        } else {
            call
        },
        _ => call,
    }
}

/// What becomes of a call once everything below it has been rewritten.
pub open spec fn settled(call: Tree, cfg: ConfigView) -> Tree {
    match call {
        Tree::Call { callee, args } => if qualifies(*callee, cfg.ignore) {
            prefixed(call, cfg.prefix())
        } else {
            call
        },
        _ => call,
    }
}

/// The trees of `trees`, each rewritten.
pub open spec fn rewritten_all(trees: Seq<Tree>, cfg: ConfigView) -> Seq<Tree>
    decreases trees,
{
    Seq::new(
        trees.len(),
        |i: int|
            if 0 <= i < trees.len() {
                rewritten(trees[i], cfg)
            } else {
                arbitrary()
            },
    )
}

/// The tree `tree` after the transform: children first, then the node itself.
pub open spec fn rewritten(tree: Tree, cfg: ConfigView) -> Tree
    decreases tree,
{
    match tree {
        Tree::Call { callee, args } => settled(
            Tree::Call {
                callee: Box::new(rewritten(*callee, cfg)),
                args: rewritten_all(args, cfg),
            },
            cfg,
        ),
        Tree::Member { obj, prop, computed } => Tree::Member {
            obj: Box::new(rewritten(*obj, cfg)),
            prop: Box::new(rewritten(*prop, cfg)),
            computed,
        },
        Tree::Other { kind, children } => Tree::Other {
            kind,
            children: rewritten_all(children, cfg),
        },
        _ => tree,
    }
}

} // verus!
