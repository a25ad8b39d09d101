//! The visitor that walks a tree and rewrites the calls that qualify.

use vstd::prelude::*;
use crate::ast::{CallExpr, Ident, Lit, Node, Program, Tree, trees};
use crate::config::{Config, ConfigView};
use crate::rewrite::{console_method_of, exempt, prefixed, qualifies, rewritten, rewritten_all};
use crate::text::{replace, same_text};

verus! {

/// The member of the logging object that `callee` names, if `callee` is `console.name`
/// with both parts bare identifiers.
pub fn console_method(callee: &Node) -> (method: Option<&Ident>)
    ensures
        match method {
            Some(id) => console_method_of(callee@) == Some(id@),
            None => console_method_of(callee@) is None,
        },
{
    match callee {
        Node::Member(member) => {
            if member.computed {
                return None;
            }
            match (&*member.obj, &*member.prop) {
                (Node::Ident(object), Node::Ident(method)) => {
                    assert(member.obj@ == Tree::Ident { sym: object@ });
                    assert(member.prop@ == Tree::Ident { sym: method@ });
                    if same_text(object.sym.as_str(), "console") {
                        Some(method)
                    } else {
                        None
                    }
                },
                _ => None,
            }
        },
        _ => None,
    }
}

/// Walks a program tree and puts the configured prefix before the arguments of every
/// qualifying call.
pub struct TransformVisitor {
    config: Config,
}

impl View for TransformVisitor {
    type V = ConfigView;

    closed spec fn view(&self) -> ConfigView {
        self.config@
    }
}

impl TransformVisitor {
    /// A visitor that works to `config`.
    pub fn new(config: Config) -> (visitor: Self)
        ensures
            visitor@ == config@,
    {
        Self { config }
    }

    /// Whether calls of the method `id` of the logging object are left alone.
    pub fn ignore_console_method(&self, id: &Ident) -> (ignored: bool)
        ensures
            ignored == exempt(self@.ignore, id@),
    {
        if same_text(id.sym.as_str(), "table") {
            return true;
        }
        let n = self.config.ignore.len();
        let mut i: usize = 0;
        while i < n
            invariant
                i <= n,
                n == self.config.ignore.len(),
                forall|j: int| 0 <= j < i ==> self@.ignore[j] != id@,
            decreases n - i,
        {
            if self.config.ignore[i] == id.sym {
                assert(self@.ignore[i as int] == id@);
                return true;
            }
            i = i + 1;
        }
        false
    }

    /// Whether a call of `callee` is one to rewrite: `callee` names a method of the
    /// logging object, and that method is not exempt.
    pub fn applies_to(&self, callee: &Node) -> (hit: bool)
        ensures
            hit == qualifies(callee@, self@.ignore),
    {
        match console_method(callee) {
            Some(method) => !self.ignore_console_method(method),
            None => false,
        }
    }

    /// The prefix for the file at hand: the pattern with every `[filename]` replaced by
    /// the file name, or by nothing where none is known.
    pub fn generate_prefix(&self) -> (prefix: String)
        ensures
            prefix@ == self@.prefix(),
    {
        proof {
            reveal_strlit("");
        }
        let filename: &str = match &self.config.filename {
            Some(name) => name.as_str(),
            None => "",
        };
        assert(self@.filename is None ==> filename@ =~= Seq::<char>::empty());
        replace(self.config.prefix_pattern.as_str(), "[filename]", filename)
    }

    /// The prefix to put before the arguments of a call of `callee`: `Some` where the call
    /// qualifies and the prefix is not empty, `None` where the call is to be left as it
    /// is. A host that walks a tree of its own asks this of every call it meets, once
    /// the call's children are done.
    pub fn injection(&self, callee: &Node) -> (prefix: Option<String>)
        ensures
            match prefix {
                Some(prefix) => {
                    &&& qualifies(callee@, self@.ignore)
                    &&& prefix@ == self@.prefix()
                    &&& prefix@.len() > 0
                },
                None => !qualifies(callee@, self@.ignore) || self@.prefix().len() == 0,
            },
    {
        if !self.applies_to(callee) {
            return None;
        }
        let prefix = self.generate_prefix();
        if prefix.as_str().is_empty() {
            None
        } else {
            Some(prefix)
        }
    }

    /// Puts the prefix, as a string literal, before the arguments of `call_expr`. Where
    /// the prefix is empty the call is left as it is.
    pub fn add_prefix_to_log(&self, call_expr: &mut CallExpr)
        ensures
            final(call_expr)@ == prefixed(old(call_expr)@, self@.prefix()),
    {
        let prefix = self.generate_prefix();
        if !prefix.as_str().is_empty() {
            let ghost before = call_expr.args@;
            call_expr.args.insert(0, Node::Lit(Lit::Str(prefix)));
            assert(trees(call_expr.args@) =~= seq![Tree::Str { value: self@.prefix() }] + trees(
                before,
            ));
        }
    }

    /// Rewrites everything below `call_expr`, then `call_expr` itself where it qualifies.
    pub fn visit_mut_call_expr(&mut self, call_expr: &mut CallExpr)
        ensures
            final(call_expr)@ == rewritten(old(call_expr)@, old(self)@),
            final(self)@ == old(self)@,
        decreases *old(call_expr),
    {
        self.visit_mut_node(&mut *call_expr.callee);
        self.visit_mut_nodes(&mut call_expr.args);
        if self.applies_to(&*call_expr.callee) {
            self.add_prefix_to_log(call_expr);
        }
    }

    /// Rewrites `node` and everything below it, children before parents.
    pub fn visit_mut_node(&mut self, node: &mut Node)
        ensures
            final(node)@ == rewritten(old(node)@, old(self)@),
            final(self)@ == old(self)@,
        decreases *old(node),
    {
        match node {
            Node::Call(call) => {
                self.visit_mut_call_expr(call);
            },
            Node::Member(member) => {
                self.visit_mut_node(&mut *member.obj);
                self.visit_mut_node(&mut *member.prop);
            },
            Node::Other { kind, children } => {
                self.visit_mut_nodes(children);
            },
            _ => {},
        }
    }

    /// Rewrites every node of `program`.
    pub fn visit_mut_program(&mut self, program: &mut Program)
        ensures
            final(program)@ == rewritten_all(old(program)@, old(self)@),
            final(self)@ == old(self)@,
    {
        self.visit_mut_nodes(&mut program.body);
    }

    /// Rewrites each node of `nodes` in turn.
    pub fn visit_mut_nodes(&mut self, nodes: &mut Vec<Node>)
        ensures
            trees(final(nodes)@) == rewritten_all(trees(old(nodes)@), old(self)@),
            final(self)@ == old(self)@,
        decreases old(nodes)@,
    {
        let n = nodes.len();
        let mut i: usize = 0;
        while i < n
            invariant
                i <= n,
                n == nodes.len(),
                nodes.len() == old(nodes).len(),
                self@ == old(self)@,
                forall|j: int| 0 <= j < i ==> nodes[j]@ == rewritten(old(nodes)[j]@, self@),
                forall|j: int| i <= j < n ==> nodes[j] == old(nodes)[j],
            decreases n - i,
        {
            self.visit_mut_node(&mut nodes[i]);
            i = i + 1;
        }
    }
}

} // verus!
