//! The program tree that the transform reads and rewrites.
//!
//! A tree is a tagged union of five node kinds: call expressions, member-access
//! expressions, identifiers, literals, and everything else. Nodes of the last kind
//! carry a label that the transform never looks at, and their children in source
//! order: statements, operators, array and object literals, spread arguments, `super`
//! and whatever else a host's syntax has. Each executable type has a mathematical
//! model, [`Tree`], over which the contracts of the transform are stated.

use vstd::prelude::*;

verus! {

/// The mathematical model of a node and of everything below it.
pub enum Tree {
    /// `callee(args...)`.
    Call { callee: Box<Tree>, args: Seq<Tree> },
    /// `obj.prop`, or `obj[prop]` where `computed` holds.
    Member { obj: Box<Tree>, prop: Box<Tree>, computed: bool },
    /// A bare identifier, by its spelling.
    Ident { sym: Seq<char> },
    /// A string literal, by its value.
    Str { value: Seq<char> },
    /// Any other literal, by its source text.
    Lit { raw: Seq<char> },
    /// Any other node: a label and the children in order.
    Other { kind: Seq<char>, children: Seq<Tree> },
}

/// A bare identifier.
#[derive(Debug, PartialEq, Eq)]
pub struct Ident {
    /// The identifier's spelling.
    pub sym: String,
}

/// A literal.
#[derive(Debug, PartialEq, Eq)]
pub enum Lit {
    /// A string literal, by its value.
    Str(String),
    /// A literal of any other kind (number, boolean, `null`, ...), by its source text.
    Other(String),
}

/// A member access, `obj.prop` or `obj[prop]`.
#[derive(Debug, PartialEq, Eq)]
pub struct MemberExpr {
    /// The expression whose member is read.
    pub obj: Box<Node>,
    /// The member: an identifier node for `obj.name`, any expression for `obj[expr]`.
    pub prop: Box<Node>,
    /// Whether the access is written with brackets.
    pub computed: bool,
}

/// A call, `callee(args...)`.
#[derive(Debug, PartialEq, Eq)]
pub struct CallExpr {
    /// The expression that is called.
    pub callee: Box<Node>,
    /// The arguments, in order. A spread argument is a node of its own around the
    /// expression that is spread.
    pub args: Vec<Node>,
}

/// A node of the program tree.
#[derive(Debug, PartialEq, Eq)]
pub enum Node {
    /// A call expression.
    Call(CallExpr),
    /// A member-access expression.
    Member(MemberExpr),
    /// A bare identifier.
    Ident(Ident),
    /// A literal.
    Lit(Lit),
    /// A statement or an expression of any other kind.
    Other {
        /// A label for the node's kind; the transform never reads it.
        kind: String,
        /// The node's children, in source order.
        children: Vec<Node>,
    },
}

/// A whole compilation unit: its top-level nodes in source order.
#[derive(Debug, PartialEq, Eq)]
pub struct Program {
    /// The top-level nodes.
    pub body: Vec<Node>,
}

/// The models of a sequence of nodes, in the same order.
pub open spec fn trees(nodes: Seq<Node>) -> Seq<Tree>
    decreases nodes,
{
    Seq::new(
        nodes.len(),
        |i: int|
            if 0 <= i < nodes.len() {
                nodes[i].tree()
            } else {
                arbitrary()
            },
    )
}

impl Node {
    /// The model of this node.
    pub open spec fn tree(self) -> Tree
        decreases self,
    {
        match self {
            Node::Call(call) => call.tree(),
            Node::Member(member) => member.tree(),
            Node::Ident(id) => Tree::Ident { sym: id.sym@ },
            Node::Lit(Lit::Str(value)) => Tree::Str { value: value@ },
            Node::Lit(Lit::Other(raw)) => Tree::Lit { raw: raw@ },
            Node::Other { kind, children } => Tree::Other {
                kind: kind@,
                children: trees(children@),
            },
        }
    }
}

impl CallExpr {
    /// The model of this call: always a [`Tree::Call`].
    pub open spec fn tree(self) -> Tree
        decreases self,
    {
        Tree::Call { callee: Box::new((*self.callee).tree()), args: trees(self.args@) }
    }
}

impl MemberExpr {
    /// The model of this member access: always a [`Tree::Member`].
    pub open spec fn tree(self) -> Tree
        decreases self,
    {
        Tree::Member {
            obj: Box::new((*self.obj).tree()),
            prop: Box::new((*self.prop).tree()),
            computed: self.computed,
        }
    }
}

impl View for Ident {
    type V = Seq<char>;

    open spec fn view(&self) -> Seq<char> {
        self.sym@
    }
}

impl View for Node {
    type V = Tree;

    open spec fn view(&self) -> Tree {
        self.tree()
    }
}

impl View for CallExpr {
    type V = Tree;

    open spec fn view(&self) -> Tree {
        self.tree()
    }
}

impl View for MemberExpr {
    type V = Tree;

    open spec fn view(&self) -> Tree {
        self.tree()
    }
}

impl View for Program {
    type V = Seq<Tree>;

    open spec fn view(&self) -> Seq<Tree> {
        trees(self.body@)
    }
}

} // verus!
