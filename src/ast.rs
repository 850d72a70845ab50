use vstd::prelude::*;

use crate::token::{is_numeral, Numeral};

verus! {

/// The shape of an expression tree, with each number as its decimal text.
pub enum Expr {
    Add(Box<Expr>, Box<Expr>),
    Multiply(Box<Expr>, Box<Expr>),
    Subtract(Box<Expr>, Box<Expr>),
    Divide(Box<Expr>, Box<Expr>),
    Caret(Box<Expr>, Box<Expr>),
    Negative(Box<Expr>),
    Number(Seq<char>),
}

/// Every number in the tree is a well-formed numeral.
pub open spec fn numerals_wf(e: Expr) -> bool
    decreases e,
{
    match e {
        Expr::Add(l, r) => numerals_wf(*l) && numerals_wf(*r),
        Expr::Multiply(l, r) => numerals_wf(*l) && numerals_wf(*r),
        Expr::Subtract(l, r) => numerals_wf(*l) && numerals_wf(*r),
        Expr::Divide(l, r) => numerals_wf(*l) && numerals_wf(*r),
        Expr::Caret(l, r) => numerals_wf(*l) && numerals_wf(*r),
        Expr::Negative(x) => numerals_wf(*x),
        Expr::Number(t) => is_numeral(t),
    }
}

/// An expression tree; each node owns its children.
#[derive(Debug)]
pub enum Node {
    Add(Box<Node>, Box<Node>),
    Multiply(Box<Node>, Box<Node>),
    Subtract(Box<Node>, Box<Node>),
    Divide(Box<Node>, Box<Node>),
    Caret(Box<Node>, Box<Node>),
    Negative(Box<Node>),
    Number(Numeral),
}

pub open spec fn node_view(n: Node) -> Expr
    decreases n,
{
    match n {
        Node::Add(l, r) => Expr::Add(Box::new(node_view(*l)), Box::new(node_view(*r))),
        Node::Multiply(l, r) => Expr::Multiply(Box::new(node_view(*l)), Box::new(node_view(*r))),
        Node::Subtract(l, r) => Expr::Subtract(Box::new(node_view(*l)), Box::new(node_view(*r))),
        Node::Divide(l, r) => Expr::Divide(Box::new(node_view(*l)), Box::new(node_view(*r))),
        Node::Caret(l, r) => Expr::Caret(Box::new(node_view(*l)), Box::new(node_view(*r))),
        Node::Negative(x) => Expr::Negative(Box::new(node_view(*x))),
        Node::Number(v) => Expr::Number(v@),
    }
}

impl View for Node {
    type V = Expr;

    open spec fn view(&self) -> Expr {
        node_view(*self)
    }
}

impl Node {
    /// A copy of the whole tree.
    pub fn duplicate(&self) -> (r: Node)
        ensures
            r@ == self@,
        decreases self,
    {
        match self {
            Node::Add(l, r) => Node::Add(Box::new(l.duplicate()), Box::new(r.duplicate())),
            Node::Multiply(l, r) => Node::Multiply(Box::new(l.duplicate()), Box::new(r.duplicate())),
            Node::Subtract(l, r) => Node::Subtract(Box::new(l.duplicate()), Box::new(r.duplicate())),
            Node::Divide(l, r) => Node::Divide(Box::new(l.duplicate()), Box::new(r.duplicate())),
            Node::Caret(l, r) => Node::Caret(Box::new(l.duplicate()), Box::new(r.duplicate())),
            Node::Negative(x) => Node::Negative(Box::new(x.duplicate())),
            Node::Number(v) => Node::Number(v.duplicate()),
        }
    }
}

impl Clone for Node {
    fn clone(&self) -> Self {
        self.duplicate()
    }
}

} // verus!
