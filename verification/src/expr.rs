//! Symbolic expressions: the trees in which command descriptions arrive and
//! in which results are handed back.

use vstd::prelude::*;
use crate::text::str_eq;

verus! {

/// A symbolic expression.
#[derive(Debug, PartialEq, Eq)]
pub enum Expr {
    /// A machine integer.
    Integer(i64),
    /// A string.
    String(String),
    /// A symbol, by its full name, such as `` System`List ``.
    Symbol(String),
    /// A head applied to elements.
    Normal(Normal),
    /// An atom of any other kind, of which nothing is known.
    Opaque,
}

/// An expression with a head and elements: `head[elements...]`.
#[derive(Debug, PartialEq, Eq)]
pub struct Normal {
    /// The head.
    pub head: Box<Expr>,
    /// The elements.
    pub elements: Vec<Expr>,
}

/// The mathematical value of an [`Expr`].
pub enum ExprView {
    /// A machine integer.
    Integer(int),
    /// A string.
    String(Seq<char>),
    /// A symbol, by its full name.
    Symbol(Seq<char>),
    /// A head applied to elements.
    Normal(Box<ExprView>, Seq<ExprView>),
    /// An atom of any other kind.
    Opaque,
}

/// The name of the symbol that heads a list.
pub const LIST: &'static str = "System`List";

/// The name of the symbol that heads a rule, `lhs -> rhs`.
pub const RULE: &'static str = "System`Rule";

/// The name of the symbol that heads an association.
pub const ASSOCIATION: &'static str = "System`Association";

/// The name of the symbol for a value that is chosen for the caller.
pub const AUTOMATIC: &'static str = "System`Automatic";

/// The name of the symbol for truth.
pub const TRUE: &'static str = "System`True";

/// The name of the symbol for falsehood.
pub const FALSE: &'static str = "System`False";

/// The name of the symbol that heads a missing value.
pub const MISSING: &'static str = "System`Missing";

/// The name of the symbol that heads a failure.
pub const FAILURE: &'static str = "System`Failure";

/// The values of a list of expressions.
pub open spec fn expr_views(elements: Seq<Expr>) -> Seq<ExprView> {
    Seq::new(elements.len(), |i: int| elements[i]@)
}

impl ExprView {
    /// `head[elements...]`, where the head is the symbol `head`.
    pub open spec fn headed(head: Seq<char>, elements: Seq<ExprView>) -> ExprView {
        ExprView::Normal(Box::new(ExprView::Symbol(head)), elements)
    }

    /// The list of `elements`.
    pub open spec fn list(elements: Seq<ExprView>) -> ExprView {
        ExprView::headed(LIST@, elements)
    }

    /// The rule `lhs -> rhs`.
    pub open spec fn rule(lhs: ExprView, rhs: ExprView) -> ExprView {
        ExprView::headed(RULE@, seq![lhs, rhs])
    }

    /// The symbol for `value`.
    pub open spec fn boolean(value: bool) -> ExprView {
        if value {
            ExprView::Symbol(TRUE@)
        } else {
            ExprView::Symbol(FALSE@)
        }
    }

    /// The truth value that the expression stands for, if it is one of the
    /// two symbols for truth values.
    pub open spec fn as_bool(self) -> Option<bool> {
        if self == ExprView::Symbol(TRUE@) {
            Some(true)
        } else if self == ExprView::Symbol(FALSE@) {
            Some(false)
        } else {
            None
        }
    }
}

impl Expr {
    /// The mathematical value of the expression.
    pub open spec fn model(self) -> ExprView
        decreases self,
    {
        match self {
            Expr::Integer(n) => ExprView::Integer(n as int),
            Expr::String(s) => ExprView::String(s@),
            Expr::Symbol(s) => ExprView::Symbol(s@),
            Expr::Normal(normal) => ExprView::Normal(
                Box::new((*normal.head).model()),
                Seq::new(
                    normal.elements@.len(),
                    |i: int|
                        if 0 <= i < normal.elements@.len() {
                            normal.elements@[i].model()
                        } else {
                            ExprView::Opaque
                        },
                ),
            ),
            Expr::Opaque => ExprView::Opaque,
        }
    }

    /// The value of a normal expression is made of the values of its head
    /// and of its elements.
    pub proof fn lemma_normal_view(self)
        requires
            self is Normal,
        ensures
            self@ == ExprView::Normal(
                Box::new((*self->Normal_0.head)@),
                expr_views(self->Normal_0.elements@),
            ),
    {
        let normal = self->Normal_0;
        let value = self.model();
        assert(value->Normal_1 =~= expr_views(normal.elements@));
    }

    /// The string `text`.
    pub fn string(text: &str) -> (expr: Expr)
        ensures
            expr@ == ExprView::String(text@),
    {
        Expr::String(text.to_owned())
    }

    /// The symbol with the full name `name`.
    pub fn symbol(name: &str) -> (expr: Expr)
        ensures
            expr@ == ExprView::Symbol(name@),
    {
        Expr::Symbol(name.to_owned())
    }

    /// The integer `n`.
    pub fn integer(n: i64) -> (expr: Expr)
        ensures
            expr@ == ExprView::Integer(n as int),
    {
        Expr::Integer(n)
    }

    /// The symbol for the truth value `value`.
    pub fn boolean(value: bool) -> (expr: Expr)
        ensures
            expr@ == ExprView::boolean(value),
    {
        if value {
            Expr::symbol(TRUE)
        } else {
            Expr::symbol(FALSE)
        }
    }

    /// `head[elements...]`.
    pub fn normal(head: Expr, elements: Vec<Expr>) -> (expr: Expr)
        ensures
            expr@ == ExprView::Normal(Box::new(head@), expr_views(elements@)),
    {
        let expr = Expr::Normal(Normal { head: Box::new(head), elements });
        proof {
            expr.lemma_normal_view();
        }
        expr
    }

    /// `name[elements...]`, where the head is the symbol `name`.
    pub fn headed(name: &str, elements: Vec<Expr>) -> (expr: Expr)
        ensures
            expr@ == ExprView::headed(name@, expr_views(elements@)),
    {
        Expr::normal(Expr::symbol(name), elements)
    }

    /// The list of `elements`.
    pub fn list(elements: Vec<Expr>) -> (expr: Expr)
        ensures
            expr@ == ExprView::list(expr_views(elements@)),
    {
        Expr::headed(LIST, elements)
    }

    /// The rule `lhs -> rhs`.
    pub fn rule(lhs: Expr, rhs: Expr) -> (expr: Expr)
        ensures
            expr@ == ExprView::rule(lhs@, rhs@),
    {
        let mut elements: Vec<Expr> = Vec::new();
        elements.push(lhs);
        elements.push(rhs);
        proof {
            assert(expr_views(elements@) =~= seq![lhs@, rhs@]);
        }
        Expr::headed(RULE, elements)
    }

    /// The text of the expression, if it is a string.
    pub fn try_as_str(&self) -> (text: Option<&str>)
        ensures
            match text {
                Some(text) => self@ == ExprView::String(text@),
                None => !(self@ is String),
            },
    {
        match self {
            Expr::String(text) => Some(text.as_str()),
            _ => None,
        }
    }

    /// The full name of the expression, if it is a symbol.
    pub fn try_as_symbol(&self) -> (name: Option<&str>)
        ensures
            match name {
                Some(name) => self@ == ExprView::Symbol(name@),
                None => !(self@ is Symbol),
            },
    {
        match self {
            Expr::Symbol(name) => Some(name.as_str()),
            _ => None,
        }
    }

    /// The head and the elements of the expression, if it has any.
    pub fn try_as_normal(&self) -> (normal: Option<&Normal>)
        ensures
            match normal {
                Some(normal) => self@ == ExprView::Normal(
                    Box::new(normal.head@),
                    expr_views(normal.elements@),
                ),
                None => !(self@ is Normal),
            },
    {
        match self {
            Expr::Normal(normal) => {
                proof {
                    self.lemma_normal_view();
                }
                Some(normal)
            },
            _ => None,
        }
    }

    /// Whether the expression is the symbol with the full name `name`.
    pub fn is_symbol(&self, name: &str) -> (same: bool)
        ensures
            same == (self@ == ExprView::Symbol(name@)),
    {
        match self {
            Expr::Symbol(own) => str_eq(own.as_str(), name),
            _ => false,
        }
    }

    /// The truth value that the expression stands for, if it is one of the
    /// two symbols for truth values.
    pub fn try_as_bool(&self) -> (value: Option<bool>)
        ensures
            value == self@.as_bool(),
    {
        if self.is_symbol(TRUE) {
            Some(true)
        } else if self.is_symbol(FALSE) {
            Some(false)
        } else {
            None
        }
    }
}

impl Normal {
    /// The head.
    pub fn head(&self) -> (head: &Expr)
        ensures
            *head == *self.head,
    {
        &*self.head
    }

    /// The elements.
    pub fn elements(&self) -> (elements: &Vec<Expr>)
        ensures
            *elements == self.elements,
    {
        &self.elements
    }

    /// Whether the head is the symbol with the full name `name`.
    pub fn has_head(&self, name: &str) -> (same: bool)
        ensures
            same == (self.head@ == ExprView::Symbol(name@)),
    {
        self.head.is_symbol(name)
    }
}

impl View for Expr {
    type V = ExprView;

    open spec fn view(&self) -> ExprView {
        self.model()
    }
}

} // verus!
