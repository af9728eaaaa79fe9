//! Interpreter: a little language of numbers, sums and products, each
//! node interpreting itself.

use vstd::prelude::*;

verus! {

/// A terminal expression: a number.
pub struct Number {
    pub value: i32,
}

/// A sum of two subexpressions.
pub struct Add {
    pub left: Box<Expr>,
    pub right: Box<Expr>,
}

/// A product of two subexpressions.
pub struct Multiply {
    pub left: Box<Expr>,
    pub right: Box<Expr>,
}

/// Any expression of the language.
pub enum Expr {
    Number(Number),
    Add(Add),
    Multiply(Multiply),
}

/// The mathematical value of an expression.
pub open spec fn value_of(e: Expr) -> int
    decreases e,
{
    match e {
        Expr::Number(n) => n.value as int,
        Expr::Add(a) => value_of(*a.left) + value_of(*a.right),
        Expr::Multiply(m) => value_of(*m.left) * value_of(*m.right),
    }
}

/// Every node's value — the expression's own included — fits in `i32`.
pub open spec fn in_bounds(e: Expr) -> bool
    decreases e,
{
    i32::MIN <= value_of(e) <= i32::MAX && match e {
        Expr::Number(_) => true,
        Expr::Add(a) => in_bounds(*a.left) && in_bounds(*a.right),
        Expr::Multiply(m) => in_bounds(*m.left) && in_bounds(*m.right),
    }
}

/// An expression node: interpreting it yields its mathematical value.
pub trait Expression {
    /// The value this node stands for.
    spec fn spec_value(&self) -> int;

    /// Every intermediate value fits in `i32`.
    spec fn spec_in_bounds(&self) -> bool;

    /// Computes the node's value.
    fn interpret(&self) -> (r: i32)
        requires
            self.spec_in_bounds(),
        ensures
            r == self.spec_value(),
    ;
}

impl Number {
    pub fn new(value: i32) -> (n: Number)
        ensures
            n.value == value,
    {
        Number { value }
    }
}

impl Expression for Number {
    open spec fn spec_value(&self) -> int {
        self.value as int
    }

    open spec fn spec_in_bounds(&self) -> bool {
        true
    }

    fn interpret(&self) -> (r: i32) {
        self.value
    }
}

impl Add {
    pub fn new(left: Expr, right: Expr) -> (a: Add)
        ensures
            *a.left == left,
            *a.right == right,
    {
        Add { left: Box::new(left), right: Box::new(right) }
    }
}

impl Expression for Add {
    open spec fn spec_value(&self) -> int {
        value_of(*self.left) + value_of(*self.right)
    }

    open spec fn spec_in_bounds(&self) -> bool {
        i32::MIN <= self.spec_value() <= i32::MAX && in_bounds(*self.left) && in_bounds(
            *self.right,
        )
    }

    fn interpret(&self) -> (r: i32)
        decreases *self,
    {
        let left_val = self.left.interpret();
        let right_val = self.right.interpret();
        left_val + right_val
    }
}

impl Multiply {
    pub fn new(left: Expr, right: Expr) -> (m: Multiply)
        ensures
            *m.left == left,
            *m.right == right,
    {
        Multiply { left: Box::new(left), right: Box::new(right) }
    }
}

impl Expression for Multiply {
    open spec fn spec_value(&self) -> int {
        value_of(*self.left) * value_of(*self.right)
    }

    open spec fn spec_in_bounds(&self) -> bool {
        i32::MIN <= self.spec_value() <= i32::MAX && in_bounds(*self.left) && in_bounds(
            *self.right,
        )
    }

    fn interpret(&self) -> (r: i32)
        decreases *self,
    {
        let left_val = self.left.interpret();
        let right_val = self.right.interpret();
        left_val * right_val
    }
}

impl Expression for Expr {
    open spec fn spec_value(&self) -> int {
        value_of(*self)
    }

    open spec fn spec_in_bounds(&self) -> bool {
        in_bounds(*self)
    }

    fn interpret(&self) -> (r: i32)
        decreases *self,
    {
        match self {
            Expr::Number(n) => n.interpret(),
            Expr::Add(a) => a.interpret(),
            Expr::Multiply(m) => m.interpret(),
        }
    }
}

} // verus!
