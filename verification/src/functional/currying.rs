//! Currying: functions of several arguments taken one argument at a time,
//! each partial application an explicit stage with its own contract.

use vstd::prelude::*;

verus! {

/// Addition with its first summand fixed.
pub struct Adder {
    pub first: i32,
}

/// Curried addition: takes the first summand and returns the stage that
/// waits for the second.
pub fn add(x: i32) -> (f: Adder)
    ensures
        f.first == x,
{
    Adder { first: x }
}

impl Adder {
    /// Supplies the second summand.
    pub fn apply(&self, y: i32) -> (r: i32)
        requires
            i32::MIN <= self.first + y <= i32::MAX,
        ensures
            r == self.first + y,
    {
        self.first + y
    }
}

/// The product of three factors, two of them still to come.
pub struct MultiplyTwoMore {
    pub first: i32,
}

/// The product of three factors, one of them still to come.
pub struct MultiplyOneMore {
    pub sofar: i64,
}

/// Curried three-way multiplication: each stage takes one factor.
pub fn multiply(x: i32) -> (m: MultiplyTwoMore)
    ensures
        m.first == x,
{
    MultiplyTwoMore { first: x }
}

impl MultiplyTwoMore {
    /// Supplies the second factor.
    pub fn apply(&self, y: i32) -> (m: MultiplyOneMore)
        ensures
            m.sofar == self.first * y,
    {
        proof {
            assert((self.first as int) * (y as int) <= i64::MAX && i64::MIN <= (self.first as int)
                * (y as int)) by (nonlinear_arith)
                requires
                    i32::MIN <= self.first <= i32::MAX,
                    i32::MIN <= y <= i32::MAX,
            ;
        }
        MultiplyOneMore { sofar: (self.first as i64) * (y as i64) }
    }
}

impl MultiplyOneMore {
    /// Supplies the third factor and completes the product.
    pub fn apply(&self, z: i32) -> (r: i32)
        requires
            i32::MIN <= self.sofar * z <= i32::MAX,
        ensures
            r == self.sofar * z,
    {
        (self.sofar * (z as i64)) as i32
    }
}

/// A greeting with its prefix fixed.
pub struct Greeter {
    pub prefix: String,
}

/// Curried greeting: fixes the prefix and returns the stage that waits
/// for the name.
pub fn format_greeting(prefix: &str) -> (g: Greeter)
    ensures
        g.prefix@ == prefix@,
{
    Greeter { prefix: prefix.to_owned() }
}

impl Greeter {
    /// Supplies the name: the greeting is the prefix, a space, the name.
    pub fn apply(&self, name: &str) -> (r: String)
        ensures
            r@ == self.prefix@ + seq![' '] + name@,
    {
        let mut s = self.prefix.clone();
        s.append(" ");
        s.append(name);
        proof {
            reveal_strlit(" ");
            assert(s@ =~= self.prefix@ + seq![' '] + name@);
        }
        s
    }
}

} // verus!
