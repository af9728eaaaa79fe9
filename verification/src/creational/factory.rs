//! Abstract factory: two families of collaborating products, each
//! created by its own factory.

use vstd::prelude::*;

verus! {

/// A product of kind A.
pub trait AbstractProductA {
    /// What this product's operation reports.
    spec fn spec_operation_a(&self) -> Seq<char>;

    fn operation_a(&self) -> (r: String)
        ensures
            r@ == self.spec_operation_a(),
    ;
}

/// A product of kind B, able to collaborate with any product of kind A.
pub trait AbstractProductB {
    /// What this product's operation reports.
    spec fn spec_operation_b(&self) -> Seq<char>;

    /// What collaborating reports, given the collaborator's report.
    spec fn spec_collaborate(&self, a: Seq<char>) -> Seq<char>;

    fn operation_b(&self) -> (r: String)
        ensures
            r@ == self.spec_operation_b(),
    ;

    fn collaborate<A: AbstractProductA>(&self, collaborator: &A) -> (r: String)
        ensures
            r@ == self.spec_collaborate(collaborator.spec_operation_a()),
    ;
}

pub struct ConcreteProductA1;

impl AbstractProductA for ConcreteProductA1 {
    open spec fn spec_operation_a(&self) -> Seq<char> {
        "Результат операции A1"@
    }

    fn operation_a(&self) -> (r: String) {
        "Результат операции A1".to_owned()
    }
}

pub struct ConcreteProductB1;

impl AbstractProductB for ConcreteProductB1 {
    open spec fn spec_operation_b(&self) -> Seq<char> {
        "Результат операции B1"@
    }

    open spec fn spec_collaborate(&self, a: Seq<char>) -> Seq<char> {
        "Результат сотрудничества B1 с ("@ + a + ")"@
    }

    fn operation_b(&self) -> (r: String) {
        "Результат операции B1".to_owned()
    }

    fn collaborate<A: AbstractProductA>(&self, collaborator: &A) -> (r: String) {
        let mut s = "Результат сотрудничества B1 с (".to_owned();
        s.append(collaborator.operation_a().as_str());
        s.append(")");
        s
    }
}

pub struct ConcreteProductA2;

impl AbstractProductA for ConcreteProductA2 {
    open spec fn spec_operation_a(&self) -> Seq<char> {
        "Результат операции A2"@
    }

    fn operation_a(&self) -> (r: String) {
        "Результат операции A2".to_owned()
    }
}

pub struct ConcreteProductB2;

impl AbstractProductB for ConcreteProductB2 {
    open spec fn spec_operation_b(&self) -> Seq<char> {
        "Результат операции B2"@
    }

    open spec fn spec_collaborate(&self, a: Seq<char>) -> Seq<char> {
        "Результат сотрудничества B2 с ("@ + a + ")"@
    }

    fn operation_b(&self) -> (r: String) {
        "Результат операции B2".to_owned()
    }

    fn collaborate<A: AbstractProductA>(&self, collaborator: &A) -> (r: String) {
        let mut s = "Результат сотрудничества B2 с (".to_owned();
        s.append(collaborator.operation_a().as_str());
        s.append(")");
        s
    }
}

/// A factory for one family of products.
pub trait AbstractFactory {
    type A: AbstractProductA;

    type B: AbstractProductB;

    /// What the factory's kind-A product reports.
    spec fn spec_a_operation(&self) -> Seq<char>;

    /// What the factory's kind-B product reports.
    spec fn spec_b_operation(&self) -> Seq<char>;

    fn create_product_a(&self) -> (p: Self::A)
        ensures
            p.spec_operation_a() == self.spec_a_operation(),
    ;

    fn create_product_b(&self) -> (p: Self::B)
        ensures
            p.spec_operation_b() == self.spec_b_operation(),
    ;
}

/// Creates the family-1 products.
pub struct ConcreteFactory1;

impl AbstractFactory for ConcreteFactory1 {
    type A = ConcreteProductA1;

    type B = ConcreteProductB1;

    open spec fn spec_a_operation(&self) -> Seq<char> {
        "Результат операции A1"@
    }

    open spec fn spec_b_operation(&self) -> Seq<char> {
        "Результат операции B1"@
    }

    fn create_product_a(&self) -> (p: Self::A) {
        ConcreteProductA1
    }

    fn create_product_b(&self) -> (p: Self::B) {
        ConcreteProductB1
    }
}

/// Creates the family-2 products.
pub struct ConcreteFactory2;

impl AbstractFactory for ConcreteFactory2 {
    type A = ConcreteProductA2;

    type B = ConcreteProductB2;

    open spec fn spec_a_operation(&self) -> Seq<char> {
        "Результат операции A2"@
    }

    open spec fn spec_b_operation(&self) -> Seq<char> {
        "Результат операции B2"@
    }

    fn create_product_a(&self) -> (p: Self::A) {
        ConcreteProductA2
    }

    fn create_product_b(&self) -> (p: Self::B) {
        ConcreteProductB2
    }
}

} // verus!
