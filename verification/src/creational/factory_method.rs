//! Factory method: a creator decides which product to instantiate; the
//! product's report is pinned by the creator's contract.

use vstd::prelude::*;

verus! {

/// A product created by some factory.
pub trait Product {
    /// What this product's operation reports.
    spec fn spec_operation(&self) -> Seq<char>;

    fn operation(&self) -> (r: String)
        ensures
            r@ == self.spec_operation(),
    ;
}

pub struct ConcreteProductA;

impl Product for ConcreteProductA {
    open spec fn spec_operation(&self) -> Seq<char> {
        "Результат продукта A"@
    }

    fn operation(&self) -> (r: String) {
        "Результат продукта A".to_owned()
    }
}

pub struct ConcreteProductB;

impl Product for ConcreteProductB {
    open spec fn spec_operation(&self) -> Seq<char> {
        "Результат продукта B"@
    }

    fn operation(&self) -> (r: String) {
        "Результат продукта B".to_owned()
    }
}

/// A creator: its factory method builds a product whose report the
/// creator itself specifies.
pub trait Creator {
    type P: Product;

    /// What the created product reports.
    spec fn spec_product_operation(&self) -> Seq<char>;

    fn factory_method(&self) -> (p: Self::P)
        ensures
            p.spec_operation() == self.spec_product_operation(),
    ;
}

pub struct ConcreteCreatorA;

impl Creator for ConcreteCreatorA {
    type P = ConcreteProductA;

    open spec fn spec_product_operation(&self) -> Seq<char> {
        "Результат продукта A"@
    }

    fn factory_method(&self) -> (p: Self::P) {
        ConcreteProductA
    }
}

pub struct ConcreteCreatorB;

impl Creator for ConcreteCreatorB {
    type P = ConcreteProductB;

    open spec fn spec_product_operation(&self) -> Seq<char> {
        "Результат продукта B"@
    }

    fn factory_method(&self) -> (p: Self::P) {
        ConcreteProductB
    }
}

} // verus!
