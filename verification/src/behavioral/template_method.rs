//! Template method: the skeleton of brewing a hot drink is fixed once;
//! each beverage fills in its own brewing and condiment steps.

use vstd::prelude::*;

verus! {

/// The fixed skeleton: boil, brew, pour, and — when wanted — condiments.
pub open spec fn prepare_steps(brew: Seq<char>, condiments: Seq<char>, wants: bool) -> Seq<
    Seq<char>,
> {
    let base = seq!["Кипячение воды"@, brew, "Налив в чашку"@];
    if wants {
        base.push(condiments)
    } else {
        base
    }
}

/// The steps of preparing a beverage: the skeleton is shared, the brew
/// and condiment steps vary per beverage.
pub trait Beverage {
    /// The description of this beverage's brewing step.
    spec fn spec_brew(&self) -> Seq<char>;

    /// The description of this beverage's condiments step.
    spec fn spec_condiments(&self) -> Seq<char>;

    /// Whether condiments are added.
    spec fn spec_wants_condiments(&self) -> bool;

    /// Brews the beverage.
    fn brew(&self) -> (r: String)
        ensures
            r@ == self.spec_brew(),
    ;

    /// Adds this beverage's condiments.
    fn add_condiments(&self) -> (r: String)
        ensures
            r@ == self.spec_condiments(),
    ;

    /// Whether the customer wants condiments.
    fn customer_wants_condiments(&self) -> (r: bool)
        ensures
            r == self.spec_wants_condiments(),
    ;

    /// Boils the water; the same for every beverage.
    fn boil_water(&self) -> (r: String)
        ensures
            r@ == "Кипячение воды"@,
    {
        "Кипячение воды".to_owned()
    }

    /// Pours into the cup; the same for every beverage.
    fn pour_in_cup(&self) -> (r: String)
        ensures
            r@ == "Налив в чашку"@,
    {
        "Налив в чашку".to_owned()
    }

    /// The template method: runs the fixed skeleton, collecting the
    /// step descriptions in order.
    fn prepare(&self) -> (steps: Vec<String>)
        ensures
            steps@.map_values(|s: String| s@) == prepare_steps(
                self.spec_brew(),
                self.spec_condiments(),
                self.spec_wants_condiments(),
            ),
    {
        let mut steps: Vec<String> = Vec::new();
        steps.push(self.boil_water());
        steps.push(self.brew());
        steps.push(self.pour_in_cup());
        if self.customer_wants_condiments() {
            steps.push(self.add_condiments());
        }
        proof {
            assert(steps@.map_values(|s: String| s@) =~= prepare_steps(
                self.spec_brew(),
                self.spec_condiments(),
                self.spec_wants_condiments(),
            ));
        }
        steps
    }
}

/// Coffee: brewed from grounds, finished with sugar and milk.
pub struct Coffee;

impl Beverage for Coffee {
    open spec fn spec_brew(&self) -> Seq<char> {
        "Заваривание кофе"@
    }

    open spec fn spec_condiments(&self) -> Seq<char> {
        "Добавление сахара и молока"@
    }

    open spec fn spec_wants_condiments(&self) -> bool {
        true
    }

    fn brew(&self) -> (r: String) {
        "Заваривание кофе".to_owned()
    }

    fn add_condiments(&self) -> (r: String) {
        "Добавление сахара и молока".to_owned()
    }

    fn customer_wants_condiments(&self) -> (r: bool) {
        true
    }
}

/// Tea: steeped leaves, finished with lemon.
pub struct Tea;

impl Beverage for Tea {
    open spec fn spec_brew(&self) -> Seq<char> {
        "Заваривание чая"@
    }

    open spec fn spec_condiments(&self) -> Seq<char> {
        "Добавление лимона"@
    }

    open spec fn spec_wants_condiments(&self) -> bool {
        true
    }

    fn brew(&self) -> (r: String) {
        "Заваривание чая".to_owned()
    }

    fn add_condiments(&self) -> (r: String) {
        "Добавление лимона".to_owned()
    }

    fn customer_wants_condiments(&self) -> (r: bool) {
        true
    }
}

} // verus!
