//! Adapter: a turkey made to answer the duck interface — its gobble
//! serves as the quack, and one duck flight becomes five short hops.

use vstd::prelude::*;

verus! {

/// The interface the client expects.
pub trait Duck {
    /// The quacking sound.
    spec fn spec_quack(&self) -> Seq<char>;

    /// The lines one flight produces.
    spec fn spec_fly(&self) -> Seq<Seq<char>>;

    fn quack(&self) -> (r: String)
        ensures
            r@ == self.spec_quack(),
    ;

    fn fly(&self) -> (lines: Vec<String>)
        ensures
            lines@.map_values(|s: String| s@) == self.spec_fly(),
    ;
}

/// A real duck.
pub struct MallardDuck;

impl Duck for MallardDuck {
    open spec fn spec_quack(&self) -> Seq<char> {
        "Кря-кря!"@
    }

    open spec fn spec_fly(&self) -> Seq<Seq<char>> {
        seq!["Утка летит!"@]
    }

    fn quack(&self) -> (r: String) {
        "Кря-кря!".to_owned()
    }

    fn fly(&self) -> (lines: Vec<String>) {
        let mut lines: Vec<String> = Vec::new();
        lines.push("Утка летит!".to_owned());
        proof {
            assert(lines@.map_values(|s: String| s@) =~= self.spec_fly());
        }
        lines
    }
}

/// The incompatible interface being adapted.
pub trait Turkey {
    /// The gobbling sound.
    spec fn spec_gobble(&self) -> Seq<char>;

    /// The line one short hop produces.
    spec fn spec_fly(&self) -> Seq<char>;

    fn gobble(&self) -> (r: String)
        ensures
            r@ == self.spec_gobble(),
    ;

    fn fly(&self) -> (r: String)
        ensures
            r@ == self.spec_fly(),
    ;
}

/// A real turkey.
pub struct WildTurkey;

impl Turkey for WildTurkey {
    open spec fn spec_gobble(&self) -> Seq<char> {
        "Курлы-курлы!"@
    }

    open spec fn spec_fly(&self) -> Seq<char> {
        "Индюк летит на короткое расстояние!"@
    }

    fn gobble(&self) -> (r: String) {
        "Курлы-курлы!".to_owned()
    }

    fn fly(&self) -> (r: String) {
        "Индюк летит на короткое расстояние!".to_owned()
    }
}

/// Wraps a turkey so it can stand in for a duck.
pub struct TurkeyAdapter {
    pub turkey: WildTurkey,
}

impl TurkeyAdapter {
    pub fn new(turkey: WildTurkey) -> (a: TurkeyAdapter)
        ensures
            a.turkey == turkey,
    {
        TurkeyAdapter { turkey }
    }
}

impl Duck for TurkeyAdapter {
    open spec fn spec_quack(&self) -> Seq<char> {
        self.turkey.spec_gobble()
    }

    open spec fn spec_fly(&self) -> Seq<Seq<char>> {
        Seq::new(5, |i: int| self.turkey.spec_fly())
    }

    fn quack(&self) -> (r: String) {
        self.turkey.gobble()
    }

    fn fly(&self) -> (lines: Vec<String>) {
        let mut lines: Vec<String> = Vec::new();
        let mut i: usize = 0;
        while i < 5
            invariant
                i <= 5,
                lines@.len() == i,
                forall|k: int| 0 <= k < i ==> (#[trigger] lines@[k])@ == self.turkey.spec_fly(),
            decreases 5 - i,
        {
            lines.push(self.turkey.fly());
            i += 1;
        }
        proof {
            assert(lines@.map_values(|s: String| s@) =~= self.spec_fly());
        }
        lines
    }
}

} // verus!
