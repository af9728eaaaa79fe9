//! Flyweight: characters that share one object per distinct
//! symbol-and-font pair, handed out by a caching factory.

use vstd::prelude::*;
use std::rc::Rc;
use crate::textutil::char_to_string;
use crate::textutil::i32_to_string;
use crate::textutil::spec_decimal_signed;
use crate::textutil::str_eq;

verus! {

/// Relies on `Rc::clone`: the clone is another pointer to the same
/// allocation, so it carries the same value.
#[verifier::external_body]
fn rc_clone<T>(rc: &Rc<T>) -> (r: Rc<T>)
    ensures
        r == *rc,
{
    Rc::clone(rc)
}

/// The shared state: a symbol in a font.
#[derive(Clone)]
pub struct Character {
    pub symbol: char,
    pub font: String,
}

/// The line displaying a character at a position produces.
pub open spec fn character_line(symbol: char, font: Seq<char>, x: int, y: int) -> Seq<char> {
    "Символ '"@ + seq![symbol] + "' шрифтом '"@ + font + "' на позиции ("@ + spec_decimal_signed(
        x,
    ) + ", "@ + spec_decimal_signed(y) + ")"@
}

impl Character {
    pub fn new(symbol: char, font: &str) -> (c: Character)
        ensures
            c.symbol == symbol,
            c.font@ == font@,
    {
        Character { symbol, font: font.to_owned() }
    }

    /// Displays the character at an extrinsic position.  The symbol is
    /// limited to printable ASCII so the line can be rendered here.
    pub fn display(&self, position: (i32, i32)) -> (r: String)
        requires
            32 <= self.symbol as int <= 126,
        ensures
            r@ == character_line(
                self.symbol,
                self.font@,
                position.0 as int,
                position.1 as int,
            ),
    {
        let mut s = "Символ '".to_owned();
        s.append(char_to_string(self.symbol).as_str());
        s.append("' шрифтом '");
        s.append(self.font.as_str());
        s.append("' на позиции (");
        s.append(i32_to_string(position.0).as_str());
        s.append(", ");
        s.append(i32_to_string(position.1).as_str());
        s.append(")");
        s
    }
}

/// The factory: caches one shared [`Character`] per symbol-and-font
/// pair.
pub struct FlyweightFactory {
    characters: Vec<Rc<Character>>,
}

impl FlyweightFactory {
    /// The cached characters, for contracts.
    pub closed spec fn spec_characters(self) -> Seq<Character> {
        self.characters@.map_values(|rc: Rc<Character>| *rc)
    }

    /// Whether the cache holds the pair.
    pub open spec fn has_pair(self, symbol: char, font: Seq<char>) -> bool {
        exists|k: int|
            0 <= k < self.spec_characters().len() && (#[trigger] self.spec_characters()[k]).symbol
                == symbol && self.spec_characters()[k].font@ == font
    }

    /// A factory with an empty cache.
    pub fn new() -> (factory: FlyweightFactory)
        ensures
            factory.spec_characters() == Seq::<Character>::empty(),
    {
        let factory = FlyweightFactory { characters: Vec::new() };
        proof {
            assert(factory.spec_characters() =~= Seq::<Character>::empty());
        }
        factory
    }

    /// The shared character for the pair: the cached one when the pair
    /// has been seen, else a fresh one, cached from now on.
    pub fn get_character(&mut self, symbol: char, font: &str) -> (r: Rc<Character>)
        ensures
            r.symbol == symbol,
            r.font@ == font@,
            final(self).has_pair(symbol, font@),
            old(self).has_pair(symbol, font@) ==> final(self).spec_characters() == old(
                self,
            ).spec_characters(),
            !old(self).has_pair(symbol, font@) ==> final(self).spec_characters() == old(
                self,
            ).spec_characters().push(*r),
    {
        let mut i: usize = 0;
        while i < self.characters.len()
            invariant
                i <= self.characters.len(),
                forall|k: int|
                    0 <= k < i ==> !((#[trigger] self.spec_characters()[k]).symbol == symbol
                        && self.spec_characters()[k].font@ == font@),
            decreases self.characters.len() - i,
        {
            proof {
                assert(self.spec_characters()[i as int] == *self.characters@[i as int]);
            }
            let candidate = &self.characters[i];
            if candidate.symbol == symbol && str_eq(candidate.font.as_str(), font) {
                let r = rc_clone(candidate);
                proof {
                    assert(self.spec_characters()[i as int].symbol == symbol
                        && self.spec_characters()[i as int].font@ == font@);
                }
                return r;
            }
            i += 1;
        }
        let fresh = Rc::new(Character::new(symbol, font));
        let r = rc_clone(&fresh);
        let ghost before = self.spec_characters();
        self.characters.push(fresh);
        proof {
            assert(self.spec_characters() =~= before.push(*r));
            assert(self.spec_characters()[before.len() as int].symbol == symbol
                && self.spec_characters()[before.len() as int].font@ == font@);
        }
        r
    }
}

} // verus!
