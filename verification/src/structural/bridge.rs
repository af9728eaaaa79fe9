//! Bridge: shapes on one side, colours on the other, combined freely.

use vstd::prelude::*;

verus! {

/// The implementation side: a colour.
pub trait Color {
    /// The colour's name.
    spec fn spec_color(&self) -> Seq<char>;

    fn apply_color(&self) -> (r: String)
        ensures
            r@ == self.spec_color(),
    ;
}

pub struct RedColor;

impl Color for RedColor {
    open spec fn spec_color(&self) -> Seq<char> {
        "красный"@
    }

    fn apply_color(&self) -> (r: String) {
        "красный".to_owned()
    }
}

pub struct BlueColor;

impl Color for BlueColor {
    open spec fn spec_color(&self) -> Seq<char> {
        "синий"@
    }

    fn apply_color(&self) -> (r: String) {
        "синий".to_owned()
    }
}

/// The abstraction side: a shape that draws itself in its colour.
pub trait Shape {
    /// The line drawing produces.
    spec fn spec_draw(&self) -> Seq<char>;

    fn draw(&self) -> (r: String)
        ensures
            r@ == self.spec_draw(),
    ;
}

/// A circle over any colour.
pub struct Circle<C: Color> {
    pub color: C,
}

impl<C: Color> Circle<C> {
    pub fn new(color: C) -> (c: Circle<C>)
        ensures
            c.color == color,
    {
        Circle { color }
    }
}

impl<C: Color> Shape for Circle<C> {
    open spec fn spec_draw(&self) -> Seq<char> {
        "Рисуем круг "@ + self.color.spec_color() + " цветом"@
    }

    fn draw(&self) -> (r: String) {
        let mut s = "Рисуем круг ".to_owned();
        s.append(self.color.apply_color().as_str());
        s.append(" цветом");
        s
    }
}

/// A square over any colour.
pub struct Square<C: Color> {
    pub color: C,
}

impl<C: Color> Square<C> {
    pub fn new(color: C) -> (sq: Square<C>)
        ensures
            sq.color == color,
    {
        Square { color }
    }
}

impl<C: Color> Shape for Square<C> {
    open spec fn spec_draw(&self) -> Seq<char> {
        "Рисуем квадрат "@ + self.color.spec_color() + " цветом"@
    }

    fn draw(&self) -> (r: String) {
        let mut s = "Рисуем квадрат ".to_owned();
        s.append(self.color.apply_color().as_str());
        s.append(" цветом");
        s
    }
}

} // verus!
