//! Abstract factory over GUI widgets: each platform's factory creates a
//! button and a checkbox that paint in that platform's style.

use vstd::prelude::*;

verus! {

/// A button that can paint itself.
pub trait Button {
    /// What painting this button reports.
    spec fn spec_paint(&self) -> Seq<char>;

    fn paint(&self) -> (r: String)
        ensures
            r@ == self.spec_paint(),
    ;
}

/// A checkbox that can paint itself.
pub trait Checkbox {
    /// What painting this checkbox reports.
    spec fn spec_paint(&self) -> Seq<char>;

    fn paint(&self) -> (r: String)
        ensures
            r@ == self.spec_paint(),
    ;
}

pub struct WinButton;

impl Button for WinButton {
    open spec fn spec_paint(&self) -> Seq<char> {
        "Отрисовка кнопки в стиле Windows"@
    }

    fn paint(&self) -> (r: String) {
        "Отрисовка кнопки в стиле Windows".to_owned()
    }
}

pub struct WinCheckbox;

impl Checkbox for WinCheckbox {
    open spec fn spec_paint(&self) -> Seq<char> {
        "Отрисовка чекбокса в стиле Windows"@
    }

    fn paint(&self) -> (r: String) {
        "Отрисовка чекбокса в стиле Windows".to_owned()
    }
}

pub struct MacButton;

impl Button for MacButton {
    open spec fn spec_paint(&self) -> Seq<char> {
        "Отрисовка кнопки в стиле macOS"@
    }

    fn paint(&self) -> (r: String) {
        "Отрисовка кнопки в стиле macOS".to_owned()
    }
}

pub struct MacCheckbox;

impl Checkbox for MacCheckbox {
    open spec fn spec_paint(&self) -> Seq<char> {
        "Отрисовка чекбокса в стиле macOS"@
    }

    fn paint(&self) -> (r: String) {
        "Отрисовка чекбокса в стиле macOS".to_owned()
    }
}

/// A factory for one platform's widgets.
pub trait GUIFactory {
    type B: Button;

    type C: Checkbox;

    /// What this platform's button paints.
    spec fn spec_button_paint(&self) -> Seq<char>;

    /// What this platform's checkbox paints.
    spec fn spec_checkbox_paint(&self) -> Seq<char>;

    fn create_button(&self) -> (b: Self::B)
        ensures
            b.spec_paint() == self.spec_button_paint(),
    ;

    fn create_checkbox(&self) -> (c: Self::C)
        ensures
            c.spec_paint() == self.spec_checkbox_paint(),
    ;
}

/// The Windows family.
pub struct WinFactory;

impl GUIFactory for WinFactory {
    type B = WinButton;

    type C = WinCheckbox;

    open spec fn spec_button_paint(&self) -> Seq<char> {
        "Отрисовка кнопки в стиле Windows"@
    }

    open spec fn spec_checkbox_paint(&self) -> Seq<char> {
        "Отрисовка чекбокса в стиле Windows"@
    }

    fn create_button(&self) -> (b: Self::B) {
        WinButton
    }

    fn create_checkbox(&self) -> (c: Self::C) {
        WinCheckbox
    }
}

/// The macOS family.
pub struct MacFactory;

impl GUIFactory for MacFactory {
    type B = MacButton;

    type C = MacCheckbox;

    open spec fn spec_button_paint(&self) -> Seq<char> {
        "Отрисовка кнопки в стиле macOS"@
    }

    open spec fn spec_checkbox_paint(&self) -> Seq<char> {
        "Отрисовка чекбокса в стиле macOS"@
    }

    fn create_button(&self) -> (b: Self::B) {
        MacButton
    }

    fn create_checkbox(&self) -> (c: Self::C) {
        MacCheckbox
    }
}

/// Creates both widgets from a factory and paints them: the lines are
/// exactly the factory's platform style.
pub fn application<F: GUIFactory>(factory: &F) -> (lines: (String, String))
    ensures
        lines.0@ == factory.spec_button_paint(),
        lines.1@ == factory.spec_checkbox_paint(),
{
    let button = factory.create_button();
    let checkbox = factory.create_checkbox();
    (button.paint(), checkbox.paint())
}

} // verus!
