//! A minimal example of a user-defined component configuration type.

use vstd::prelude::*;

verus! {

/// A sample component holding one counter property driven by a button
/// callback.
#[derive(Clone, Copy, Debug, PartialEq, Eq, Structural)]
pub struct MyComponent {
    pub my_property: u8,
}

impl MyComponent {
    /// A sample component with the counter at zero.
    pub fn new() -> (c: MyComponent)
        ensures
            c.my_property == 0,
    {
        MyComponent { my_property: 0 }
    }

    /// The counter the button callback advances.
    pub fn my_property(&self) -> (r: u8)
        ensures
            r == self.my_property,
    {
        self.my_property
    }

    /// Advances the counter by one click.
    pub fn on_button_clicked(&mut self)
        requires
            self.my_property < 255,
        ensures
            final(self).my_property == old(self).my_property + 1,
    {
        self.my_property = self.my_property + 1;
    }
}

} // verus!
