//! The keyboard layout sent along with a message: a grid of button texts.
//! The builder puts every label into one single row.

use vstd::prelude::*;

verus! {

/// A reply keyboard: rows of button texts.
#[derive(Clone, Debug)]
pub struct KeyboardLayout {
    pub rows: Vec<Vec<String>>,
}

/// Lays the given button texts out as one single row.
pub fn make_keyboard(menu_buttons: Vec<String>) -> (r: KeyboardLayout)
    requires
        menu_buttons@.len() >= 1,
    ensures
        r.rows@.len() == 1,
        r.rows@[0]@ == menu_buttons@,
{
    let mut rows: Vec<Vec<String>> = Vec::new();
    rows.push(menu_buttons);
    KeyboardLayout { rows }
}

} // verus!
