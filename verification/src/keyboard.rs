//! The inline keyboard attached to counter messages.
//!
//! The keyboard is a fixed value: one row holding one button labeled
//! "Add", whose callback payload is the literal "Add".  It is rebuilt
//! fresh for every render.

use vstd::prelude::*;
use vstd::string::StringExecFns;

verus! {

/// One clickable button: a label shown to the user and an opaque payload
/// handed back in the button-press callback.
pub struct Button {
    pub label: String,
    pub payload: String,
}

/// An inline keyboard: rows of buttons attached to an outbound message.
pub struct KeyboardDescriptor {
    pub rows: Vec<Vec<Button>>,
}

/// The payload (and label) that the "Add" button carries.
pub open spec fn add_payload() -> Seq<char> {
    seq!['A', 'd', 'd']
}

/// Whether `k` is the counter keyboard: exactly one row holding exactly
/// one button labeled "Add" whose payload is "Add".
pub open spec fn is_add_keyboard(k: KeyboardDescriptor) -> bool {
    &&& k.rows@.len() == 1
    &&& k.rows@[0]@.len() == 1
    &&& k.rows@[0]@[0].label@ == add_payload()
    &&& k.rows@[0]@[0].payload@ == add_payload()
}

/// Build the keyboard: one row with the single "Add" button.
pub fn make_keyboard() -> (k: KeyboardDescriptor)
    ensures
        is_add_keyboard(k),
{
    proof {
        reveal_strlit("Add");
        assert("Add"@ =~= add_payload());
    }
    let label = String::from_str("Add");
    let payload = String::from_str("Add");
    let mut row: Vec<Button> = Vec::new();
    row.push(Button { label, payload });
    let mut rows: Vec<Vec<Button>> = Vec::new();
    rows.push(row);
    KeyboardDescriptor { rows }
}

} // verus!
