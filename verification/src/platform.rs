use vstd::prelude::*;

verus! {

/// The front end that hosts the interpreter: it draws the screen and reads
/// the keyboard.
pub struct Platform {}

impl Platform {
    /// Hands the state of the keys to the interpreter's keypad. No key
    /// source is wired to it yet, so the keypad is left as it is.
    pub fn process_input(self, k: &mut [u8; 16])
        ensures
            *final(k) == *old(k),
    {
    }
}

} // verus!
