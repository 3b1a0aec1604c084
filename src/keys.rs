use vstd::prelude::*;
use vstd::slice::slice_to_vec;

verus! {

/// The signing key material: one shared secret, fixed once the process starts,
/// used both to sign and to verify tokens.
pub struct Keys {
    secret: Vec<u8>,
}

impl View for Keys {
    type V = Seq<u8>;

    /// The secret bytes.
    closed spec fn view(&self) -> Seq<u8> {
        self.secret@
    }
}

impl Keys {
    /// Key material made from a secret.
    pub fn new(secret: &[u8]) -> (r: Keys)
        ensures
            r@ == secret@,
    {
        Keys { secret: slice_to_vec(secret) }
    }

    /// The secret bytes.
    pub fn secret(&self) -> (r: &[u8])
        ensures
            r@ == self@,
    {
        self.secret.as_slice()
    }
}

} // verus!
