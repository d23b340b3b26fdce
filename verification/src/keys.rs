//! The secret that signs and checks tokens. It is made once, when the
//! process starts, and handed by reference to whoever issues or checks a
//! token.

use rand::distributions::DistString;
use vstd::prelude::*;
use vstd::slice::slice_to_vec;

verus! {

/// Length of a generated secret.
pub const GENERATED_SECRET_LENGTH: usize = 60;

/// An ASCII letter or digit.
pub open spec fn is_alphanumeric_byte(b: u8) -> bool {
    ||| 0x30 <= b <= 0x39
    ||| 0x41 <= b <= 0x5a
    ||| 0x61 <= b <= 0x7a
}

/// The secret over which tokens are signed and checked with HMAC.
#[derive(Clone)]
pub struct Keys {
    pub secret: Vec<u8>,
}

impl View for Keys {
    type V = Seq<u8>;

    open spec fn view(&self) -> Seq<u8> {
        self.secret@
    }
}

/// Random letters and digits from `rand::distributions::Alphanumeric`,
/// sampled with `sample_string` from the thread's generator, as bytes.
/// Trusted: there are `len` of them and each is an ASCII letter or digit.
#[verifier::external_body]
fn random_alphanumeric(len: usize) -> (r: Vec<u8>)
    ensures
        r@.len() == len,
        forall|i: int| 0 <= i < r@.len() ==> is_alphanumeric_byte(#[trigger] r@[i]),
{
    rand::distributions::Alphanumeric.sample_string(&mut rand::thread_rng(), len).into_bytes()
}

impl Keys {
    /// Keys over a given secret.
    pub fn new(secret: &[u8]) -> (r: Self)
        ensures
            r@ == secret@,
    {
        Keys { secret: slice_to_vec(secret) }
    }

    /// Keys over a fresh random secret of sixty letters and digits.
    pub fn generate() -> (r: Self)
        ensures
            r@.len() == GENERATED_SECRET_LENGTH,
            forall|i: int| 0 <= i < r@.len() ==> is_alphanumeric_byte(#[trigger] r@[i]),
    {
        Keys { secret: random_alphanumeric(GENERATED_SECRET_LENGTH) }
    }
}

} // verus!
