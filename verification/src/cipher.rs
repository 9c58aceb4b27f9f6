//! Trusted declarations for the symmetric AEAD cipher that protects one
//! transport session.
//!
//! The library never encrypts anything itself; it only carries the cipher
//! handle from the connection-establishment flow to the mixer and, on
//! events, clones it into the externally visible wrapper.

use vstd::prelude::*;

verus! {

/// Declares the `XSalsa20Poly1305` AEAD cipher type. A value of it holds
/// only the session's secret key; the key stays opaque here.
#[verifier::external_type_specification]
#[verifier::external_body]
pub struct ExCipher(xsalsa20poly1305::XSalsa20Poly1305);

/// Relies on the derived `Clone` for `XSalsa20Poly1305`: the struct holds
/// nothing but its key, which the derive copies field for field, so the
/// clone is a value equal to the cipher it was made from.
pub assume_specification[ <xsalsa20poly1305::XSalsa20Poly1305 as Clone>::clone ](
    cipher: &xsalsa20poly1305::XSalsa20Poly1305,
) -> (r: xsalsa20poly1305::XSalsa20Poly1305)
    ensures
        r == *cipher,
;

} // verus!
