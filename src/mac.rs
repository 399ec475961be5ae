use vstd::prelude::*;

verus! {

/// Signs request bodies; a signer that returns `None` attaches no signature.
pub trait MacSign {
    fn sign(message: &[u8]) -> Option<String>;
}

/// Checks the signature of response bodies: `Ok(true)` accepts, `Ok(false)`
/// rejects, `Err` reports that the check itself could not be made.
pub trait MacVerify {
    fn verify(message: &[u8], signature: Option<&str>) -> Result<bool, String>;
}

/// Signs nothing and accepts every body.
#[derive(Debug)]
pub struct NoMac;

impl MacSign for NoMac {
    fn sign(message: &[u8]) -> Option<String> {
        None
    }
}

impl MacVerify for NoMac {
    fn verify(message: &[u8], signature: Option<&str>) -> Result<bool, String> {
        Ok(true)
    }
}

} // verus!
