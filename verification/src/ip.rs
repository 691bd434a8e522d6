//! Internet address kinds, modelled once as a bare enum and once with the
//! address data carried in the variants.

use vstd::prelude::*;

verus! {

/// The two address families, with no address attached.
pub enum IpAddrKindV1 {
    V4,
    V6,
}

/// The two address families, each carrying its address.
pub enum IpAddrKindV2 {
    V4(u8, u8, u8, u8),
    V6(String),
}

/// An address written out, tagged with its family.
pub struct IpAddr {
    pub kind: IpAddrKindV1,
    pub address: String,
}

impl IpAddrKindV2 {
    /// An address with data never collides with a bare family tag.
    pub fn collision(&self, other: &IpAddrKindV1) -> (c: bool)
        ensures
            !c,
    {
        false
    }

    /// Reaching the address is left to the caller.
    pub fn ping(&self) {
    }
}

} // verus!
