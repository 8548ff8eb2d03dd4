//! Ownership, breeding and trading of kitties: uniquely identified digital
//! assets whose 128-bit DNA is derived from a hash of their origin.
pub mod kitty;
pub mod codec;
pub mod hashing;
pub mod pallet;
pub mod nft;
pub mod currency;
pub mod laws;
