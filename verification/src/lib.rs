//! A property-token ledger: admins register properties whose price is split into tokens,
//! accounts buy and sell those tokens against the property's primary owner, and the platform
//! takes a commission on each payment. The calls are verified against a model of the storage
//! (`model`), and the laws that tie them together are proved in `laws`.

pub mod hashing;
pub mod laws;
pub mod model;
pub mod pallet;
pub mod table;
pub mod types;
