//! Runtime modules for a block-based ledger, each function verified against
//! the contract it carries.
//!
//! - `store`: maps and cells under hashed prefixes, with scopes of writes
//!   that are kept or undone as a whole.
//! - `system`: origins, the block being built and its log of events.
//! - `balances`: the currency that the modules charge and pay in.
//! - `poe`, `poex`: claims on byte strings.
//! - `kittiesx`: collectible assets, their trade, and the migration of what
//!   is stored of them from older layouts.
//! - `ocwx`: the price feed, from the answer of the price service to the
//!   admission of the signed price.
//! - `runtime`: the modules side by side, and the dispatcher.
//! - `erc20`: a fungible token.
//! - `sorting`, `tools`, `traffic_light`: small utilities.
//! - `hashing`, `scale`, `bounded`, `weight`: what the modules above build
//!   on.

pub mod balances;
pub mod bounded;
pub mod erc20;
pub mod hashing;
pub mod kittiesx;
pub mod ocwx;
pub mod poe;
pub mod poex;
pub mod runtime;
pub mod scale;
pub mod sorting;
pub mod store;
pub mod system;
pub mod tools;
pub mod traffic_light;
pub mod weight;
