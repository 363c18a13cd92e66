//! The browser half of a secrets vault and of capability verification.
//!
//! - [`VaultCore`] and [`WasmVault`] are the vault's string-in, string-out surface,
//!   over an in-memory snapshot of its store: [`WasmVault`] throws texts where
//!   [`VaultCore`] returns errors.
//! - [`verify_chain`] and [`verify`] check whether a capability chain authorizes a
//!   request.
//!
//! The vault itself and the authorizer are not part of this crate. Their operations
//! come in as functions, and the contracts say what each is called with and what is
//! made of what it returns.

pub mod capability;
pub mod check_laws;
pub mod error;
pub mod error_laws;
pub mod executor;
pub mod id_laws;
pub mod json;
pub mod laws;
pub mod node_id;
pub mod record_laws;
pub mod records;
pub mod request_laws;
pub mod snapshot;
pub mod store_laws;
pub mod vault;
pub mod vault_laws;
pub mod wasm;

pub use capability::{verify_chain, AuthorizeRequest};
pub use error::{js_err, JsonInput, VaultError};
pub use executor::noop_raw_waker;
pub use node_id::{parse_node_id, HexFault, NodeId, NodeIdFault};
pub use records::{Device, IssuedGrant, SecretMeta};
pub use snapshot::{StoreEntry, StoreOp};
pub use vault::VaultCore;
pub use wasm::{verify, WasmVault};
