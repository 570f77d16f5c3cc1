//! A transparent OAuth 2.1 authorization proxy for a federated social-data
//! network: the downstream authorization server, the upstream OAuth client
//! state, DPoP proof handling, token issuance and request forwarding, written
//! as verified logic over abstract stores.

pub mod auth;
pub mod authorize;
pub mod clock;
pub mod config;
pub mod crypto;
pub mod dpop;
pub mod encoding;
pub mod error;
pub mod forward;
pub mod grant;
pub mod json;
pub mod jwk;
pub mod jws;
pub mod login;
pub mod memory;
pub mod moderation;
pub mod nonce;
pub mod par;
pub mod random;
pub mod refresh;
pub mod server;
pub mod session;
pub mod signing;
pub mod store;
pub mod table;
pub mod text;
pub mod token;

pub use config::ProxyConfig;
pub use error::{Error, Result};
pub use server::{OAuthProxyServer, OAuthProxyServerBuilder};
pub use session::{OAuthSession, SessionState};
pub use store::{KeyStore, NonceStore, OAuthSessionStore};
