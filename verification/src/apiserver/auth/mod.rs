//! Who may change which node.

pub mod authorizor;
pub mod error;
pub mod middleware;

pub use self::authorizor::{K8STokenAuthorizor, TokenAuthorizor};
pub use self::error::AuthorizationError;
pub use self::middleware::TokenAuthMiddleware;
