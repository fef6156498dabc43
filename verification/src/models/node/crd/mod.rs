//! The versions of the `BottlerocketShadow` custom resource. Each change of the spec, the
//! state or the status of a `BottlerocketShadow` makes a new version.

pub mod definition;
pub mod error;
pub mod fields;
pub mod laws;
pub mod selector;
pub mod v1;
pub mod v2;

pub use self::v2::{
    BottlerocketShadow, BottlerocketShadowSpec, BottlerocketShadowState, BottlerocketShadowStatus,
};
pub use self::selector::{
    brs_name_from_node_name, BottlerocketShadowResource, BottlerocketShadowSelector, Selector,
};
