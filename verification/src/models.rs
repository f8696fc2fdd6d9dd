//! Order data model: product descriptors, the common order structure, and
//! the parent/child order records used by the splitting strategies.

pub mod child_orders;
pub mod common_orders;
pub mod orders;
pub mod parent_orders;

pub use child_orders::ChildOrder;
pub use parent_orders::ParentOrder;
