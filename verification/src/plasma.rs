pub mod fixed;
pub mod fixed_order;
pub mod keys;
pub mod plasma_utils;
pub mod wire;

pub use self::plasma_utils::{swap, PoolHeader};
