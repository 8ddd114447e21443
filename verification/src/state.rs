pub mod launch_pool;
pub mod treasurer;
pub mod user_pool;

pub use launch_pool::{CurrencyType, LaunchPool, LaunchPoolBumps, LaunchPoolState, LaunchPoolType};
pub use treasurer::Treasurer;
pub use user_pool::UserPool;
