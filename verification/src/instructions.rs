pub mod buy_token_with_native;
pub mod claim_token;
pub mod complete_launch_pool;
pub mod create_fairlaunch_pool;
pub mod start_launch_pool;

pub use buy_token_with_native::{BuyTokenWithNative, BuyTokenWithNativeEvent, Purchase};
pub use claim_token::{ClaimToken, Release};
pub use complete_launch_pool::CompleteLaunchPool;
pub use create_fairlaunch_pool::CreateFairlaunchPool;
pub use start_launch_pool::StartLaunchPool;
