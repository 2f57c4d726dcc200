pub mod compound;
pub mod deposit;
pub mod set_pool_prize;
pub mod transfer;
pub mod unstake;
