pub mod abi;
pub mod amounts;
pub mod checker;
pub mod eip712;
pub mod encode;
pub mod errors;
pub mod events;
pub mod hashing;
pub mod ids;
pub mod protocol;
pub mod signing;
pub mod submission;
