pub mod codec;
pub mod contract;
pub mod errors;
pub mod msg;
pub mod pairing;
pub mod signature;
pub mod state;
