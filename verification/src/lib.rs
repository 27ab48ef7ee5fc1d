pub mod contract;
pub mod digits;
pub mod error;
pub mod msg;
pub mod response;
pub mod state;
