pub mod address;
pub mod errors;
pub mod market;
pub mod royalty;
pub mod state;
