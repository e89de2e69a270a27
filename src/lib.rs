pub mod address;
pub mod campaign;
pub mod collection;
pub mod completion;
pub mod error;
pub mod key;
pub mod laws;
pub mod state;
