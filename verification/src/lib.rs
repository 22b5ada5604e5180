pub mod error;
pub mod instruction;
pub mod math;
pub mod processor;
pub mod state;
