pub mod cleaner;
pub mod errors;
pub mod selector;
