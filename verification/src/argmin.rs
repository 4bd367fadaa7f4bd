pub mod pipeline;
pub mod selector;
