pub mod counter;
pub mod pipeline;
