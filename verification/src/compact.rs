pub mod compactor;
pub mod core_plan;
pub mod pipeline;
