pub mod encoder;
pub mod pipeline;
