pub mod buffers;
pub mod capabilities;
pub mod dispatch;
pub mod math;
pub mod template;
pub mod workspace;
