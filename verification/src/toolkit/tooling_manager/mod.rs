pub mod helpers;
pub mod types;

pub use types::{AddMemoryResult, ChainNode, ToolingError};
