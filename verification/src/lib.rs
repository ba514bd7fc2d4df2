pub mod llm;
pub mod toolkit;
