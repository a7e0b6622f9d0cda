pub mod classifier;
pub mod ollama;
