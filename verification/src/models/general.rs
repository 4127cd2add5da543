pub mod llm;
