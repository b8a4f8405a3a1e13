pub mod flags;
pub mod opcodes;
pub mod machine;
pub mod cpu;
pub mod laws;
