pub mod laws;
pub mod pattern;
pub mod ts_type;
pub mod variable;
