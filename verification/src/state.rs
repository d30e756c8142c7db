//! The records the program keeps.
pub mod delegation;
pub mod settings;
pub mod voter_weight_record;
