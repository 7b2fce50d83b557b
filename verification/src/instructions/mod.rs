//! The six operations.

pub mod add_subjects;
pub mod initialize_student;
pub mod initialize_uni;
pub mod initialize_vire;
pub mod pay_tution_fee;
pub mod unstake;
pub mod vire_instructions;
