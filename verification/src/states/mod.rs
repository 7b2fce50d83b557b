//! The four records of the ledger, as fixed-size byte layouts.

pub mod student_account;
pub mod subject_account;
pub mod uni_account;
pub mod vire_account;
