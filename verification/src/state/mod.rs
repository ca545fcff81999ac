//! Program accounts and the rules that read and change them.
pub mod enums;
pub mod dabra;
pub mod dabra_config;
pub mod token_owner_record;
