//! The rules of the program's instructions: the checks each makes, in
//! order, and the account data that it writes.
pub mod process_set_dabra_authority;
pub mod process_set_dabra_config_item;
pub mod process_set_dabra_config;
pub mod process_set_token_owner_record_lock;
pub mod process_relinquish_token_owner_record_locks;
pub mod process_withdraw_governing_tokens;
pub mod process_create_dabra;
pub mod process_create_governance;
