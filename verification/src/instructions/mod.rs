//! The five operations of the marketplace, each on the accounts it is handed.

pub mod accept_helper;
pub mod apply_help;
pub mod cancel_post;
pub mod complete_contract;
pub mod create_post;
