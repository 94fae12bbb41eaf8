//! One module per record operation: its parameters and the verified
//! transition it performs on a header and body.

pub mod allocate_and_post_record;
pub mod allocate_record;
pub mod edit_record;
pub mod unverify_roa;
pub mod validate_ethereum_signature;
pub mod validate_solana_signature;
pub mod write_roa;
