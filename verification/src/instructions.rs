//! The instructions of the program.
pub mod create_voter_weight_record;
pub mod reclaim_delegation;
pub mod reclaim_voter_weight_record;
pub mod revoke_vote;
pub mod set_precursor;
pub mod update_voter_weight_record;
