pub mod cast_batch_votes;
pub mod cast_vote;
pub mod hooks;
pub mod privacy_interface;
pub mod register_voter;
pub mod close_election;
pub mod create_election;
