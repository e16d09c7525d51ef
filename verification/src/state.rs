pub mod election;
pub mod vote;
pub mod voter;
