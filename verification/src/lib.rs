//! A timed multiple-choice quiz engine: a registry of in-flight quizzes,
//! a per-quiz vote tally with last-vote-wins semantics, and the router
//! logic that validates inbound requests and turns them into registry
//! operations and immediate replies.

pub mod announce;
pub mod numtext;
pub mod quiz;
pub mod registry;
pub mod router;
pub mod tally;

pub use quiz::Quiz;
pub use quiz::Submission;
pub use registry::Registry;
pub use tally::Collector;
pub use tally::Outcome;
pub use router::Lobby;
pub use router::Interaction;
pub use router::Error;
pub use router::Action;
pub use router::Reply;
pub use router::DocumentResult;
pub use router::error_reply;
pub use router::vote_ack;
pub use announce::announcement;
