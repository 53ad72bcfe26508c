pub mod bytes;
pub mod errors;
pub mod milestone_request;
