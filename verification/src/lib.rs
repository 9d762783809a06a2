//! Resilience and authorization core for a family of cooperating services
//! that own courses, assignments and submissions.
//!
//! The hard path covered here is the dependent write: authenticate the
//! caller from a bearer credential, authorize its role, verify that a
//! foreign-owned entity exists through a retried outbound call gated by a
//! per-target circuit breaker, and only then let the write proceed.

pub mod admin;
pub mod auth;
pub mod circuit;
pub mod client;
mod clock;
pub mod config;
pub mod errors;
pub mod ids;
pub mod outcome;
pub mod policy;
pub mod student;
pub mod teacher;

pub use admin::Course;
pub use admin::CreateCourseBody;
pub use auth::AuthUser;
pub use auth::Claims;
pub use auth::Role;
pub use circuit::BreakerPhase;
pub use circuit::CircuitState;
pub use client::AttemptResult;
pub use client::OutboundCall;
pub use config::Config;
pub use errors::ApiError;
pub use errors::status_code;
pub use outcome::CallOutcome;
pub use policy::AccessPolicy;
pub use student::CreateSubmissionBody;
pub use student::Submission;
pub use teacher::Assignment;
pub use teacher::CreateAssignmentBody;
