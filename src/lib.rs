//! Skill matching and recommendation engine of a career platform: job match
//! scoring, skill gap analysis, learning resource ranking and the
//! explanations that go with a match.
pub mod text;
pub mod skills;
pub mod models;
pub mod score;
pub mod ranking;
pub mod matching;
pub mod explanation;
pub mod resources;
pub mod gap;
pub mod recommend;
pub mod remote;
pub mod external_jobs;
pub mod payloads;
