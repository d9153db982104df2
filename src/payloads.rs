//! Request payloads of the platform's account, profile, job and progress
//! operations.
use vstd::prelude::*;
use crate::models::{CareerTrack, ExperienceLevel, JobType};

verus! {

/// Registration of a new user.
#[derive(Debug, Clone)]
pub struct RegisterPayload {
    /// Full name.
    pub full_name: String,
    /// E-mail address.
    pub email: String,
    /// Password.
    pub password: String,
}

/// Login of a user.
#[derive(Debug, Clone)]
pub struct LoginPayload {
    /// E-mail address.
    pub email: String,
    /// Password.
    pub password: String,
}

/// Completion of a profile at onboarding.
#[derive(Debug, Clone)]
pub struct CompleteProfilePayload {
    /// Educational background.
    pub education_level: Option<String>,
    /// Experience level.
    pub experience_level: ExperienceLevel,
    /// Preferred career track.
    pub preferred_track: CareerTrack,
    /// Skills, if given.
    pub skills: Option<Vec<String>>,
    /// Projects, if given.
    pub projects: Option<Vec<String>>,
    /// Target roles, if given.
    pub target_roles: Option<Vec<String>>,
}

/// Update of a profile; every field is optional.
#[derive(Debug, Clone)]
pub struct UpdateProfilePayload {
    /// New full name.
    pub full_name: Option<String>,
    /// New educational background.
    pub education_level: Option<String>,
    /// New experience level.
    pub experience_level: Option<ExperienceLevel>,
    /// New preferred track.
    pub preferred_track: Option<CareerTrack>,
    /// New skills.
    pub skills: Option<Vec<String>>,
    /// New projects.
    pub projects: Option<Vec<String>>,
    /// New target roles.
    pub target_roles: Option<Vec<String>>,
    /// Raw CV text.
    pub raw_cv_text: Option<String>,
}

/// The number of job recommendations asked for when no limit is given.
pub const DEFAULT_JOB_LIMIT: i64 = 50;

/// Filters of a job recommendation request.
#[derive(Debug, Clone, Copy)]
pub struct JobQueryParams {
    /// Only jobs of this experience level.
    pub experience_level: Option<ExperienceLevel>,
    /// Only jobs of this type.
    pub job_type: Option<JobType>,
    /// Largest number of jobs to consider.
    pub limit: Option<i64>,
}

impl JobQueryParams {
    /// The limit asked for, or 50 when none is given.
    pub fn result_limit(&self) -> (r: i64)
        ensures
            r == match self.limit {
                Some(l) => l,
                None => DEFAULT_JOB_LIMIT,
            },
    {
        match self.limit {
            Some(l) => l,
            None => DEFAULT_JOB_LIMIT,
        }
    }
}

/// Application to a job.
#[derive(Debug, Clone)]
pub struct CreateApplicationPayload {
    /// The job applied to.
    pub job_id: i32,
    /// Notes on the application.
    pub notes: Option<String>,
}

/// Update of an application.
#[derive(Debug, Clone)]
pub struct UpdateApplicationPayload {
    /// New status.
    pub status: String,
    /// New notes.
    pub notes: Option<String>,
}

/// Progress on a learning resource.
#[derive(Debug, Clone, Copy)]
pub struct UpdateProgressPayload {
    /// Completion, in percent.
    pub completion_percentage: i32,
}

} // verus!
