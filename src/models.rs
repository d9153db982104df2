//! The records that the matching engine reads: experience levels, career
//! tracks, job and resource descriptions.
use vstd::prelude::*;
use crate::text::{joined, lower_of, lowercase, text_is, underscore_separators, underscored};

verus! {

/// Experience level of a user or required for a job, ordered
/// `Fresher < Junior < Mid`.
#[derive(Debug, Clone, Copy, PartialEq, Eq, Structural)]
pub enum ExperienceLevel {
    /// Entry level, no prior experience.
    Fresher,
    /// One to three years of experience.
    Junior,
    /// Three to five years of experience.
    Mid,
}

/// The level whose lower-case name is `k`, if any.
pub open spec fn experience_named(k: Seq<char>) -> Option<ExperienceLevel> {
    if k == "fresher"@ {
        Some(ExperienceLevel::Fresher)
    } else if k == "junior"@ {
        Some(ExperienceLevel::Junior)
    } else if k == "mid"@ {
        Some(ExperienceLevel::Mid)
    } else {
        None
    }
}

/// The lower-case name of a level.
pub open spec fn experience_name(l: ExperienceLevel) -> Seq<char> {
    match l {
        ExperienceLevel::Fresher => "fresher"@,
        ExperienceLevel::Junior => "junior"@,
        ExperienceLevel::Mid => "mid"@,
    }
}

impl ExperienceLevel {
    /// The lower-case name of the level.
    pub fn name(&self) -> (r: &'static str)
        ensures
            r@ == experience_name(*self),
    {
        match self {
            ExperienceLevel::Fresher => "fresher",
            ExperienceLevel::Junior => "junior",
            ExperienceLevel::Mid => "mid",
        }
    }

    /// The level whose lower-case name is `k`.
    pub fn from_key(k: &String) -> (r: Option<ExperienceLevel>)
        ensures
            r == experience_named(k@),
    {
        if text_is(k, "fresher") {
            Some(ExperienceLevel::Fresher)
        } else if text_is(k, "junior") {
            Some(ExperienceLevel::Junior)
        } else if text_is(k, "mid") {
            Some(ExperienceLevel::Mid)
        } else {
            None
        }
    }

    /// Reads a level from its name, in any casing.
    pub fn parse(s: &str) -> (r: Result<ExperienceLevel, String>)
        ensures
            match experience_named(lower_of(s@)) {
                Some(l) => r == Ok::<ExperienceLevel, String>(l),
                None => r is Err && r->Err_0@ == "Unknown experience level: "@ + s@,
            },
    {
        match ExperienceLevel::from_key(&lowercase(s)) {
            Some(l) => Ok(l),
            None => Err(joined("Unknown experience level: ", s)),
        }
    }
}

impl std::str::FromStr for ExperienceLevel {
    type Err = String;

    fn from_str(s: &str) -> Result<ExperienceLevel, String> {
        ExperienceLevel::parse(s)
    }
}

/// Career track or specialisation path.
#[derive(Debug, Clone, Copy, PartialEq, Eq, Structural)]
pub enum CareerTrack {
    /// Web development and engineering.
    WebDevelopment,
    /// Data science and analytics.
    Data,
    /// UI/UX and graphic design.
    Design,
    /// Digital and content marketing.
    Marketing,
}

/// The track whose normalised name is `k`, if any.
pub open spec fn track_named(k: Seq<char>) -> Option<CareerTrack> {
    if k == "web_development"@ || k == "webdevelopment"@ {
        Some(CareerTrack::WebDevelopment)
    } else if k == "data"@ {
        Some(CareerTrack::Data)
    } else if k == "design"@ {
        Some(CareerTrack::Design)
    } else if k == "marketing"@ {
        Some(CareerTrack::Marketing)
    } else {
        None
    }
}

/// The snake-case name of a track.
pub open spec fn track_name(t: CareerTrack) -> Seq<char> {
    match t {
        CareerTrack::WebDevelopment => "web_development"@,
        CareerTrack::Data => "data"@,
        CareerTrack::Design => "design"@,
        CareerTrack::Marketing => "marketing"@,
    }
}

impl CareerTrack {
    /// The snake-case name of the track.
    pub fn name(&self) -> (r: &'static str)
        ensures
            r@ == track_name(*self),
    {
        match self {
            CareerTrack::WebDevelopment => "web_development",
            CareerTrack::Data => "data",
            CareerTrack::Design => "design",
            CareerTrack::Marketing => "marketing",
        }
    }

    /// The track named by the lower-case text `k`, with hyphens or spaces
    /// standing for underscores.
    pub fn from_key(k: &String) -> (r: Option<CareerTrack>)
        ensures
            r == track_named(underscored(k@)),
    {
        let k = underscore_separators(k.as_str());
        if text_is(&k, "web_development") || text_is(&k, "webdevelopment") {
            Some(CareerTrack::WebDevelopment)
        } else if text_is(&k, "data") {
            Some(CareerTrack::Data)
        } else if text_is(&k, "design") {
            Some(CareerTrack::Design)
        } else if text_is(&k, "marketing") {
            Some(CareerTrack::Marketing)
        } else {
            None
        }
    }

    /// Reads a track from its name, in any casing, with hyphens or spaces
    /// standing for underscores.
    pub fn parse(s: &str) -> (r: Result<CareerTrack, String>)
        ensures
            match track_named(underscored(lower_of(s@))) {
                Some(t) => r == Ok::<CareerTrack, String>(t),
                None => r is Err && r->Err_0@ == "Unknown career track: "@ + s@,
            },
    {
        match CareerTrack::from_key(&lowercase(s)) {
            Some(t) => Ok(t),
            None => Err(joined("Unknown career track: ", s)),
        }
    }
}

impl std::str::FromStr for CareerTrack {
    type Err = String;

    fn from_str(s: &str) -> Result<CareerTrack, String> {
        CareerTrack::parse(s)
    }
}

/// Type of job or employment arrangement.
#[derive(Debug, Clone, Copy, PartialEq, Eq, Structural)]
pub enum JobType {
    /// Internship position.
    Internship,
    /// Part-time employment.
    PartTime,
    /// Full-time employment.
    FullTime,
    /// Freelance or contract work.
    Freelance,
}

/// The job type whose normalised name is `k`, if any.
pub open spec fn job_type_named(k: Seq<char>) -> Option<JobType> {
    if k == "internship"@ {
        Some(JobType::Internship)
    } else if k == "part_time"@ || k == "parttime"@ {
        Some(JobType::PartTime)
    } else if k == "full_time"@ || k == "fulltime"@ {
        Some(JobType::FullTime)
    } else if k == "freelance"@ {
        Some(JobType::Freelance)
    } else {
        None
    }
}

impl JobType {
    /// The job type named by the lower-case text `k`, with hyphens or
    /// spaces standing for underscores.
    pub fn from_key(k: &String) -> (r: Option<JobType>)
        ensures
            r == job_type_named(underscored(k@)),
    {
        let k = underscore_separators(k.as_str());
        if text_is(&k, "internship") {
            Some(JobType::Internship)
        } else if text_is(&k, "part_time") || text_is(&k, "parttime") {
            Some(JobType::PartTime)
        } else if text_is(&k, "full_time") || text_is(&k, "fulltime") {
            Some(JobType::FullTime)
        } else if text_is(&k, "freelance") {
            Some(JobType::Freelance)
        } else {
            None
        }
    }

    /// Reads a job type from its name, in any casing, with hyphens or spaces
    /// standing for underscores.
    pub fn parse(s: &str) -> (r: Result<JobType, String>)
        ensures
            match job_type_named(underscored(lower_of(s@))) {
                Some(t) => r == Ok::<JobType, String>(t),
                None => r is Err && r->Err_0@ == "Unknown job type: "@ + s@,
            },
    {
        match JobType::from_key(&lowercase(s)) {
            Some(t) => Ok(t),
            None => Err(joined("Unknown job type: ", s)),
        }
    }
}

impl std::str::FromStr for JobType {
    type Err = String;

    fn from_str(s: &str) -> Result<JobType, String> {
        JobType::parse(s)
    }
}

/// Whether a learning resource is free or paid.
#[derive(Debug, Clone, Copy, PartialEq, Eq, Structural)]
pub enum CostIndicator {
    /// Free resource.
    Free,
    /// Paid resource.
    Paid,
}

/// The cost indicator whose lower-case name is `k`, if any.
pub open spec fn cost_named(k: Seq<char>) -> Option<CostIndicator> {
    if k == "free"@ {
        Some(CostIndicator::Free)
    } else if k == "paid"@ {
        Some(CostIndicator::Paid)
    } else {
        None
    }
}

impl CostIndicator {
    /// The cost indicator whose lower-case name is `k`.
    pub fn from_key(k: &String) -> (r: Option<CostIndicator>)
        ensures
            r == cost_named(k@),
    {
        if text_is(k, "free") {
            Some(CostIndicator::Free)
        } else if text_is(k, "paid") {
            Some(CostIndicator::Paid)
        } else {
            None
        }
    }

    /// Reads a cost indicator from its name, in any casing.
    pub fn parse(s: &str) -> (r: Result<CostIndicator, String>)
        ensures
            match cost_named(lower_of(s@)) {
                Some(c) => r == Ok::<CostIndicator, String>(c),
                None => r is Err && r->Err_0@ == "Unknown cost indicator: "@ + s@,
            },
    {
        match CostIndicator::from_key(&lowercase(s)) {
            Some(c) => Ok(c),
            None => Err(joined("Unknown cost indicator: ", s)),
        }
    }
}

impl std::str::FromStr for CostIndicator {
    type Err = String;

    fn from_str(s: &str) -> Result<CostIndicator, String> {
        CostIndicator::parse(s)
    }
}

/// A job listing.
#[derive(Debug, Clone)]
pub struct Job {
    /// Job identifier.
    pub id: i32,
    /// Job title.
    pub job_title: String,
    /// Hiring company.
    pub company: String,
    /// Where the job is.
    pub location: String,
    /// Full description.
    pub job_description: String,
    /// Skills the job requires.
    pub required_skills: Vec<String>,
    /// Required experience level.
    pub experience_level: ExperienceLevel,
    /// Type of employment.
    pub job_type: JobType,
    /// Lower end of the salary range, if given.
    pub salary_min: Option<i32>,
    /// Upper end of the salary range, if given.
    pub salary_max: Option<i32>,
    /// Responsibilities of the role.
    pub responsibilities: Vec<String>,
    /// Requirements of the role.
    pub requirements: Vec<String>,
    /// Benefits offered.
    pub benefits: Vec<String>,
}

/// A learning resource and the skills it teaches.
#[derive(Debug, Clone)]
pub struct LearningResource {
    /// Resource identifier.
    pub id: i32,
    /// Title.
    pub title: String,
    /// Hosting platform.
    pub platform: String,
    /// Where to find it.
    pub url: String,
    /// Skills the resource teaches.
    pub related_skills: Vec<String>,
    /// Whether it is free or paid.
    pub cost: CostIndicator,
}

/// What an OAuth provider tells about a user.
#[derive(Debug, Clone)]
pub struct OAuthUser {
    /// The provider's user identifier.
    pub id: String,
    /// E-mail address.
    pub email: String,
    /// Full name.
    pub name: String,
    /// Avatar picture address, if any.
    pub avatar_url: Option<String>,
}

} // verus!
