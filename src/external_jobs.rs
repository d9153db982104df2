//! Sample listings of external job sources: NGO and UN jobs, government
//! portals and local job boards.
use vstd::prelude::*;

verus! {

/// A job listing from an external source.
#[derive(Debug, Clone)]
pub struct ExternalJob {
    /// Identifier, prefixed by the source.
    pub id: String,
    /// Job title.
    pub title: String,
    /// Hiring organisation.
    pub company: String,
    /// Where the job is.
    pub location: String,
    /// Description.
    pub description: String,
    /// Where the posting is.
    pub url: String,
    /// Date of posting.
    pub posted_date: String,
    /// Name of the source.
    pub source: String,
    /// Kind of employment, if given.
    pub job_type: Option<String>,
    /// Experience asked for, if given.
    pub experience_level: Option<String>,
    /// Skills asked for.
    pub skills: Vec<String>,
    /// Salary, if given.
    pub salary: Option<String>,
}

fn text(s: &str) -> (r: String)
    ensures
        r@ == s@,
{
    s.to_owned()
}

/// Sample NGO and UN jobs in Bangladesh.
pub fn get_sample_ngo_jobs() -> (r: Vec<ExternalJob>)
    ensures
        r.len() == 6,
        r[0].id@ == "reliefweb_001"@,
        r[0].title@ == "Program Manager - Education"@,
        r[0].source@ == "ReliefWeb"@,
        r[1].id@ == "reliefweb_002"@,
        r[1].title@ == "Field Coordinator - Humanitarian Response"@,
        r[1].source@ == "ReliefWeb"@,
        r[2].id@ == "reliefweb_003"@,
        r[2].title@ == "Health Officer - Primary Healthcare"@,
        r[2].source@ == "ReliefWeb"@,
        r[3].id@ == "reliefweb_004"@,
        r[3].title@ == "Monitoring & Evaluation Officer"@,
        r[3].source@ == "ReliefWeb"@,
        r[4].id@ == "reliefweb_005"@,
        r[4].title@ == "Livelihood Specialist"@,
        r[4].source@ == "ReliefWeb"@,
        r[5].id@ == "reliefweb_006"@,
        r[5].title@ == "WASH Engineer"@,
        r[5].source@ == "ReliefWeb"@,
{
    vec![
        ExternalJob {
            id: text("reliefweb_001"),
            title: text("Program Manager - Education"),
            company: text("UNICEF Bangladesh"),
            location: text("Dhaka, Bangladesh"),
            description: text("UNICEF is seeking a Program Manager to lead education initiatives in Bangladesh. Responsible for managing education programs, coordinating with government stakeholders, and ensuring quality education access for vulnerable children."),
            url: text("https://www.unicef.org/bangladesh/en/jobs"),
            posted_date: text("2025-11-10"),
            source: text("ReliefWeb"),
            job_type: Some(text("Full-time")),
            experience_level: Some(text("Mid-Senior Level")),
            skills: vec![text("Program Management"), text("Education"), text("Stakeholder Engagement"), text("M&E")],
            salary: Some(text("Competitive (UN Scale)")),
        },
        ExternalJob {
            id: text("reliefweb_002"),
            title: text("Field Coordinator - Humanitarian Response"),
            company: text("BRAC"),
            location: text("Cox's Bazar, Bangladesh"),
            description: text("BRAC is recruiting a Field Coordinator for humanitarian operations in Cox's Bazar. Lead field teams, coordinate relief activities, and ensure effective service delivery to displaced populations."),
            url: text("https://www.brac.net/opportunities/job-opportunities"),
            posted_date: text("2025-11-12"),
            source: text("ReliefWeb"),
            job_type: Some(text("Full-time")),
            experience_level: Some(text("Mid Level")),
            skills: vec![text("Humanitarian Response"), text("Field Coordination"), text("Emergency Management")],
            salary: Some(text("BDT 100,000 - 150,000")),
        },
        ExternalJob {
            id: text("reliefweb_003"),
            title: text("Health Officer - Primary Healthcare"),
            company: text("WHO Bangladesh"),
            location: text("Sylhet, Bangladesh"),
            description: text("World Health Organization seeks a Health Officer to support primary healthcare programs. Work with local health authorities to strengthen healthcare systems and improve service delivery."),
            url: text("https://www.who.int/careers"),
            posted_date: text("2025-11-08"),
            source: text("ReliefWeb"),
            job_type: Some(text("Contract")),
            experience_level: Some(text("Junior-Mid Level")),
            skills: vec![text("Public Health"), text("Healthcare Management"), text("Community Health")],
            salary: Some(text("Competitive")),
        },
        ExternalJob {
            id: text("reliefweb_004"),
            title: text("Monitoring & Evaluation Officer"),
            company: text("Save the Children Bangladesh"),
            location: text("Dhaka, Bangladesh"),
            description: text("Join Save the Children as M&E Officer to design and implement monitoring systems for child protection programs. Conduct assessments, analyze data, and prepare reports for donors."),
            url: text("https://www.savethechildren.net/careers"),
            posted_date: text("2025-11-11"),
            source: text("ReliefWeb"),
            job_type: Some(text("Full-time")),
            experience_level: Some(text("Mid Level")),
            skills: vec![text("M&E"), text("Data Analysis"), text("Reporting"), text("Child Protection")],
            salary: Some(text("BDT 80,000 - 120,000")),
        },
        ExternalJob {
            id: text("reliefweb_005"),
            title: text("Livelihood Specialist"),
            company: text("Oxfam Bangladesh"),
            location: text("Rangpur, Bangladesh"),
            description: text("Oxfam is hiring a Livelihood Specialist to support income generation programs for vulnerable communities. Design and implement livelihood interventions, provide technical support, and build capacity."),
            url: text("https://www.oxfam.org.uk/jobs/"),
            posted_date: text("2025-11-09"),
            source: text("ReliefWeb"),
            job_type: Some(text("Full-time")),
            experience_level: Some(text("Mid Level")),
            skills: vec![text("Livelihood Development"), text("Rural Development"), text("Capacity Building")],
            salary: Some(text("BDT 90,000 - 130,000")),
        },
        ExternalJob {
            id: text("reliefweb_006"),
            title: text("WASH Engineer"),
            company: text("Action Against Hunger"),
            location: text("Khulna, Bangladesh"),
            description: text("Seeking WASH Engineer to design and implement water, sanitation, and hygiene projects. Conduct assessments, develop technical designs, and supervise construction activities."),
            url: text("https://www.actionagainsthunger.org/careers"),
            posted_date: text("2025-11-07"),
            source: text("ReliefWeb"),
            job_type: Some(text("Contract")),
            experience_level: Some(text("Mid-Senior Level")),
            skills: vec![text("WASH"), text("Civil Engineering"), text("Project Management"), text("Technical Design")],
            salary: Some(text("Competitive")),
        },
    ]
}

/// Sample jobs of Bangladesh government portals.
pub fn get_sample_govt_jobs() -> (r: Vec<ExternalJob>)
    ensures
        r.len() == 2,
        r[0].id@ == "bpsc_001"@,
        r[0].title@ == "Assistant Engineer - BPSC"@,
        r[0].source@ == "BPSC"@,
        r[1].id@ == "ngoab_001"@,
        r[1].title@ == "Program Officer - Development"@,
        r[1].source@ == "NGOAB"@,
{
    vec![
        ExternalJob {
            id: text("bpsc_001"),
            title: text("Assistant Engineer - BPSC"),
            company: text("Bangladesh Public Service Commission"),
            location: text("Dhaka, Bangladesh"),
            description: text("Hiring for Assistant Engineer position in various government departments. Bachelor's degree in Engineering required."),
            url: text("http://bpsc.gov.bd"),
            posted_date: text("2025-11-01"),
            source: text("BPSC"),
            job_type: Some(text("Government")),
            experience_level: Some(text("Entry Level")),
            skills: vec![text("Engineering"), text("Problem Solving")],
            salary: Some(text("BDT 35,000 - 45,000")),
        },
        ExternalJob {
            id: text("ngoab_001"),
            title: text("Program Officer - Development"),
            company: text("NGO Affairs Bureau Registered Organization"),
            location: text("Chittagong, Bangladesh"),
            description: text("Seeking Program Officer for community development projects. Experience in rural development preferred."),
            url: text("http://ngoab.gov.bd"),
            posted_date: text("2025-11-10"),
            source: text("NGOAB"),
            job_type: Some(text("Full-time")),
            experience_level: Some(text("Mid Level")),
            skills: vec![text("Project Management"), text("Community Development"), text("Report Writing")],
            salary: Some(text("BDT 40,000 - 60,000")),
        },
    ]
}

/// Sample jobs of local Bangladesh job boards.
pub fn get_sample_local_jobs() -> (r: Vec<ExternalJob>)
    ensures
        r.len() == 3,
        r[0].id@ == "bdjobs_001"@,
        r[0].title@ == "Software Developer - FinTech"@,
        r[0].source@ == "BDJobs"@,
        r[1].id@ == "prothomalo_001"@,
        r[1].title@ == "Digital Marketing Specialist"@,
        r[1].source@ == "Prothom Alo Jobs"@,
        r[2].id@ == "chakri_001"@,
        r[2].title@ == "Training Coordinator"@,
        r[2].source@ == "Chakri.com"@,
{
    vec![
        ExternalJob {
            id: text("bdjobs_001"),
            title: text("Software Developer - FinTech"),
            company: text("bKash Limited"),
            location: text("Dhaka, Bangladesh"),
            description: text("Looking for experienced software developers to work on mobile financial services platform. Strong Java/Kotlin skills required."),
            url: text("https://bdjobs.com"),
            posted_date: text("2025-11-12"),
            source: text("BDJobs"),
            job_type: Some(text("Full-time")),
            experience_level: Some(text("Mid Level")),
            skills: vec![text("Java"), text("Kotlin"), text("Android"), text("APIs")],
            salary: Some(text("BDT 80,000 - 120,000")),
        },
        ExternalJob {
            id: text("prothomalo_001"),
            title: text("Digital Marketing Specialist"),
            company: text("Grameen Phone"),
            location: text("Dhaka, Bangladesh"),
            description: text("Join our marketing team to drive digital campaigns for Bangladesh's leading telecom operator."),
            url: text("https://jobs.prothomalo.com"),
            posted_date: text("2025-11-13"),
            source: text("Prothom Alo Jobs"),
            job_type: Some(text("Full-time")),
            experience_level: Some(text("Junior")),
            skills: vec![text("Digital Marketing"), text("SEO"), text("Social Media"), text("Analytics")],
            salary: Some(text("BDT 50,000 - 70,000")),
        },
        ExternalJob {
            id: text("chakri_001"),
            title: text("Training Coordinator"),
            company: text("SEIP - Skills for Employment Investment Program"),
            location: text("Sylhet, Bangladesh"),
            description: text("Coordinate vocational training programs for youth employment. Government-funded skill development initiative."),
            url: text("https://seip.gov.bd"),
            posted_date: text("2025-11-08"),
            source: text("Chakri.com"),
            job_type: Some(text("Contract")),
            experience_level: Some(text("Junior")),
            skills: vec![text("Training"), text("Coordination"), text("Communication")],
            salary: Some(text("BDT 35,000 - 50,000")),
        },
    ]
}

/// A posting of the ReliefWeb job API, reduced to the fields that a listing
/// shows.
#[derive(Debug, Clone)]
pub struct ReliefWebPosting {
    /// ReliefWeb's identifier.
    pub id: String,
    /// Job title.
    pub title: String,
    /// Description, if any.
    pub body: Option<String>,
    /// Path of the public posting on reliefweb.int, possibly empty.
    pub url_alias: String,
    /// Names of the posting organisations.
    pub source_names: Vec<String>,
    /// Names of the countries.
    pub country_names: Vec<String>,
    /// Creation date.
    pub created: String,
    /// Names of the experience brackets.
    pub experience_names: Vec<String>,
    /// Names of the career categories.
    pub career_categories: Vec<String>,
}

/// The first name of a list, or `dflt` when the list is empty.
pub open spec fn first_or(names: Seq<Seq<char>>, dflt: Seq<char>) -> Seq<char> {
    if names.len() > 0 {
        names[0]
    } else {
        dflt
    }
}

fn first_or_text(names: Vec<String>, dflt: &str) -> (r: String)
    ensures
        r@ == first_or(names.deep_view(), dflt@),
{
    let mut names = names;
    if names.len() > 0 {
        names.remove(0)
    } else {
        text(dflt)
    }
}

/// A ReliefWeb posting as a listing: the first country (Bangladesh when none)
/// and the first organisation (NGO/UN when none), the public posting address,
/// the career categories as skills, and the first experience bracket when
/// there is one.
pub fn reliefweb_job(p: ReliefWebPosting) -> (r: ExternalJob)
    ensures
        r.id@ == "reliefweb_"@ + p.id@,
        r.title == p.title,
        r.company@ == first_or(p.source_names.deep_view(), "NGO/UN"@),
        r.location@ == first_or(p.country_names.deep_view(), "Bangladesh"@),
        r.description@ == match p.body {
            Some(b) => b@,
            None => Seq::empty(),
        },
        r.url@ == if p.url_alias@.len() > 0 {
            "https://reliefweb.int"@ + p.url_alias@
        } else {
            "https://reliefweb.int/jobs"@
        },
        r.posted_date == p.created,
        r.source@ == "ReliefWeb"@,
        r.job_type matches Some(t) && t@ == "Full-time"@,
        match r.experience_level {
            Some(e) => p.experience_names.len() > 0 && e@ == p.experience_names.deep_view()[0]
                && e@.len() > 0,
            None => p.experience_names.len() == 0 || p.experience_names.deep_view()[0].len() == 0,
        },
        r.skills.deep_view() == p.career_categories.deep_view(),
        r.salary is None,
{
    let mut id = text("reliefweb_");
    id.append(p.id.as_str());
    let company = first_or_text(p.source_names, "NGO/UN");
    let location = first_or_text(p.country_names, "Bangladesh");
    let ghost experiences = p.experience_names.deep_view();
    let experience = first_or_text(p.experience_names, "");
    let url = if p.url_alias.unicode_len() > 0 {
        let mut u = text("https://reliefweb.int");
        u.append(p.url_alias.as_str());
        u
    } else {
        text("https://reliefweb.int/jobs")
    };
    let description = match p.body {
        Some(b) => b,
        None => String::new(),
    };
    proof {
        reveal_strlit("");
    }
    let experience_level = if experience.unicode_len() == 0 {
        None
    } else {
        Some(experience)
    };
    ExternalJob {
        id,
        title: p.title,
        company,
        location,
        description,
        url,
        posted_date: p.created,
        source: text("ReliefWeb"),
        job_type: Some(text("Full-time")),
        experience_level,
        skills: p.career_categories,
        salary: None,
    }
}

} // verus!
