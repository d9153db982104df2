use careerbridge::external_jobs::{
    get_sample_govt_jobs, get_sample_local_jobs, get_sample_ngo_jobs, reliefweb_job, ReliefWebPosting,
};
use careerbridge::gap::{aggregate_required_skills, analyze_skill_gap};
use careerbridge::models::{CareerTrack, CostIndicator, ExperienceLevel, Job, JobType, LearningResource};
use careerbridge::payloads::JobQueryParams;
use careerbridge::recommend::{platform_links, rank_job_recommendations, recommend_job};
use careerbridge::resources::{rank_resources, resource_relevance};
use careerbridge::score::Score;
use careerbridge::skills::{canonical_skills, first_by_keys, partition_skills, skill_keys, split_by_keys};

fn skills(names: &[&str]) -> Vec<String> {
    names.iter().map(|s| s.to_string()).collect()
}

fn value(s: &Score) -> f64 {
    s.num as f64 / s.den as f64
}

fn resource(id: i32, related: &[&str]) -> LearningResource {
    LearningResource {
        id,
        title: format!("Course {}", id),
        platform: "Coursera".to_string(),
        url: format!("https://example.org/{}", id),
        related_skills: skills(related),
        cost: CostIndicator::Free,
    }
}

fn job(id: i32, title: &str, required: &[&str], level: ExperienceLevel) -> Job {
    Job {
        id,
        job_title: title.to_string(),
        company: "Acme".to_string(),
        location: "Dhaka, Bangladesh".to_string(),
        job_description: "Build things.".to_string(),
        required_skills: skills(required),
        experience_level: level,
        job_type: JobType::FullTime,
        salary_min: None,
        salary_max: None,
        responsibilities: vec![],
        requirements: vec![],
        benefits: vec![],
    }
}

#[test]
fn skill_gap_uses_required_casing() {
    let r = analyze_skill_gap(
        skills(&["python", "docker"]),
        "Developer".to_string(),
        &vec![skills(&["Python", "React", "Docker"])],
    );
    assert_eq!(r.required_skills, skills(&["Python", "React", "Docker"]));
    assert_eq!(r.matching_skills, skills(&["Python", "Docker"]));
    assert_eq!(r.skill_gaps, skills(&["React"]));
    assert!((value(&r.match_percentage) - 66.67).abs() < 0.01);
    assert_eq!(r.target_role, "Developer");
    assert!(r.recommended_resources.is_empty());
}

#[test]
fn skill_gap_without_requirements_is_zero() {
    let r = analyze_skill_gap(skills(&["python"]), "Astronaut".to_string(), &vec![]);
    assert!(r.required_skills.is_empty());
    assert!(r.matching_skills.is_empty());
    assert!(r.skill_gaps.is_empty());
    assert_eq!(value(&r.match_percentage), 0.0);
}

#[test]
fn required_skills_are_merged_across_jobs() {
    let all = aggregate_required_skills(&vec![skills(&["Python", "SQL"]), skills(&["python", "Docker", "sql"])]);
    assert_eq!(all, skills(&["Python", "SQL", "Docker"]));
}

#[test]
fn normalizer_keeps_first_casing() {
    assert_eq!(canonical_skills(&skills(&["React", "react", "Go", "REACT"])), skills(&["React", "Go"]));
    assert_eq!(skill_keys(&skills(&["Python", "SQL"])), skills(&["python", "sql"]));
    let (shared, missing) = partition_skills(&skills(&["Go", "Rust", "go"]), &skills(&["GO"]));
    assert_eq!(shared, skills(&["Go"]));
    assert_eq!(missing, skills(&["Rust"]));
}

#[test]
fn resource_relevance_counts_new_skills() {
    let (score, target) = resource_relevance(&skills(&["Python"]), &skills(&["Python", "SQL"]));
    assert_eq!(value(&score), 50.0);
    assert_eq!(target, skills(&["SQL"]));
    let (empty, none) = resource_relevance(&skills(&["Python"]), &skills(&[]));
    assert_eq!(value(&empty), 0.0);
    assert!(none.is_empty());
}

#[test]
fn resources_ranked_by_new_skills() {
    let ranked = rank_resources(
        &skills(&["Python"]),
        vec![
            resource(1, &["Python", "SQL"]),
            resource(2, &["python"]),
            resource(3, &["Docker", "Kubernetes"]),
            resource(4, &[]),
            resource(5, &["SQL", "PYTHON"]),
        ],
    );
    let ids: Vec<i32> = ranked.iter().map(|r| r.resource.id).collect();
    assert_eq!(ids, vec![3, 1, 5]);
    assert_eq!(value(&ranked[0].relevance_score), 100.0);
    assert_eq!(value(&ranked[1].relevance_score), 50.0);
    assert_eq!(ranked[1].target_skills, skills(&["SQL"]));
    assert_eq!(ranked[0].target_skills, skills(&["Docker", "Kubernetes"]));
}

#[test]
fn jobs_ranked_by_match_score() {
    let user = skills(&["Python", "SQL"]);
    let recs = vec![
        recommend_job(&user, Some(ExperienceLevel::Junior), Some(CareerTrack::Data), job(1, "Cook", &["Cooking"], ExperienceLevel::Mid)),
        recommend_job(&user, Some(ExperienceLevel::Junior), Some(CareerTrack::Data), job(2, "Data Analyst", &["Python", "SQL", "Docker"], ExperienceLevel::Junior)),
        recommend_job(&user, Some(ExperienceLevel::Junior), Some(CareerTrack::Data), job(3, "Baker", &["Baking"], ExperienceLevel::Mid)),
    ];
    assert_eq!(recs[1].matched_skills, skills(&["Python", "SQL"]));
    assert_eq!(recs[1].missing_skills, skills(&["Docker"]));
    assert!((value(&recs[1].match_score) - 80.0).abs() < 1e-9);
    let ranked = rank_job_recommendations(recs);
    let ids: Vec<i32> = ranked.iter().map(|r| r.job.id).collect();
    assert_eq!(ids, vec![2, 1, 3]);
}

#[test]
fn platform_links_are_url_encoded() {
    let links = platform_links("Data Analyst & ML", "Dhaka, Bangladesh");
    assert_eq!(
        links.linkedin,
        "https://www.linkedin.com/jobs/search/?keywords=Data%20Analyst%20%26%20ML&location=Dhaka%2C%20Bangladesh"
    );
    assert_eq!(links.bdjobs, "https://jobs.bdjobs.com/jobsearch.asp?txtKeyword=Data%20Analyst%20%26%20ML&fcatId=8");
    assert_eq!(links.glassdoor, "https://www.glassdoor.com/Job/jobs.htm?sc.keyword=Data%20Analyst%20%26%20ML");
    assert_eq!(links.indeed, "https://www.indeed.com/jobs?q=Data%20Analyst%20%26%20ML&l=Dhaka%2C%20Bangladesh");
    assert!(links.rojgari.is_none());
}

#[test]
fn sample_job_sources() {
    let ngo = get_sample_ngo_jobs();
    assert_eq!(ngo.len(), 6);
    assert_eq!(ngo[0].id, "reliefweb_001");
    assert_eq!(ngo[0].company, "UNICEF Bangladesh");
    assert_eq!(ngo[5].skills.len(), 4);
    let govt = get_sample_govt_jobs();
    assert_eq!(govt.len(), 2);
    assert_eq!(govt[1].source, "NGOAB");
    let local = get_sample_local_jobs();
    assert_eq!(local.len(), 3);
    assert_eq!(local[1].skills, skills(&["Digital Marketing", "SEO", "Social Media", "Analytics"]));
    assert_eq!(local[2].experience_level.as_deref(), Some("Junior"));
}

#[test]
fn job_query_default_limit() {
    let p = JobQueryParams { experience_level: None, job_type: None, limit: None };
    assert_eq!(p.result_limit(), 50);
    let q = JobQueryParams { experience_level: Some(ExperienceLevel::Mid), job_type: Some(JobType::Internship), limit: Some(5) };
    assert_eq!(q.result_limit(), 5);
}

#[test]
fn reliefweb_posting_becomes_listing() {
    let full = reliefweb_job(ReliefWebPosting {
        id: "4242".to_string(),
        title: "Nutrition Officer".to_string(),
        body: Some("Support nutrition programmes.".to_string()),
        url_alias: "/job/4242/nutrition-officer".to_string(),
        source_names: skills(&["WFP", "UNHCR"]),
        country_names: skills(&["Bangladesh"]),
        created: "2025-11-01".to_string(),
        experience_names: skills(&["3-4 years"]),
        career_categories: skills(&["Health", "Program/Project Management"]),
    });
    assert_eq!(full.id, "reliefweb_4242");
    assert_eq!(full.company, "WFP");
    assert_eq!(full.location, "Bangladesh");
    assert_eq!(full.url, "https://reliefweb.int/job/4242/nutrition-officer");
    assert_eq!(full.description, "Support nutrition programmes.");
    assert_eq!(full.source, "ReliefWeb");
    assert_eq!(full.job_type.as_deref(), Some("Full-time"));
    assert_eq!(full.experience_level.as_deref(), Some("3-4 years"));
    assert_eq!(full.skills, skills(&["Health", "Program/Project Management"]));
    assert!(full.salary.is_none());
    let bare = reliefweb_job(ReliefWebPosting {
        id: "7".to_string(),
        title: "Driver".to_string(),
        body: None,
        url_alias: String::new(),
        source_names: vec![],
        country_names: vec![],
        created: String::new(),
        experience_names: vec![],
        career_categories: vec![],
    });
    assert_eq!(bare.company, "NGO/UN");
    assert_eq!(bare.location, "Bangladesh");
    assert_eq!(bare.url, "https://reliefweb.int/jobs");
    assert_eq!(bare.description, "");
    assert!(bare.experience_level.is_none());
}

#[test]
fn keyed_selection_uses_given_keys() {
    let names = skills(&["Go", "Rust", "GO", "C"]);
    let keys = skills(&["go", "rust", "go", "c"]);
    assert_eq!(first_by_keys(&names, &keys), skills(&["Go", "Rust", "C"]));
    let (inside, outside) = split_by_keys(&skills(&["Go", "Rust", "C"]), &skills(&["go", "rust", "c"]), &skills(&["c", "go"]));
    assert_eq!(inside, skills(&["Go", "C"]));
    assert_eq!(outside, skills(&["Rust"]));
}
