//! The skill gap analyser: the skills that the jobs of a role require,
//! split into those the candidate has and those still to learn.
use vstd::prelude::*;
use crate::models::LearningResource;
use crate::score::Score;
use crate::skills::{
    canonical_form, canonical_skills, lemma_lengths, missing_view, partition_skills, shared_view,
};

verus! {

/// The required skills of all jobs, job after job.
pub open spec fn all_skills(jobs: Seq<Seq<Seq<char>>>) -> Seq<Seq<char>>
    decreases jobs.len(),
{
    if jobs.len() == 0 {
        Seq::empty()
    } else {
        all_skills(jobs.drop_last()) + jobs.last()
    }
}

/// The union of the jobs' required skills, compared case-insensitively:
/// the first name of each skill, in order of first occurrence.
pub fn aggregate_required_skills(job_skills: &Vec<Vec<String>>) -> (r: Vec<String>)
    ensures
        r.deep_view() == canonical_form(all_skills(job_skills.deep_view())),
{
    let ghost jobs = job_skills.deep_view();
    let mut flat: Vec<String> = Vec::new();
    let mut i: usize = 0;
    while i < job_skills.len()
        invariant
            jobs == job_skills.deep_view(),
            i <= job_skills.len(),
            flat.deep_view() == all_skills(jobs.subrange(0, i as int)),
        decreases job_skills.len() - i,
    {
        let skills = &job_skills[i];
        let ghost base = flat.deep_view();
        let mut j: usize = 0;
        while j < skills.len()
            invariant
                i < job_skills.len(),
                skills == job_skills[i as int],
                j <= skills.len(),
                flat.deep_view() == base + skills.deep_view().subrange(0, j as int),
            decreases skills.len() - j,
        {
            flat.push(skills[j].clone());
            assert(base + skills.deep_view().subrange(0, j + 1) =~= (base + skills.deep_view().subrange(0, j as int)).push(skills.deep_view()[j as int]));
            j = j + 1;
            assert(flat.deep_view() =~= base + skills.deep_view().subrange(0, j as int));
        }
        assert(jobs.subrange(0, i + 1).drop_last() =~= jobs.subrange(0, i as int));
        assert(skills.deep_view().subrange(0, j as int) =~= jobs[i as int]);
        i = i + 1;
    }
    assert(jobs.subrange(0, i as int) =~= jobs);
    canonical_skills(&flat)
}

/// A candidate's skills against the skills that a role requires.
#[derive(Debug)]
pub struct SkillGapAnalysis {
    /// The candidate's skills.
    pub user_skills: Vec<String>,
    /// The role analysed.
    pub target_role: String,
    /// The skills the role requires, each once.
    pub required_skills: Vec<String>,
    /// Required skills the candidate lacks.
    pub skill_gaps: Vec<String>,
    /// Required skills the candidate has.
    pub matching_skills: Vec<String>,
    /// Share of the required skills the candidate has, between 0 and 100;
    /// 0 when nothing is required.
    pub match_percentage: Score,
    /// Resources that teach the missing skills.
    pub recommended_resources: Vec<LearningResource>,
}

/// Analyses the candidate's skills against the required skills of the jobs
/// found for a role. Skills are compared case-insensitively and named as the
/// jobs name them. No resources are attached yet.
pub fn analyze_skill_gap(
    user_skills: Vec<String>,
    target_role: String,
    role_job_skills: &Vec<Vec<String>>,
) -> (r: SkillGapAnalysis)
    ensures
        r.user_skills == user_skills,
        r.target_role == target_role,
        r.required_skills.deep_view() == canonical_form(all_skills(role_job_skills.deep_view())),
        r.matching_skills.deep_view() == shared_view(
            r.required_skills.deep_view(),
            user_skills.deep_view(),
        ),
        r.skill_gaps.deep_view() == missing_view(
            r.required_skills.deep_view(),
            user_skills.deep_view(),
        ),
        r.required_skills.len() == 0 ==> r.match_percentage.num == 0 && r.match_percentage.den
            == 1,
        r.required_skills.len() > 0 ==> r.match_percentage.num == 100
            * r.matching_skills.len() && r.match_percentage.den == r.required_skills.len(),
        r.recommended_resources@.len() == 0,
{
    let required_skills = aggregate_required_skills(role_job_skills);
    let (matching_skills, skill_gaps) = partition_skills(&required_skills, &user_skills);
    proof {
        lemma_lengths(required_skills.deep_view(), user_skills.deep_view(), true);
        lemma_lengths(canonical_form(required_skills.deep_view()), user_skills.deep_view(), true);
    }
    let match_percentage = if required_skills.len() == 0 {
        Score { num: 0, den: 1 }
    } else {
        Score { num: 100 * (matching_skills.len() as u128), den: required_skills.len() }
    };
    SkillGapAnalysis {
        user_skills,
        target_role,
        required_skills,
        skill_gaps,
        matching_skills,
        match_percentage,
        recommended_resources: Vec::new(),
    }
}

} // verus!
