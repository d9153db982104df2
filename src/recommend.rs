//! Job recommendations: each job scored against the candidate, with search
//! links, ranked by match score.
use vstd::prelude::*;
use vstd::utf8::encode_utf8;
use crate::explanation::{explanation_text, improvements_of, strengths_of};
use crate::matching::{calculate_enhanced_match, experience_points, overlap_fraction, track_points};
use crate::models::{CareerTrack, ExperienceLevel, Job};
use crate::ranking::{all_kept, is_ranking, rank_by_score};
use crate::score::Score;
use crate::skills::{missing_view, partition_skills, shared_view};

verus! {

/// A byte that URL encoding leaves as it is: an ASCII letter or digit, or
/// one of `-`, `.`, `_`, `~`.
pub open spec fn url_safe(b: u8) -> bool {
    (48 <= b <= 57) || (65 <= b <= 90) || (97 <= b <= 122) || b == 45 || b == 46 || b == 95 || b
        == 126
}

/// The upper-case hexadecimal digit of `d`, below 16.
pub open spec fn hex_digit(d: u8) -> char {
    if d < 10 {
        (48 + d) as char
    } else {
        (55 + d) as char
    }
}

/// Percent-encoding of a byte string: safe bytes stay, every other byte
/// becomes `%` and two upper-case hexadecimal digits.
pub open spec fn percent_encoded(bytes: Seq<u8>) -> Seq<char>
    decreases bytes.len(),
{
    if bytes.len() == 0 {
        Seq::empty()
    } else {
        let b = bytes.last();
        percent_encoded(bytes.drop_last()) + if url_safe(b) {
            seq![b as char]
        } else {
            seq!['%', hex_digit(b / 16), hex_digit(b % 16)]
        }
    }
}

/// URL encoding of a text: percent-encoding of its UTF-8 bytes.
pub open spec fn url_encoded(s: Seq<char>) -> Seq<char> {
    percent_encoded(encode_utf8(s))
}

/// Relies on `urlencoding::encode`: it percent-encodes every UTF-8 byte of
/// the text except ASCII letters, digits and `-`, `_`, `.`, `~`, with
/// upper-case hexadecimal digits.
#[verifier::external_body]
fn url_encode(s: &str) -> (r: String)
    ensures
        r@ == url_encoded(s@),
{
    urlencoding::encode(s).into_owned()
}

/// Job-board searches for a job.
#[derive(Debug, Clone)]
pub struct PlatformLinks {
    /// LinkedIn search by title and location.
    pub linkedin: String,
    /// BDJobs search by title.
    pub bdjobs: String,
    /// Glassdoor search by title.
    pub glassdoor: String,
    /// Indeed search by title and location.
    pub indeed: String,
    /// Rojgari search, when there is one.
    pub rojgari: Option<String>,
}

/// Search links on the job boards for a title and a location, each
/// URL-encoded.
pub fn platform_links(job_title: &str, location: &str) -> (r: PlatformLinks)
    ensures
        r.linkedin@ == "https://www.linkedin.com/jobs/search/?keywords="@ + url_encoded(job_title@) + "&location="@ + url_encoded(location@),
        r.bdjobs@ == "https://jobs.bdjobs.com/jobsearch.asp?txtKeyword="@ + url_encoded(job_title@) + "&fcatId=8"@,
        r.glassdoor@ == "https://www.glassdoor.com/Job/jobs.htm?sc.keyword="@ + url_encoded(job_title@),
        r.indeed@ == "https://www.indeed.com/jobs?q="@ + url_encoded(job_title@)
            + "&l="@ + url_encoded(location@),
        r.rojgari is None,
{
    let t = url_encode(job_title);
    let l = url_encode(location);
    let mut linkedin = "https://www.linkedin.com/jobs/search/?keywords=".to_owned();
    linkedin.append(t.as_str());
    linkedin.append("&location=");
    linkedin.append(l.as_str());
    let mut bdjobs = "https://jobs.bdjobs.com/jobsearch.asp?txtKeyword=".to_owned();
    bdjobs.append(t.as_str());
    bdjobs.append("&fcatId=8");
    let mut glassdoor = "https://www.glassdoor.com/Job/jobs.htm?sc.keyword=".to_owned();
    glassdoor.append(t.as_str());
    let mut indeed = "https://www.indeed.com/jobs?q=".to_owned();
    indeed.append(t.as_str());
    indeed.append("&l=");
    indeed.append(l.as_str());
    PlatformLinks { linkedin, bdjobs, glassdoor, indeed, rojgari: None }
}

/// A job with its match analysis for the candidate.
#[derive(Debug)]
pub struct JobRecommendation {
    /// The job.
    pub job: Job,
    /// Overall match score, between 0 and 100.
    pub match_score: Score,
    /// Required skills the candidate has, as the job names them.
    pub matched_skills: Vec<String>,
    /// Required skills the candidate lacks, as the job names them.
    pub missing_skills: Vec<String>,
    /// Explanation of the match.
    pub match_explanation: String,
    /// Why the job suits the candidate.
    pub strengths: Vec<String>,
    /// What the candidate could work on.
    pub improvement_areas: Vec<String>,
    /// Experience alignment, between 0 and 100.
    pub experience_alignment: u64,
    /// Track alignment, between 0 and 100.
    pub track_alignment: u64,
    /// Skill overlap, between 0 and 100.
    pub skill_overlap: Score,
    /// Searches for the job on the job boards.
    pub platform_links: PlatformLinks,
}

/// Scores one job against the candidate, with the heuristic explanation.
pub fn recommend_job(
    user_skills: &Vec<String>,
    user_experience: Option<ExperienceLevel>,
    user_track: Option<CareerTrack>,
    job: Job,
) -> (r: JobRecommendation)
    ensures
        r.job == job,
        r.skill_overlap.num == overlap_fraction(
            user_skills.deep_view(),
            job.required_skills.deep_view(),
        ).0,
        r.skill_overlap.den == overlap_fraction(
            user_skills.deep_view(),
            job.required_skills.deep_view(),
        ).1,
        r.experience_alignment == experience_points(user_experience, job.experience_level),
        r.track_alignment == track_points(user_track, job.job_title@),
        r.match_score.wf(),
        r.match_score.den == r.skill_overlap.den,
        10 * r.match_score.num == 6 * r.skill_overlap.num + 2 * (r.experience_alignment
            + r.track_alignment) * r.skill_overlap.den,
        r.matched_skills.deep_view() == shared_view(
            job.required_skills.deep_view(),
            user_skills.deep_view(),
        ),
        r.missing_skills.deep_view() == missing_view(
            job.required_skills.deep_view(),
            user_skills.deep_view(),
        ),
        r.match_explanation@ == explanation_text(
            user_skills.deep_view(),
            job.required_skills.deep_view(),
            r.experience_alignment as int,
            r.track_alignment as int,
            r.match_score,
        ),
        r.strengths.deep_view() == strengths_of(
            user_skills.deep_view(),
            job.required_skills.deep_view(),
            user_experience,
            r.experience_alignment as int,
            r.track_alignment as int,
        ),
        r.improvement_areas.deep_view() == improvements_of(
            user_skills.deep_view(),
            job.required_skills.deep_view(),
            user_experience,
            job.experience_level,
            r.experience_alignment as int,
        ),
        r.platform_links.linkedin@ == "https://www.linkedin.com/jobs/search/?keywords="@
            + url_encoded(job.job_title@) + "&location="@
            + url_encoded(job.location@),
{
    let analysis = calculate_enhanced_match(
        user_skills,
        &job.required_skills,
        user_experience,
        job.experience_level,
        user_track,
        job.job_title.as_str(),
    );
    let (matched_skills, missing_skills) = partition_skills(&job.required_skills, user_skills);
    let platform_links = platform_links(job.job_title.as_str(), job.location.as_str());
    JobRecommendation {
        job,
        match_score: analysis.match_score,
        matched_skills,
        missing_skills,
        match_explanation: analysis.match_explanation,
        strengths: analysis.strengths,
        improvement_areas: analysis.improvement_areas,
        experience_alignment: analysis.experience_alignment,
        track_alignment: analysis.track_alignment,
        skill_overlap: analysis.skill_overlap,
        platform_links,
    }
}

/// The match score of each recommendation.
pub open spec fn match_scores(recs: Seq<JobRecommendation>) -> Seq<Score> {
    Seq::new(recs.len(), |i: int| recs[i].match_score)
}

/// The recommendations, highest match score first; recommendations of equal
/// score keep their order.
pub fn rank_job_recommendations(recs: Vec<JobRecommendation>) -> (r: Vec<JobRecommendation>)
    requires
        forall|i: int| 0 <= i < recs.len() ==> (#[trigger] recs@[i]).match_score.wf(),
    ensures
        exists|ord: Seq<int>|
            is_ranking(ord, match_scores(recs@), all_kept(recs@.len()))
                && r@.len() == ord.len() && forall|k: int|
                0 <= k < ord.len() ==> r@[k] == recs@[#[trigger] ord[k]],
{
    let ghost recs0 = recs@;
    let mut scores: Vec<Score> = Vec::new();
    let mut keep: Vec<bool> = Vec::new();
    let mut i: usize = 0;
    while i < recs.len()
        invariant
            recs@ == recs0,
            i <= recs.len(),
            scores@ == match_scores(recs0).subrange(0, i as int),
            keep@ == all_kept(recs0.len()).subrange(0, i as int),
        decreases recs.len() - i,
    {
        scores.push(recs[i].match_score);
        keep.push(true);
        assert(scores@ =~= match_scores(recs0).subrange(0, i + 1));
        assert(keep@ =~= all_kept(recs0.len()).subrange(0, i + 1));
        i = i + 1;
    }
    assert(scores@ =~= match_scores(recs0));
    assert(keep@ =~= all_kept(recs0.len()));
    rank_by_score(recs, scores, keep)
}

} // verus!
