//! The match scorer: skill overlap, experience alignment and track alignment
//! of a candidate against a job, and their weighted combination.
use vstd::prelude::*;
use crate::models::{CareerTrack, ExperienceLevel};
use crate::explanation::{explanation_text, generate_match_explanation, improvements_of, strengths_of};
use crate::score::Score;
use crate::skills::{
    canonical_form, lemma_lengths, lemma_matched_count_is_intersection, matched_count, partition_skills,
    shared_key_count,
};
use crate::text::{lower_of, lowercase, occurs, occurs_in, to_chars};

verus! {

/// The numerator of the skill overlap over `n` required skills, of which the
/// candidate, who lists `u` skills, has `m`: `100 m` plus a bonus of
/// `10 (u - n)` capped at `10 n` when `u > n`, the whole capped at `100 n`.
pub open spec fn overlap_num(m: int, u: int, n: int) -> int {
    let bonus = if u > n {
        if 10 * (u - n) < 10 * n {
            10 * (u - n)
        } else {
            10 * n
        }
    } else {
        0
    };
    if 100 * m + bonus < 100 * n {
        100 * m + bonus
    } else {
        100 * n
    }
}

/// The skill overlap of a candidate's skills against a job's required
/// skills, as a numerator and a denominator: `100 / 1` when nothing is
/// required.
pub open spec fn overlap_fraction(user: Seq<Seq<char>>, job: Seq<Seq<char>>) -> (int, int) {
    if job.len() == 0 {
        (100, 1)
    } else {
        (
            overlap_num(matched_count(user, job) as int, user.len() as int, job.len() as int),
            job.len() as int,
        )
    }
}

/// Skill overlap is 100 when nothing is required, and it never drops when
/// the intersection of the candidate's skills with the required ones grows
/// while the candidate lists at least as many skills in all.
pub proof fn lemma_overlap_monotone(a1: Seq<Seq<char>>, a2: Seq<Seq<char>>, b: Seq<Seq<char>>)
    requires
        shared_key_count(a1, b) <= shared_key_count(a2, b),
        a1.len() <= a2.len(),
    ensures
        b.len() == 0 ==> overlap_fraction(a1, b) == (100int, 1int),
        overlap_fraction(a1, b).1 == overlap_fraction(a2, b).1,
        overlap_fraction(a1, b).0 <= overlap_fraction(a2, b).0,
{
    lemma_matched_count_is_intersection(a1, b);
    lemma_matched_count_is_intersection(a2, b);
}

/// Skill overlap always lies between 0 and 100.
pub proof fn lemma_overlap_bounds(a: Seq<Seq<char>>, b: Seq<Seq<char>>)
    ensures
        overlap_fraction(a, b).1 > 0,
        0 <= overlap_fraction(a, b).0 <= 100 * overlap_fraction(a, b).1,
{
}

/// Skill overlap, between 0 and 100: the share of the required skills that
/// the candidate has, compared case-insensitively, with a bonus for listing
/// more skills than required; 100 when nothing is required.
pub fn calculate_skill_overlap(user_skills: &Vec<String>, job_skills: &Vec<String>) -> (r: Score)
    ensures
        r.num == overlap_fraction(user_skills.deep_view(), job_skills.deep_view()).0,
        r.den == overlap_fraction(user_skills.deep_view(), job_skills.deep_view()).1,
        r.wf(),
        r.num <= 100 * r.den,
        r.num % 10 == 0,
{
    let n = job_skills.len();
    if n == 0 {
        return Score::whole(100);
    }
    let u = user_skills.len();
    let (shared, _missing) = partition_skills(job_skills, user_skills);
    proof {
        lemma_lengths(job_skills.deep_view(), user_skills.deep_view(), true);
        lemma_lengths(canonical_form(job_skills.deep_view()), user_skills.deep_view(), true);
    }
    let m = shared.len();
    assert(m <= n);
    let extra: usize = if u > n {
        if u - n < n {
            u - n
        } else {
            n
        }
    } else {
        0
    };
    // The numerator is a multiple of ten: `10 * min(10 m + extra, 10 n)`.
    let nn = n as u128;
    let tens: u128 = if 10 * (m as u128) + (extra as u128) < 10 * nn {
        10 * (m as u128) + (extra as u128)
    } else {
        10 * nn
    };
    let num = 10 * tens;
    assert(num % 10 == 0) by (nonlinear_arith)
        requires
            num == 10 * tens,
    ;
    Score { num, den: n }
}

/// Experience alignment of a candidate's level against a job's: 50 when the
/// candidate's level is unknown, 100 when equal, 80 one step up, 60 two
/// steps up, 70 one step down, 40 two steps down.
pub open spec fn experience_points(user: Option<ExperienceLevel>, job: ExperienceLevel) -> int {
    match user {
        None => 50,
        Some(u) => match (u, job) {
            (ExperienceLevel::Fresher, ExperienceLevel::Fresher) => 100,
            (ExperienceLevel::Junior, ExperienceLevel::Junior) => 100,
            (ExperienceLevel::Mid, ExperienceLevel::Mid) => 100,
            (ExperienceLevel::Fresher, ExperienceLevel::Junior) => 80,
            (ExperienceLevel::Junior, ExperienceLevel::Mid) => 80,
            (ExperienceLevel::Fresher, ExperienceLevel::Mid) => 60,
            (ExperienceLevel::Junior, ExperienceLevel::Fresher) => 70,
            (ExperienceLevel::Mid, ExperienceLevel::Junior) => 70,
            (ExperienceLevel::Mid, ExperienceLevel::Fresher) => 40,
        },
    }
}

/// Experience alignment, between 0 and 100.
pub fn calculate_experience_alignment(
    user_exp: Option<ExperienceLevel>,
    job_exp: ExperienceLevel,
) -> (r: u64)
    ensures
        r == experience_points(user_exp, job_exp),
{
    match user_exp {
        None => 50,
        Some(u) => match (u, job_exp) {
            (ExperienceLevel::Fresher, ExperienceLevel::Fresher) => 100,
            (ExperienceLevel::Junior, ExperienceLevel::Junior) => 100,
            (ExperienceLevel::Mid, ExperienceLevel::Mid) => 100,
            (ExperienceLevel::Fresher, ExperienceLevel::Junior) => 80,
            (ExperienceLevel::Junior, ExperienceLevel::Mid) => 80,
            (ExperienceLevel::Fresher, ExperienceLevel::Mid) => 60,
            (ExperienceLevel::Junior, ExperienceLevel::Fresher) => 70,
            (ExperienceLevel::Mid, ExperienceLevel::Junior) => 70,
            (ExperienceLevel::Mid, ExperienceLevel::Fresher) => 40,
        },
    }
}

/// An unknown experience level or career track scores a neutral 50.
pub proof fn lemma_unknown_is_neutral(job_exp: ExperienceLevel, job_title: Seq<char>)
    ensures
        experience_points(None, job_exp) == 50,
        track_points(None, job_title) == 50,
{
}

/// The job-title keywords of a career track.
pub open spec fn track_keywords(t: CareerTrack) -> Seq<&'static str> {
    match t {
        CareerTrack::WebDevelopment => seq![
            "frontend",
            "backend",
            "full stack",
            "web",
            "react",
            "node",
        ],
        CareerTrack::Data => seq!["data", "analyst", "scientist", "ml", "machine learning"],
        CareerTrack::Design => seq!["designer", "ui", "ux", "graphic"],
        CareerTrack::Marketing => seq!["marketing", "seo", "content", "social"],
    }
}

/// Some keyword of the track occurs in the case-folded job title
/// `folded`.
pub open spec fn folded_title_fits(t: CareerTrack, folded: Seq<char>) -> bool {
    exists|i: int|
        0 <= i < track_keywords(t).len() && occurs_in(#[trigger] track_keywords(t)[i]@, folded)
}

/// Track alignment of a preferred track against a case-folded job title:
/// 50 when the track is unknown, 100 when a keyword of the track occurs in
/// the title, 50 otherwise.
pub open spec fn folded_track_points(track: Option<CareerTrack>, folded: Seq<char>) -> int {
    match track {
        None => 50,
        Some(t) => if folded_title_fits(t, folded) {
            100
        } else {
            50
        },
    }
}

/// Track alignment of a preferred track against a job title, which is
/// compared case-insensitively.
pub open spec fn track_points(track: Option<CareerTrack>, title: Seq<char>) -> int {
    folded_track_points(track, lower_of(title))
}

/// The job-title keywords of a career track.
fn keywords(t: CareerTrack) -> (r: Vec<&'static str>)
    ensures
        r@ == track_keywords(t),
{
    let r = match t {
        CareerTrack::WebDevelopment => vec!["frontend", "backend", "full stack", "web", "react", "node"],
        CareerTrack::Data => vec!["data", "analyst", "scientist", "ml", "machine learning"],
        CareerTrack::Design => vec!["designer", "ui", "ux", "graphic"],
        CareerTrack::Marketing => vec!["marketing", "seo", "content", "social"],
    };
    assert(r@ =~= track_keywords(t));
    r
}

/// Track alignment against a job title that is already case-folded,
/// between 0 and 100.
pub fn folded_track_alignment(user_track: Option<CareerTrack>, folded_title: &str) -> (r: u64)
    ensures
        r == folded_track_points(user_track, folded_title@),
{
    match user_track {
        None => 50,
        Some(t) => {
            let title = to_chars(folded_title);
            let words = keywords(t);
            let mut i: usize = 0;
            while i < words.len()
                invariant
                    user_track == Some(t),
                    words@ == track_keywords(t),
                    title@ == folded_title@,
                    i <= words.len(),
                    forall|j: int| 0 <= j < i ==> !occurs_in(#[trigger] words@[j]@, title@),
                decreases words.len() - i,
            {
                let w = to_chars(words[i]);
                if occurs(&w, &title) {
                    assert(occurs_in(track_keywords(t)[i as int]@, folded_title@));
                    return 100;
                }
                i = i + 1;
            }
            50
        },
    }
}

/// Track alignment, between 0 and 100: the job title is compared
/// case-insensitively with the keywords of the preferred track.
pub fn calculate_track_alignment(user_track: Option<CareerTrack>, job_title: &str) -> (r: u64)
    ensures
        r == track_points(user_track, job_title@),
{
    let folded = lowercase(job_title);
    folded_track_alignment(user_track, folded.as_str())
}

/// The weighted combination `0.6 overlap + 0.2 experience + 0.2 track`, over
/// the overlap's denominator.
fn weighted_score(overlap: Score, exp: u64, track: u64) -> (r: Score)
    requires
        overlap.wf(),
        overlap.num <= 100 * overlap.den,
        overlap.num % 10 == 0,
        exp <= 100,
        track <= 100,
        exp % 10 == 0,
        track % 10 == 0,
    ensures
        r.den == overlap.den,
        10 * r.num == 6 * overlap.num + 2 * (exp + track) * overlap.den,
        r.num <= 100 * r.den,
{
    let d = overlap.den as u128;
    let o = overlap.num;
    let w = ((exp + track) / 5) as u128;
    assert(w * d <= 40 * d) by (nonlinear_arith)
        requires
            w <= 40,
    ;
    let num = 3 * (o / 5) + w * d;
    assert(10 * num == 6 * o + 2 * (exp + track) * d) by (nonlinear_arith)
        requires
            num == 3 * (o / 5) + w * d,
            w == (exp + track) / 5,
            o % 10 == 0,
            exp % 10 == 0,
            track % 10 == 0,
    ;
    Score { num, den: overlap.den }
}

/// A candidate's match against a job: the three sub-scores, their weighted
/// combination and the heuristic explanation.
#[derive(Debug)]
pub struct EnhancedMatchAnalysis {
    /// Overall match score, between 0 and 100.
    pub match_score: Score,
    /// Human-readable explanation.
    pub match_explanation: String,
    /// Why the job suits the candidate.
    pub strengths: Vec<String>,
    /// What the candidate could work on.
    pub improvement_areas: Vec<String>,
    /// Experience alignment, between 0 and 100.
    pub experience_alignment: u64,
    /// Track alignment, between 0 and 100.
    pub track_alignment: u64,
    /// Skill overlap, between 0 and 100.
    pub skill_overlap: Score,
}

/// Scores a candidate against a job: skill overlap weighs 0.6, experience
/// and track alignment 0.2 each, and the explanation is the heuristic one.
pub fn calculate_enhanced_match(
    user_skills: &Vec<String>,
    job_skills: &Vec<String>,
    user_experience: Option<ExperienceLevel>,
    job_experience: ExperienceLevel,
    user_track: Option<CareerTrack>,
    job_title: &str,
) -> (r: EnhancedMatchAnalysis)
    ensures
        r.skill_overlap.num == overlap_fraction(user_skills.deep_view(), job_skills.deep_view()).0,
        r.skill_overlap.den == overlap_fraction(user_skills.deep_view(), job_skills.deep_view()).1,
        r.experience_alignment == experience_points(user_experience, job_experience),
        r.track_alignment == track_points(user_track, job_title@),
        r.match_score.wf(),
        r.match_score.den == r.skill_overlap.den,
        10 * r.match_score.num == 6 * r.skill_overlap.num + 2 * (r.experience_alignment
            + r.track_alignment) * r.skill_overlap.den,
        r.match_explanation@ == explanation_text(
            user_skills.deep_view(),
            job_skills.deep_view(),
            r.experience_alignment as int,
            r.track_alignment as int,
            r.match_score,
        ),
        r.strengths.deep_view() == strengths_of(
            user_skills.deep_view(),
            job_skills.deep_view(),
            user_experience,
            r.experience_alignment as int,
            r.track_alignment as int,
        ),
        r.improvement_areas.deep_view() == improvements_of(
            user_skills.deep_view(),
            job_skills.deep_view(),
            user_experience,
            job_experience,
            r.experience_alignment as int,
        ),
{
    let skill_overlap = calculate_skill_overlap(user_skills, job_skills);
    let experience_alignment = calculate_experience_alignment(user_experience, job_experience);
    let track_alignment = calculate_track_alignment(user_track, job_title);
    let match_score = weighted_score(skill_overlap, experience_alignment, track_alignment);
    let (match_explanation, strengths, improvement_areas) = generate_match_explanation(
        user_skills,
        job_skills,
        user_experience,
        job_experience,
        user_track,
        job_title,
        skill_overlap,
        experience_alignment,
        track_alignment,
        match_score,
    );
    EnhancedMatchAnalysis {
        match_score,
        match_explanation,
        strengths,
        improvement_areas,
        experience_alignment,
        track_alignment,
        skill_overlap,
    }
}

} // verus!
