//! The heuristic explanation of a match: strengths, areas to improve and a
//! verdict built from the sub-scores and the two skill lists.
use vstd::prelude::*;
use crate::models::{experience_name, CareerTrack, ExperienceLevel};
use crate::score::Score;
use crate::skills::{missing_view, partition_skills, shared_view};
use crate::text::{decimal, decimal_text, join_first, join_with};

verus! {

/// The name of the level, or `dflt` when it is unknown.
pub open spec fn level_or(l: Option<ExperienceLevel>, dflt: Seq<char>) -> Seq<char> {
    match l {
        Some(v) => experience_name(v),
        None => dflt,
    }
}

/// At most the first `k` items.
pub open spec fn first_few(s: Seq<Seq<char>>, k: int) -> Seq<Seq<char>> {
    if s.len() <= k {
        s
    } else {
        s.subrange(0, k)
    }
}

/// One item when `c` holds, none otherwise.
pub open spec fn when(c: bool, x: Seq<char>) -> Seq<Seq<char>> {
    if c {
        seq![x]
    } else {
        Seq::empty()
    }
}

/// Up to five matched skills, comma-joined.
pub open spec fn matched_list(user: Seq<Seq<char>>, job: Seq<Seq<char>>) -> Seq<char> {
    join_with(first_few(shared_view(job, user), 5), ", "@)
}

/// Up to three missing skills, comma-joined.
pub open spec fn missing_list(user: Seq<Seq<char>>, job: Seq<Seq<char>>) -> Seq<char> {
    join_with(first_few(missing_view(job, user), 3), ", "@)
}

/// The strengths of a match.
pub open spec fn strengths_of(
    user: Seq<Seq<char>>,
    job: Seq<Seq<char>>,
    user_exp: Option<ExperienceLevel>,
    exp_points: int,
    track_points: int,
) -> Seq<Seq<char>> {
    when(shared_view(job, user).len() > 0, "Strong skills match: "@ + matched_list(user, job))
        + when(
        exp_points >= 80,
        "Experience level ("@ + level_or(user_exp, "your level"@)
            + ") aligns well with this position"@,
    ) + when(track_points >= 80, "This role matches your preferred career track"@)
}

/// The areas to improve of a match.
pub open spec fn improvements_of(
    user: Seq<Seq<char>>,
    job: Seq<Seq<char>>,
    user_exp: Option<ExperienceLevel>,
    job_exp: ExperienceLevel,
    exp_points: int,
) -> Seq<Seq<char>> {
    when(missing_view(job, user).len() > 0, "Learn: "@ + missing_list(user, job)) + when(
        exp_points < 60,
        "This role requires "@ + experience_name(job_exp) + " experience, but you have "@
            + level_or(user_exp, "different"@),
    )
}

/// The sentences of the explanation, before the verdict.
pub open spec fn fragments_of(
    user: Seq<Seq<char>>,
    job: Seq<Seq<char>>,
    exp_points: int,
    track_points: int,
) -> Seq<Seq<char>> {
    when(
        shared_view(job, user).len() > 0,
        "You have "@ + decimal(shared_view(job, user).len()) + " of "@ + decimal(job.len())
            + " required skills ("@ + matched_list(user, job) + ")"@,
    ) + when(missing_view(job, user).len() > 0, "Consider learning: "@ + missing_list(user, job))
        + when(exp_points >= 80, "Your experience level is a good fit for this role"@) + when(
        track_points >= 80,
        "The position aligns with your career interests"@,
    )
}

/// The overall verdict for a match score.
pub open spec fn verdict(score: Score) -> Seq<char> {
    if score.at_least(80) {
        "Excellent match!"@
    } else if score.at_least(60) {
        "Good match"@
    } else if score.at_least(40) {
        "Moderate match"@
    } else {
        "Limited match"@
    }
}

/// The full explanation: the verdict, a space, and the fragments joined by
/// `". "`.
pub open spec fn explanation_text(
    user: Seq<Seq<char>>,
    job: Seq<Seq<char>>,
    exp_points: int,
    track_points: int,
    score: Score,
) -> Seq<char> {
    verdict(score) + " "@ + join_with(fragments_of(user, job, exp_points, track_points), ". "@)
}

/// The heuristic explanation depends on its inputs alone: equal scores and
/// skill lists give the same text, strengths and areas to improve.
pub proof fn lemma_explanation_deterministic(
    user1: Seq<Seq<char>>,
    user2: Seq<Seq<char>>,
    job1: Seq<Seq<char>>,
    job2: Seq<Seq<char>>,
    user_exp: Option<ExperienceLevel>,
    job_exp: ExperienceLevel,
    exp_points: int,
    track_points: int,
    score1: Score,
    score2: Score,
)
    requires
        user1 == user2,
        job1 == job2,
        score1 == score2,
    ensures
        explanation_text(user1, job1, exp_points, track_points, score1) == explanation_text(
            user2,
            job2,
            exp_points,
            track_points,
            score2,
        ),
        strengths_of(user1, job1, user_exp, exp_points, track_points) == strengths_of(
            user2,
            job2,
            user_exp,
            exp_points,
            track_points,
        ),
        improvements_of(user1, job1, user_exp, job_exp, exp_points) == improvements_of(
            user2,
            job2,
            user_exp,
            job_exp,
            exp_points,
        ),
{
}

fn push_when(v: &mut Vec<String>, c: bool, x: String)
    ensures
        final(v).deep_view() == old(v).deep_view() + when(c, x@),
{
    let ghost before = v.deep_view();
    if c {
        v.push(x);
        assert(v.deep_view() =~= before + when(c, x@));
    } else {
        assert(before + when(c, x@) =~= before);
    }
}

/// The verdict for a match score.
fn verdict_text(score: &Score) -> (r: &'static str)
    ensures
        r@ == verdict(*score),
{
    if score.reaches(80) {
        "Excellent match!"
    } else if score.reaches(60) {
        "Good match"
    } else if score.reaches(40) {
        "Moderate match"
    } else {
        "Limited match"
    }
}

/// The heuristic explanation of a match, with its strengths and areas to
/// improve, from the candidate's and the job's skills and levels and the
/// sub-scores. Skills are named as on the job's side.
pub fn generate_match_explanation(
    user_skills: &Vec<String>,
    job_skills: &Vec<String>,
    user_experience: Option<ExperienceLevel>,
    job_experience: ExperienceLevel,
    _user_track: Option<CareerTrack>,
    _job_title: &str,
    _skill_overlap: Score,
    experience_alignment: u64,
    track_alignment: u64,
    match_score: Score,
) -> (r: (String, Vec<String>, Vec<String>))
    ensures
        r.0@ == explanation_text(
            user_skills.deep_view(),
            job_skills.deep_view(),
            experience_alignment as int,
            track_alignment as int,
            match_score,
        ),
        r.1.deep_view() == strengths_of(
            user_skills.deep_view(),
            job_skills.deep_view(),
            user_experience,
            experience_alignment as int,
            track_alignment as int,
        ),
        r.2.deep_view() == improvements_of(
            user_skills.deep_view(),
            job_skills.deep_view(),
            user_experience,
            job_experience,
            experience_alignment as int,
        ),
{
    let ghost user = user_skills.deep_view();
    let ghost job = job_skills.deep_view();
    let (matched, missing) = partition_skills(job_skills, user_skills);
    let m5 = if matched.len() <= 5 { matched.len() } else { 5 };
    let g3 = if missing.len() <= 3 { missing.len() } else { 3 };
    let skill_list = join_first(&matched, m5, ", ");
    let missing_text = join_first(&missing, g3, ", ");
    assert(matched.deep_view().subrange(0, m5 as int) =~= first_few(shared_view(job, user), 5));
    assert(missing.deep_view().subrange(0, g3 as int) =~= first_few(missing_view(job, user), 3));

    let mut strengths: Vec<String> = Vec::new();
    let mut improvements: Vec<String> = Vec::new();
    let mut fragments: Vec<String> = Vec::new();

    let mut s1 = "Strong skills match: ".to_owned();
    s1.append(skill_list.as_str());
    push_when(&mut strengths, matched.len() > 0, s1);

    let mut f1 = "You have ".to_owned();
    f1.append(decimal_text(matched.len()).as_str());
    f1.append(" of ");
    f1.append(decimal_text(job_skills.len()).as_str());
    f1.append(" required skills (");
    f1.append(skill_list.as_str());
    f1.append(")");
    push_when(&mut fragments, matched.len() > 0, f1);

    let mut i1 = "Learn: ".to_owned();
    i1.append(missing_text.as_str());
    push_when(&mut improvements, missing.len() > 0, i1);

    let mut f2 = "Consider learning: ".to_owned();
    f2.append(missing_text.as_str());
    push_when(&mut fragments, missing.len() > 0, f2);

    let level = match user_experience {
        Some(l) => l.name(),
        None => "your level",
    };
    let mut s2 = "Experience level (".to_owned();
    s2.append(level);
    s2.append(") aligns well with this position");
    push_when(&mut strengths, experience_alignment >= 80, s2);
    push_when(
        &mut fragments,
        experience_alignment >= 80,
        "Your experience level is a good fit for this role".to_owned(),
    );

    let had = match user_experience {
        Some(l) => l.name(),
        None => "different",
    };
    let mut i2 = "This role requires ".to_owned();
    i2.append(job_experience.name());
    i2.append(" experience, but you have ");
    i2.append(had);
    push_when(&mut improvements, experience_alignment < 60, i2);

    push_when(
        &mut strengths,
        track_alignment >= 80,
        "This role matches your preferred career track".to_owned(),
    );
    push_when(
        &mut fragments,
        track_alignment >= 80,
        "The position aligns with your career interests".to_owned(),
    );

    let body = join_first(&fragments, fragments.len(), ". ");
    assert(fragments.deep_view().subrange(0, fragments.len() as int) =~= fragments.deep_view());
    let mut explanation = verdict_text(&match_score).to_owned();
    explanation.append(" ");
    explanation.append(body.as_str());
    assert(strengths.deep_view() =~= strengths_of(
        user,
        job,
        user_experience,
        experience_alignment as int,
        track_alignment as int,
    ));
    assert(improvements.deep_view() =~= improvements_of(
        user,
        job,
        user_experience,
        job_experience,
        experience_alignment as int,
    ));
    assert(fragments.deep_view() =~= fragments_of(
        user,
        job,
        experience_alignment as int,
        track_alignment as int,
    ));
    (explanation, strengths, improvements)
}

} // verus!
