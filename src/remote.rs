//! The optional remote explanation: the prompt handed to a text-generation
//! service, the cleaning of its answer, and the fall back to the heuristic
//! explanation when the service fails.
use vstd::prelude::*;
use crate::explanation::{explanation_text, generate_match_explanation};
use crate::models::{experience_name, track_name, CareerTrack, ExperienceLevel};
use crate::score::Score;
use crate::text::{decimal, decimal_text, digit, join_first, join_with, remove_all, to_chars, string_from_chars, trim_text, trimmed, without};

verus! {

/// Ten times the score, rounded half up.
pub open spec fn tenths(s: Score) -> int {
    (20 * s.num + s.den) / (2 * s.den as int)
}

/// The score with one decimal, rounded half up.
pub open spec fn one_decimal(s: Score) -> Seq<char> {
    decimal((tenths(s) / 10) as nat) + "."@ + seq![digit((tenths(s) % 10) as nat)]
}

/// The score with one decimal, rounded half up.
pub fn one_decimal_text(s: &Score) -> (r: String)
    requires
        s.wf(),
        s.num <= 100 * s.den,
    ensures
        r@ == one_decimal(*s),
{
    let d = s.den as u128;
    let t = (20 * s.num + d) / (2 * d);
    assert(t <= 1001) by (nonlinear_arith)
        requires
            t == (20 * s.num + d) / (2 * d),
            s.num <= 100 * d,
            d > 0,
    ;
    let whole = decimal_text((t / 10) as usize);
    let mut out = whole;
    out.append(".");
    let last = decimal_text((t % 10) as usize);
    assert(decimal((t % 10) as nat) == seq![digit((t % 10) as nat)]);
    out.append(last.as_str());
    out
}

/// At most the first `k` characters of `s`.
pub open spec fn first_chars(s: Seq<char>, k: int) -> Seq<char> {
    if s.len() <= k {
        s
    } else {
        s.subrange(0, k)
    }
}

/// The name of the level, or "Not specified".
pub open spec fn level_text(l: Option<ExperienceLevel>) -> Seq<char> {
    match l {
        Some(v) => experience_name(v),
        None => "Not specified"@,
    }
}

/// The name of the track, or "Not specified".
pub open spec fn track_text(t: Option<CareerTrack>) -> Seq<char> {
    match t {
        Some(v) => track_name(v),
        None => "Not specified"@,
    }
}

/// The prompt that asks a text-generation service to explain a match.
pub open spec fn prompt_text(
    user: Seq<Seq<char>>,
    job: Seq<Seq<char>>,
    user_exp: Option<ExperienceLevel>,
    job_exp: ExperienceLevel,
    user_track: Option<CareerTrack>,
    title: Seq<char>,
    description: Seq<char>,
    score: Score,
) -> Seq<char> {
    "<s>[INST] You are a career advisor helping candidates understand job matches. Provide clear, actionable feedback.\n\nAnalyze the job match between a candidate and a job posting.\n\nCandidate Profile:\n- Skills: "@
        + join_with(user, ", "@) + "\n- Experience Level: "@ + level_text(user_exp)
        + "\n- Preferred Track: "@ + track_text(user_track) + "\n\nJob Requirements:\n- Title: "@
        + title + "\n- Required Skills: "@ + join_with(job, ", "@) + "\n- Experience Level: "@
        + experience_name(job_exp) + "\n- Description: "@ + first_chars(description, 200)
        + "\n\nMatch Score: "@ + one_decimal(score)
        + "%\n\nProvide a concise, professional explanation (2-3 sentences) explaining why this is a good match or what's missing. \nFocus on specific skills, experience alignment, and career track fit.\nFormat: Start with overall assessment, then mention key strengths, then areas for improvement. [/INST]"@
}

/// The first `k` characters of `s`, or all of them when it is shorter.
fn first_chars_text(s: &str, k: usize) -> (r: String)
    ensures
        r@ == first_chars(s@, k as int),
{
    let cs = to_chars(s);
    let m = if cs.len() <= k { cs.len() } else { k };
    let mut out: Vec<char> = Vec::new();
    let mut i: usize = 0;
    while i < m
        invariant
            cs@ == s@,
            m <= cs.len(),
            i <= m,
            out@ == s@.subrange(0, i as int),
        decreases m - i,
    {
        out.push(cs[i]);
        i = i + 1;
        assert(out@ =~= s@.subrange(0, i as int));
    }
    assert(s@.subrange(0, m as int) =~= first_chars(s@, k as int));
    string_from_chars(&out)
}

/// The prompt that asks a text-generation service to explain the match of a
/// candidate and a job.
pub fn explanation_prompt(
    user_skills: &Vec<String>,
    job_skills: &Vec<String>,
    user_experience: Option<ExperienceLevel>,
    job_experience: ExperienceLevel,
    user_track: Option<CareerTrack>,
    job_title: &str,
    job_description: &str,
    match_score: &Score,
) -> (r: String)
    requires
        match_score.wf(),
        match_score.num <= 100 * match_score.den,
    ensures
        r@ == prompt_text(
            user_skills.deep_view(),
            job_skills.deep_view(),
            user_experience,
            job_experience,
            user_track,
            job_title@,
            job_description@,
            *match_score,
        ),
{
    let user_list = join_first(user_skills, user_skills.len(), ", ");
    assert(user_skills.deep_view().subrange(0, user_skills.len() as int) =~= user_skills.deep_view());
    let job_list = join_first(job_skills, job_skills.len(), ", ");
    assert(job_skills.deep_view().subrange(0, job_skills.len() as int) =~= job_skills.deep_view());
    let level = match user_experience {
        Some(l) => l.name(),
        None => "Not specified",
    };
    let track = match user_track {
        Some(t) => t.name(),
        None => "Not specified",
    };
    let description = first_chars_text(job_description, 200);
    let score = one_decimal_text(match_score);
    let mut out = "<s>[INST] You are a career advisor helping candidates understand job matches. Provide clear, actionable feedback.\n\nAnalyze the job match between a candidate and a job posting.\n\nCandidate Profile:\n- Skills: ".to_owned();
    out.append(user_list.as_str());
    out.append("\n- Experience Level: ");
    out.append(level);
    out.append("\n- Preferred Track: ");
    out.append(track);
    out.append("\n\nJob Requirements:\n- Title: ");
    out.append(job_title);
    out.append("\n- Required Skills: ");
    out.append(job_list.as_str());
    out.append("\n- Experience Level: ");
    out.append(job_experience.name());
    out.append("\n- Description: ");
    out.append(description.as_str());
    out.append("\n\nMatch Score: ");
    out.append(score.as_str());
    out.append("%\n\nProvide a concise, professional explanation (2-3 sentences) explaining why this is a good match or what's missing. \nFocus on specific skills, experience alignment, and career track fit.\nFormat: Start with overall assessment, then mention key strengths, then areas for improvement. [/INST]");
    out
}

/// Generated text made presentable: trimmed, without instruction markers,
/// trimmed again.
pub open spec fn cleaned(t: Seq<char>) -> Seq<char> {
    trimmed(without(without(trimmed(t), "[INST]"@), "[/INST]"@))
}

/// Trims generated text, takes the instruction markers out of it and trims
/// it again.
pub fn clean_generated_text(text: &str) -> (r: String)
    ensures
        r@ == cleaned(text@),
{
    let t = trim_text(text);
    let a = remove_all(t.as_str(), "[INST]");
    let b = remove_all(a.as_str(), "[/INST]");
    trim_text(b.as_str())
}

/// The explanation shown for a match: the cleaned text of the service when
/// it answered, the heuristic explanation when it failed.
pub open spec fn chosen_explanation(
    reply: Result<String, String>,
    user: Seq<Seq<char>>,
    job: Seq<Seq<char>>,
    exp_points: int,
    track_points: int,
    score: Score,
) -> Seq<char> {
    match reply {
        Ok(t) => cleaned(t@),
        Err(_) => explanation_text(user, job, exp_points, track_points, score),
    }
}

/// When the remote service fails, the explanation is exactly the heuristic
/// one for the same inputs.
pub proof fn lemma_failure_falls_back(
    failure: String,
    user: Seq<Seq<char>>,
    job: Seq<Seq<char>>,
    exp_points: int,
    track_points: int,
    score: Score,
)
    ensures
        chosen_explanation(Err(failure), user, job, exp_points, track_points, score)
            == explanation_text(user, job, exp_points, track_points, score),
{
}

/// The explanation of a match given the outcome of the remote service: its
/// cleaned text on success, the heuristic explanation on any failure.
pub fn generate_ai_explanation(
    reply: Result<String, String>,
    user_skills: &Vec<String>,
    job_skills: &Vec<String>,
    user_experience: Option<ExperienceLevel>,
    job_experience: ExperienceLevel,
    user_track: Option<CareerTrack>,
    job_title: &str,
    match_score: Score,
    skill_overlap: Score,
    experience_alignment: u64,
    track_alignment: u64,
) -> (r: String)
    ensures
        r@ == chosen_explanation(
            reply,
            user_skills.deep_view(),
            job_skills.deep_view(),
            experience_alignment as int,
            track_alignment as int,
            match_score,
        ),
{
    match reply {
        Ok(text) => clean_generated_text(text.as_str()),
        Err(_) => {
            let (explanation, _strengths, _improvements) = generate_match_explanation(
                user_skills,
                job_skills,
                user_experience,
                job_experience,
                user_track,
                job_title,
                skill_overlap,
                experience_alignment,
                track_alignment,
                match_score,
            );
            explanation
        },
    }
}

} // verus!
