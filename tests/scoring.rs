use careerbridge::matching::{
    calculate_enhanced_match, calculate_experience_alignment, calculate_skill_overlap,
    calculate_track_alignment, folded_track_alignment,
};
use careerbridge::models::{CareerTrack, ExperienceLevel};
use careerbridge::score::Score;

fn skills(names: &[&str]) -> Vec<String> {
    names.iter().map(|s| s.to_string()).collect()
}

fn value(s: &Score) -> f64 {
    s.num as f64 / s.den as f64
}

#[test]
fn overlap_is_full_without_requirements() {
    let r = calculate_skill_overlap(&skills(&["Python"]), &skills(&[]));
    assert_eq!(r, Score { num: 100, den: 1 });
    let r = calculate_skill_overlap(&skills(&[]), &skills(&[]));
    assert_eq!(value(&r), 100.0);
}

#[test]
fn overlap_grows_with_shared_skills() {
    let job = skills(&["Python", "SQL", "Docker"]);
    let none = calculate_skill_overlap(&skills(&["Rust", "Go"]), &job);
    let one = calculate_skill_overlap(&skills(&["Python", "Go"]), &job);
    let two = calculate_skill_overlap(&skills(&["Python", "SQL"]), &job);
    assert_eq!(value(&none), 0.0);
    assert!(value(&none) <= value(&one));
    assert!(value(&one) <= value(&two));
    assert!((value(&two) - 200.0 / 3.0).abs() < 1e-9);
}

#[test]
fn overlap_stays_within_bounds() {
    let job = skills(&["Python", "SQL"]);
    let many = calculate_skill_overlap(&skills(&["Python", "SQL", "Go", "Rust", "C"]), &job);
    assert_eq!(value(&many), 100.0);
    let bonus = calculate_skill_overlap(&skills(&["Python", "Go", "Rust", "C"]), &job);
    assert_eq!(bonus, Score { num: 120, den: 2 });
    assert_eq!(value(&bonus), 60.0);
    let capped_bonus = calculate_skill_overlap(&skills(&["Go", "Rust", "C", "D", "E", "F", "G"]), &skills(&["Python"]));
    assert_eq!(value(&capped_bonus), 10.0);
}

#[test]
fn overlap_ignores_case() {
    let a = calculate_skill_overlap(&skills(&["Python"]), &skills(&["python"]));
    let b = calculate_skill_overlap(&skills(&["PYTHON"]), &skills(&["Python"]));
    assert_eq!(value(&a), 100.0);
    assert_eq!(value(&b), 100.0);
    assert_eq!(value(&a), value(&b));
}

#[test]
fn overlap_counts_duplicate_requirements_once() {
    let r = calculate_skill_overlap(&skills(&["python"]), &skills(&["Python", "PYTHON"]));
    assert_eq!(r, Score { num: 100, den: 2 });
}

#[test]
fn experience_alignment_is_not_symmetric() {
    assert_eq!(calculate_experience_alignment(Some(ExperienceLevel::Fresher), ExperienceLevel::Junior), 80);
    assert_eq!(calculate_experience_alignment(Some(ExperienceLevel::Junior), ExperienceLevel::Fresher), 70);
    assert_eq!(calculate_experience_alignment(Some(ExperienceLevel::Junior), ExperienceLevel::Mid), 80);
    assert_eq!(calculate_experience_alignment(Some(ExperienceLevel::Fresher), ExperienceLevel::Mid), 60);
    assert_eq!(calculate_experience_alignment(Some(ExperienceLevel::Mid), ExperienceLevel::Junior), 70);
    assert_eq!(calculate_experience_alignment(Some(ExperienceLevel::Mid), ExperienceLevel::Fresher), 40);
    assert_eq!(calculate_experience_alignment(Some(ExperienceLevel::Mid), ExperienceLevel::Mid), 100);
    assert_eq!(calculate_experience_alignment(Some(ExperienceLevel::Fresher), ExperienceLevel::Fresher), 100);
    assert_eq!(calculate_experience_alignment(Some(ExperienceLevel::Junior), ExperienceLevel::Junior), 100);
}

#[test]
fn unknown_experience_or_track_is_neutral() {
    assert_eq!(calculate_experience_alignment(None, ExperienceLevel::Fresher), 50);
    assert_eq!(calculate_experience_alignment(None, ExperienceLevel::Mid), 50);
    assert_eq!(calculate_track_alignment(None, "Data Analyst"), 50);
    assert_eq!(calculate_track_alignment(None, ""), 50);
}

#[test]
fn track_alignment_reads_title_keywords() {
    assert_eq!(calculate_track_alignment(Some(CareerTrack::Data), "Data Analyst"), 100);
    assert_eq!(calculate_track_alignment(Some(CareerTrack::WebDevelopment), "Senior FRONTEND Engineer"), 100);
    assert_eq!(calculate_track_alignment(Some(CareerTrack::WebDevelopment), "Full Stack Developer"), 100);
    assert_eq!(calculate_track_alignment(Some(CareerTrack::Design), "UX Researcher"), 100);
    assert_eq!(calculate_track_alignment(Some(CareerTrack::Marketing), "SEO Specialist"), 100);
    assert_eq!(calculate_track_alignment(Some(CareerTrack::Marketing), "Accountant"), 50);
    assert_eq!(calculate_track_alignment(Some(CareerTrack::Design), "Data Analyst"), 50);
}

#[test]
fn match_score_weights_sub_scores() {
    let r = calculate_enhanced_match(
        &skills(&["Python", "SQL"]),
        &skills(&["Python", "SQL", "Docker"]),
        Some(ExperienceLevel::Junior),
        ExperienceLevel::Junior,
        Some(CareerTrack::Data),
        "Data Analyst",
    );
    assert!((value(&r.skill_overlap) - 66.666_666_666).abs() < 1e-6);
    assert_eq!(r.experience_alignment, 100);
    assert_eq!(r.track_alignment, 100);
    assert!((value(&r.match_score) - 80.0).abs() < 1e-9);
    let expected = 0.6 * value(&r.skill_overlap) + 0.2 * 100.0 + 0.2 * 100.0;
    assert!((value(&r.match_score) - expected).abs() < 1e-9);
    assert_eq!(
        r.match_explanation,
        "Excellent match! You have 2 of 3 required skills (Python, SQL). Consider learning: Docker. Your experience level is a good fit for this role. The position aligns with your career interests"
    );
    assert_eq!(
        r.strengths,
        skills(&[
            "Strong skills match: Python, SQL",
            "Experience level (junior) aligns well with this position",
            "This role matches your preferred career track",
        ])
    );
    assert_eq!(r.improvement_areas, skills(&["Learn: Docker"]));
}

#[test]
fn match_with_nothing_known() {
    let r = calculate_enhanced_match(&skills(&[]), &skills(&["Go"]), None, ExperienceLevel::Mid, None, "Go Developer");
    assert_eq!(value(&r.match_score), 20.0);
    assert_eq!(r.match_explanation, "Limited match Consider learning: Go");
    assert!(r.strengths.is_empty());
    assert_eq!(
        r.improvement_areas,
        skills(&["Learn: Go", "This role requires mid experience, but you have different"])
    );
}

#[test]
fn score_comparison() {
    let a = Score { num: 200, den: 3 };
    let b = Score { num: 67, den: 1 };
    assert!(a.is_below(&b));
    assert!(!b.is_below(&a));
    assert!(!a.is_below(&Score { num: 400, den: 6 }));
    assert!(a.reaches(66));
    assert!(!a.reaches(67));
    assert_eq!(Score::whole(7), Score { num: 7, den: 1 });
}

#[test]
fn folded_titles_are_matched_as_given() {
    assert_eq!(folded_track_alignment(Some(CareerTrack::Data), "data analyst"), 100);
    assert_eq!(folded_track_alignment(Some(CareerTrack::Data), "DATA ANALYST"), 50);
    assert_eq!(folded_track_alignment(None, "data analyst"), 50);
}
