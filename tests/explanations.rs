use careerbridge::explanation::generate_match_explanation;
use careerbridge::models::{CareerTrack, ExperienceLevel};
use careerbridge::remote::{clean_generated_text, explanation_prompt, generate_ai_explanation, one_decimal_text};
use careerbridge::score::Score;

fn skills(names: &[&str]) -> Vec<String> {
    names.iter().map(|s| s.to_string()).collect()
}

fn explain(score: Score, exp: u64, track: u64) -> (String, Vec<String>, Vec<String>) {
    generate_match_explanation(
        &skills(&["python", "docker"]),
        &skills(&["Python", "React", "Docker", "Go", "Rust", "C", "SQL"]),
        Some(ExperienceLevel::Fresher),
        ExperienceLevel::Mid,
        Some(CareerTrack::WebDevelopment),
        "Backend Developer",
        Score { num: 200, den: 7 },
        exp,
        track,
        score,
    )
}

#[test]
fn heuristic_explanation_is_deterministic() {
    let a = explain(Score { num: 50, den: 1 }, 60, 100);
    let b = explain(Score { num: 50, den: 1 }, 60, 100);
    assert_eq!(a, b);
    assert_eq!(
        a.0,
        "Moderate match You have 2 of 7 required skills (Python, Docker). Consider learning: React, Go, Rust. The position aligns with your career interests"
    );
}

#[test]
fn explanation_verdicts_and_gaps() {
    let (text, strengths, improvements) = explain(Score { num: 30, den: 1 }, 40, 50);
    assert!(text.starts_with("Limited match "));
    assert_eq!(strengths, skills(&["Strong skills match: Python, Docker"]));
    assert_eq!(
        improvements,
        skills(&["Learn: React, Go, Rust", "This role requires mid experience, but you have fresher"])
    );
    assert!(explain(Score { num: 60, den: 1 }, 60, 50).0.starts_with("Good match "));
    assert!(explain(Score { num: 80, den: 1 }, 60, 50).0.starts_with("Excellent match! "));
    assert!(explain(Score { num: 399, den: 10 }, 60, 50).0.starts_with("Limited match "));
}

#[test]
fn unknown_level_in_explanation() {
    let (_, strengths, improvements) = generate_match_explanation(
        &skills(&[]),
        &skills(&[]),
        None,
        ExperienceLevel::Junior,
        None,
        "Clerk",
        Score { num: 100, den: 1 },
        50,
        50,
        Score { num: 70, den: 1 },
    );
    assert!(strengths.is_empty());
    assert_eq!(improvements, skills(&["This role requires junior experience, but you have different"]));
}

#[test]
fn remote_failure_falls_back_to_heuristic() {
    let user = skills(&["Python", "SQL"]);
    let job = skills(&["Python", "SQL", "Docker"]);
    let score = Score { num: 240, den: 3 };
    let overlap = Score { num: 200, den: 3 };
    let heuristic = generate_match_explanation(
        &user,
        &job,
        Some(ExperienceLevel::Junior),
        ExperienceLevel::Junior,
        Some(CareerTrack::Data),
        "Data Analyst",
        overlap,
        100,
        100,
        score,
    );
    let fallback = generate_ai_explanation(
        Err("Failed to call Hugging Face API: connection refused".to_string()),
        &user,
        &job,
        Some(ExperienceLevel::Junior),
        ExperienceLevel::Junior,
        Some(CareerTrack::Data),
        "Data Analyst",
        score,
        overlap,
        100,
        100,
    );
    assert_eq!(fallback, heuristic.0);
    let remote = generate_ai_explanation(
        Ok("  [INST] A strong fit. [/INST] ".to_string()),
        &user,
        &job,
        Some(ExperienceLevel::Junior),
        ExperienceLevel::Junior,
        Some(CareerTrack::Data),
        "Data Analyst",
        score,
        overlap,
        100,
        100,
    );
    assert_eq!(remote, "A strong fit.");
}

#[test]
fn generated_text_is_cleaned() {
    assert_eq!(clean_generated_text("\n  Good match overall.\t"), "Good match overall.");
    assert_eq!(clean_generated_text("[INST]x[/INST]y[INST]"), "xy");
    assert_eq!(clean_generated_text("   "), "");
    assert_eq!(clean_generated_text("[[INST]INST]"), "[INST]");
}

#[test]
fn score_with_one_decimal() {
    assert_eq!(one_decimal_text(&Score { num: 200, den: 3 }), "66.7");
    assert_eq!(one_decimal_text(&Score { num: 240, den: 3 }), "80.0");
    assert_eq!(one_decimal_text(&Score { num: 100, den: 1 }), "100.0");
    assert_eq!(one_decimal_text(&Score { num: 1, den: 20 }), "0.1");
}

#[test]
fn prompt_holds_the_match_context() {
    let description = "x".repeat(250);
    let p = explanation_prompt(
        &skills(&["Python", "SQL"]),
        &skills(&["Python", "SQL", "Docker"]),
        None,
        ExperienceLevel::Junior,
        Some(CareerTrack::Data),
        "Data Analyst",
        &description,
        &Score { num: 240, den: 3 },
    );
    assert!(p.starts_with("<s>[INST] You are a career advisor"));
    assert!(p.contains("- Skills: Python, SQL\n- Experience Level: Not specified\n- Preferred Track: data\n"));
    assert!(p.contains("- Title: Data Analyst\n- Required Skills: Python, SQL, Docker\n- Experience Level: junior\n"));
    assert!(p.contains(&format!("- Description: {}\n\nMatch Score: 80.0%\n", "x".repeat(200))));
    assert!(p.ends_with("areas for improvement. [/INST]"));
}
