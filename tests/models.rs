use careerbridge::models::{CareerTrack, CostIndicator, ExperienceLevel, JobType};

#[test]
fn experience_levels_parse_in_any_case() {
    assert_eq!("Junior".parse::<ExperienceLevel>(), Ok(ExperienceLevel::Junior));
    assert_eq!("FRESHER".parse::<ExperienceLevel>(), Ok(ExperienceLevel::Fresher));
    assert_eq!(ExperienceLevel::parse("mid"), Ok(ExperienceLevel::Mid));
    assert_eq!(
        "senior".parse::<ExperienceLevel>(),
        Err("Unknown experience level: senior".to_string())
    );
    assert_eq!(ExperienceLevel::Mid.name(), "mid");
}

#[test]
fn career_tracks_parse_with_separators() {
    assert_eq!("Web Development".parse::<CareerTrack>(), Ok(CareerTrack::WebDevelopment));
    assert_eq!("web-development".parse::<CareerTrack>(), Ok(CareerTrack::WebDevelopment));
    assert_eq!("WebDevelopment".parse::<CareerTrack>(), Ok(CareerTrack::WebDevelopment));
    assert_eq!("DATA".parse::<CareerTrack>(), Ok(CareerTrack::Data));
    assert_eq!("design".parse::<CareerTrack>(), Ok(CareerTrack::Design));
    assert_eq!("Marketing".parse::<CareerTrack>(), Ok(CareerTrack::Marketing));
    assert_eq!("Sales".parse::<CareerTrack>(), Err("Unknown career track: Sales".to_string()));
    assert_eq!(CareerTrack::WebDevelopment.name(), "web_development");
}

#[test]
fn job_types_parse_with_separators() {
    assert_eq!("Part Time".parse::<JobType>(), Ok(JobType::PartTime));
    assert_eq!("full-time".parse::<JobType>(), Ok(JobType::FullTime));
    assert_eq!("parttime".parse::<JobType>(), Ok(JobType::PartTime));
    assert_eq!("Internship".parse::<JobType>(), Ok(JobType::Internship));
    assert_eq!("freelance".parse::<JobType>(), Ok(JobType::Freelance));
    assert_eq!("Gig".parse::<JobType>(), Err("Unknown job type: Gig".to_string()));
}

#[test]
fn cost_indicators_parse_in_any_case() {
    assert_eq!("PAID".parse::<CostIndicator>(), Ok(CostIndicator::Paid));
    assert_eq!("free".parse::<CostIndicator>(), Ok(CostIndicator::Free));
    assert_eq!("cheap".parse::<CostIndicator>(), Err("Unknown cost indicator: cheap".to_string()));
}

#[test]
fn enum_keys_are_read_as_given() {
    assert_eq!(ExperienceLevel::from_key(&"junior".to_string()), Some(ExperienceLevel::Junior));
    assert_eq!(ExperienceLevel::from_key(&"Junior".to_string()), None);
    assert_eq!(CareerTrack::from_key(&"web development".to_string()), Some(CareerTrack::WebDevelopment));
    assert_eq!(CareerTrack::from_key(&"Data".to_string()), None);
    assert_eq!(JobType::from_key(&"full-time".to_string()), Some(JobType::FullTime));
    assert_eq!(CostIndicator::from_key(&"free".to_string()), Some(CostIndicator::Free));
    assert_eq!(CostIndicator::from_key(&"FREE".to_string()), None);
}
