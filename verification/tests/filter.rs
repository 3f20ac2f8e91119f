use tend::job::filter::Filter;
use tend::job::ConfigError;
use tend::job::Job;
use tend::job::JobFilter;
use tend::job::JobRestartBehavior;
use tend::job::JobRestartStrategy;

fn filter_job(name: &str, group: &str) -> Job {
    Job {
        name: name.to_string(),
        group: group.to_string(),
        program: "run".to_string(),
        args: vec![],
        working_directory: "/".to_string(),
        restart: JobRestartBehavior::Never,
        restart_strategy: JobRestartStrategy::Immediate,
        event_hooks: vec![],
        template: None,
    }
}

fn filter_names(names: &[&str]) -> Vec<String> {
    names.iter().map(|name| name.to_string()).collect()
}

#[test]
fn job_filter_all_selects_what_is_not_excluded() {
    let filter = JobFilter::All { exclude: filter_names(&["db"]) };
    assert!(filter.matches(&filter_job("web", "front")));
    assert!(!filter.matches(&filter_job("db", "back")));
}

#[test]
fn job_filter_all_without_exclusions_selects_every_job() {
    let filter = JobFilter::All { exclude: vec![] };
    assert!(filter.matches(&filter_job("web", "front")));
    assert!(filter.matches(&filter_job("", "")));
}

#[test]
fn job_filter_subset_selects_by_name_or_group() {
    let filter = JobFilter::Subset {
        jobs: filter_names(&["web"]),
        groups: filter_names(&["back"]),
        exclude: vec![],
    };
    assert!(filter.matches(&filter_job("web", "front")));
    assert!(filter.matches(&filter_job("db", "back")));
    assert!(!filter.matches(&filter_job("cache", "middle")));
}

#[test]
fn job_filter_subset_exclusion_wins() {
    let filter = JobFilter::Subset {
        jobs: filter_names(&["web"]),
        groups: filter_names(&["back"]),
        exclude: filter_names(&["web", "db"]),
    };
    assert!(!filter.matches(&filter_job("web", "front")));
    assert!(!filter.matches(&filter_job("db", "back")));
    assert!(filter.matches(&filter_job("queue", "back")));
}

#[test]
fn job_filter_empty_subset_selects_nothing() {
    let filter = JobFilter::Subset { jobs: vec![], groups: vec![], exclude: vec![] };
    assert!(!filter.matches(&filter_job("web", "front")));
}

#[test]
fn job_filter_does_not_mix_names_and_groups() {
    let filter = JobFilter::Subset {
        jobs: filter_names(&["front"]),
        groups: filter_names(&["web"]),
        exclude: vec![],
    };
    assert!(!filter.matches(&filter_job("web", "front")));
    assert!(filter.matches(&filter_job("front", "other")));
    assert!(filter.matches(&filter_job("other", "web")));
}

#[test]
fn job_filter_compares_whole_names() {
    let filter = JobFilter::All { exclude: filter_names(&["web"]) };
    assert!(filter.matches(&filter_job("web2", "front")));
    assert!(filter.matches(&filter_job("we", "front")));
    assert!(filter.matches(&filter_job("Web", "front")));
}

#[test]
fn filter_matches_like_job_filter() {
    let filter = Filter::Subset {
        jobs: filter_names(&["web"]),
        groups: filter_names(&["back"]),
        exclude: filter_names(&["db"]),
    };
    assert!(filter.matches(&filter_job("web", "front")));
    assert!(filter.matches(&filter_job("queue", "back")));
    assert!(!filter.matches(&filter_job("db", "back")));
    assert!(!filter.matches(&filter_job("cache", "middle")));
    let all = Filter::All { exclude: filter_names(&["db"]) };
    assert!(all.matches(&filter_job("web", "front")));
    assert!(!all.matches(&filter_job("db", "back")));
}

#[test]
fn filter_matches_name_without_groups() {
    let filter = Filter::Subset {
        jobs: filter_names(&["web", "db"]),
        groups: filter_names(&["back"]),
        exclude: filter_names(&["db"]),
    };
    assert!(filter.matches_name("web"));
    assert!(!filter.matches_name("db"));
    assert!(!filter.matches_name("back"));
    assert!(!filter.matches_name("queue"));
}

#[test]
fn filter_all_matches_name_unless_excluded() {
    let filter = Filter::All { exclude: filter_names(&["db"]) };
    assert!(filter.matches_name("web"));
    assert!(filter.matches_name(""));
    assert!(!filter.matches_name("db"));
}

#[test]
fn selection_without_group_or_job_is_all() {
    match JobFilter::from_selection(None, None) {
        Ok(JobFilter::All { exclude }) => assert!(exclude.is_empty()),
        _ => panic!("expected all jobs"),
    }
}

#[test]
fn selection_by_group() {
    match JobFilter::from_selection(Some("back".to_string()), None) {
        Ok(JobFilter::Subset { jobs, groups, exclude }) => {
            assert!(jobs.is_empty());
            assert_eq!(groups, vec!["back".to_string()]);
            assert!(exclude.is_empty());
        },
        _ => panic!("expected a subset"),
    }
}

#[test]
fn selection_by_job() {
    match JobFilter::from_selection(None, Some("web".to_string())) {
        Ok(JobFilter::Subset { jobs, groups, exclude }) => {
            assert_eq!(jobs, vec!["web".to_string()]);
            assert!(groups.is_empty());
            assert!(exclude.is_empty());
        },
        _ => panic!("expected a subset"),
    }
}

#[test]
fn selection_by_group_and_job_is_refused() {
    let both = JobFilter::from_selection(Some("back".to_string()), Some("web".to_string()));
    assert!(matches!(both, Err(ConfigError::GroupWithJob)));
}
