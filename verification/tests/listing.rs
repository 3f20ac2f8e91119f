use tend::job::listing::join_texts;
use tend::job::listing::JobListing;
use tend::job::Job;
use tend::job::JobAction;
use tend::job::JobEvent;
use tend::job::JobEventHook;
use tend::job::JobFilter;
use tend::job::JobRestartBehavior;
use tend::job::JobRestartStrategy;
use tend::job::Stream;

fn listed_job(name: &str, group: &str, args: &[&str], restart: JobRestartBehavior) -> Job {
    Job {
        name: name.to_string(),
        group: group.to_string(),
        program: "/usr/bin/serve".to_string(),
        args: args.iter().map(|arg| arg.to_string()).collect(),
        working_directory: "/srv/app".to_string(),
        restart,
        restart_strategy: JobRestartStrategy::ExponentialBackoff,
        event_hooks: vec![],
        template: None,
    }
}

fn listed_texts(texts: &[&str]) -> Vec<String> {
    texts.iter().map(|text| text.to_string()).collect()
}

fn listed_hook(contains: &str, action: JobAction) -> JobEventHook {
    JobEventHook {
        event: JobEvent::DetectSubstring { stream: Stream::Any, contains: contains.to_string() },
        action,
    }
}

#[test]
fn join_texts_puts_the_separator_between() {
    assert_eq!(join_texts(&listed_texts(&[]), " "), "");
    assert_eq!(join_texts(&listed_texts(&["one"]), " "), "one");
    assert_eq!(join_texts(&listed_texts(&["one", "two", "three"]), " "), "one two three");
    assert_eq!(join_texts(&listed_texts(&["", ""]), ", "), ", ");
}

#[test]
fn list_titles_name_the_columns() {
    assert_eq!(
        Job::list_titles(),
        listed_texts(&["Job", "Program", "Args", "Working Directory", "Restart", "Group"])
    );
}

#[test]
fn list_row_shows_the_descriptor() {
    let job = listed_job("web", "front", &["--port", "8080"], JobRestartBehavior::OnFailure);
    assert_eq!(
        job.list_row(),
        listed_texts(&["web", "/usr/bin/serve", "--port 8080", "/srv/app", "on failure", "front"])
    );
}

#[test]
fn list_shows_the_selected_jobs_in_order() {
    let jobs = vec![
        listed_job("web", "front", &[], JobRestartBehavior::Always),
        listed_job("db", "back", &["-v"], JobRestartBehavior::Never),
        listed_job("queue", "back", &[], JobRestartBehavior::OnSuccess),
    ];
    let filter = JobFilter::Subset {
        jobs: vec![],
        groups: listed_texts(&["back"]),
        exclude: vec![],
    };
    assert_eq!(
        Job::list(&jobs, &filter),
        JobListing::Table {
            titles: listed_texts(&["Job", "Program", "Args", "Working Directory", "Restart", "Group"]),
            rows: vec![
                listed_texts(&["db", "/usr/bin/serve", "-v", "/srv/app", "never", "back"]),
                listed_texts(&["queue", "/usr/bin/serve", "", "/srv/app", "on success", "back"]),
            ],
        }
    );
}

#[test]
fn list_of_no_selected_job_has_no_table() {
    let jobs = vec![listed_job("web", "front", &[], JobRestartBehavior::Always)];
    let filter = JobFilter::All { exclude: listed_texts(&["web"]) };
    assert_eq!(Job::list(&jobs, &filter), JobListing::NoJobs);
    assert_eq!(Job::list(&vec![], &JobFilter::All { exclude: vec![] }), JobListing::NoJobs);
}

#[test]
fn iterate_jobs_filtered_keeps_order_and_drops_the_rest() {
    let jobs = vec![
        listed_job("web", "front", &[], JobRestartBehavior::Always),
        listed_job("db", "back", &[], JobRestartBehavior::Always),
        listed_job("cache", "middle", &[], JobRestartBehavior::Always),
        listed_job("queue", "back", &[], JobRestartBehavior::Always),
    ];
    let filter = JobFilter::Subset {
        jobs: listed_texts(&["web"]),
        groups: listed_texts(&["back"]),
        exclude: listed_texts(&["db"]),
    };
    let chosen = Job::iterate_jobs_filtered(jobs, &filter);
    let names: Vec<&str> = chosen.iter().map(|job| job.name.as_str()).collect();
    assert_eq!(names, vec!["web", "queue"]);
}

#[test]
fn iterate_jobs_filtered_with_all_keeps_every_job() {
    let jobs = vec![
        listed_job("web", "front", &[], JobRestartBehavior::Always),
        listed_job("db", "back", &[], JobRestartBehavior::Always),
    ];
    let chosen = Job::iterate_jobs_filtered(jobs, &JobFilter::All { exclude: vec![] });
    assert_eq!(chosen.len(), 2);
    assert_eq!(chosen[0].name, "web");
    assert_eq!(chosen[1].name, "db");
}

#[test]
fn set_event_hook_appends_new_names_in_order() {
    let mut job = listed_job("web", "front", &[], JobRestartBehavior::Always);
    job.set_event_hook("first".to_string(), listed_hook("a", JobAction::Stop));
    job.set_event_hook("second".to_string(), listed_hook("b", JobAction::Restart));
    assert_eq!(
        job.event_hooks,
        vec![
            ("first".to_string(), listed_hook("a", JobAction::Stop)),
            ("second".to_string(), listed_hook("b", JobAction::Restart)),
        ]
    );
}

#[test]
fn set_event_hook_replaces_a_name_in_place() {
    let mut job = listed_job("web", "front", &[], JobRestartBehavior::Always);
    job.set_event_hook("first".to_string(), listed_hook("a", JobAction::Stop));
    job.set_event_hook("second".to_string(), listed_hook("b", JobAction::Restart));
    job.set_event_hook("first".to_string(), listed_hook("c", JobAction::Restart));
    assert_eq!(
        job.event_hooks,
        vec![
            ("first".to_string(), listed_hook("c", JobAction::Restart)),
            ("second".to_string(), listed_hook("b", JobAction::Restart)),
        ]
    );
    assert_eq!(job.name, "web");
    assert_eq!(job.group, "front");
}
