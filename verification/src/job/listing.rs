//! The choice of jobs among those stored, and the table that lists them.

use vstd::prelude::*;
use vstd::string::StringExecFns;

use super::behaviour_label;
use super::Job;
use super::JobFilter;

verus! {

/// The jobs chosen for a listing, as the rows of a table under its titles.
#[derive(Debug, Clone, PartialEq, Eq)]
pub enum JobListing {
    /// No job was chosen: there is no table to show.
    NoJobs,
    /// One row for each job chosen, in the order of the jobs, each with one
    /// text for each title.
    Table { titles: Vec<String>, rows: Vec<Vec<String>> },
}

/// Those of `jobs` that `filter` selects, in their order.
pub open spec fn selected(jobs: Seq<Job>, filter: JobFilter) -> Seq<Job> {
    jobs.filter(|job: Job| filter.selects(job.name@, job.group@))
}

/// The texts of `parts` in a row, with `separator` between each two.
pub open spec fn joined(parts: Seq<String>, separator: Seq<char>) -> Seq<char>
    decreases parts.len(),
{
    if parts.len() == 0 {
        Seq::empty()
    } else if parts.len() == 1 {
        parts[0]@
    } else {
        joined(parts.drop_last(), separator) + separator + parts.last()@
    }
}

/// The titles of the columns of a listing.
pub open spec fn list_titles() -> Seq<Seq<char>> {
    seq!["Job"@, "Program"@, "Args"@, "Working Directory"@, "Restart"@, "Group"@]
}

/// The row that lists `job`: its name, its program, its arguments with a
/// space between each two, its working directory, its restart behaviour in
/// words and its group.
pub open spec fn list_row(job: Job) -> Seq<Seq<char>> {
    seq![
        job.name@,
        job.program@,
        joined(job.args@, " "@),
        job.working_directory@,
        behaviour_label(job.restart),
        job.group@,
    ]
}

/// The rows that list `jobs`, one for each.
pub open spec fn list_rows(jobs: Seq<Job>) -> Seq<Seq<Seq<char>>> {
    jobs.map_values(|job: Job| list_row(job))
}

/// One more job is looked at: it is chosen or not, and the choice among the
/// jobs before it stays.
proof fn lemma_selected_next(jobs: Seq<Job>, filter: JobFilter, upto: int)
    requires
        0 <= upto < jobs.len(),
    ensures
        selected(jobs.take(upto + 1), filter) == if filter.selects(
            jobs[upto].name@,
            jobs[upto].group@,
        ) {
            selected(jobs.take(upto), filter).push(jobs[upto])
        } else {
            selected(jobs.take(upto), filter)
        },
{
    reveal(Seq::filter);
    assert(jobs.take(upto + 1).drop_last() =~= jobs.take(upto));
}

/// Writes the texts of `parts` in a row, with `separator` between each two.
pub fn join_texts(parts: &Vec<String>, separator: &str) -> (text: String)
    ensures
        text@ == joined(parts@, separator@),
{
    let mut text = String::new();
    let mut i: usize = 0;
    while i < parts.len()
        invariant
            i <= parts.len(),
            text@ == joined(parts@.take(i as int), separator@),
        decreases parts.len() - i,
    {
        proof {
            assert(parts@.take(i + 1).drop_last() =~= parts@.take(i as int));
        }
        if i > 0 {
            text.append(separator);
        }
        text.append(parts[i].as_str());
        i += 1;
    }
    assert(parts@.take(parts@.len() as int) =~= parts@);
    text
}

impl Job {
    /// The titles of the columns of a listing.
    pub fn list_titles() -> (titles: Vec<String>)
        ensures
            titles.deep_view() == list_titles(),
    {
        let mut titles: Vec<String> = Vec::new();
        titles.push(String::from_str("Job"));
        titles.push(String::from_str("Program"));
        titles.push(String::from_str("Args"));
        titles.push(String::from_str("Working Directory"));
        titles.push(String::from_str("Restart"));
        titles.push(String::from_str("Group"));
        titles
    }

    /// The row that lists the job.
    pub fn list_row(&self) -> (row: Vec<String>)
        ensures
            row.deep_view() == list_row(*self),
    {
        let mut row: Vec<String> = Vec::new();
        row.push(String::from_str(self.name.as_str()));
        row.push(String::from_str(self.program.as_str()));
        row.push(join_texts(&self.args, " "));
        row.push(String::from_str(self.working_directory.as_str()));
        row.push(String::from_str(self.restart_behaviour()));
        row.push(String::from_str(self.group.as_str()));
        row
    }

    /// Hands out those of `jobs` that `filter` selects, in their order.
    pub fn iterate_jobs_filtered(jobs: Vec<Job>, filter: &JobFilter) -> (chosen: Vec<Job>)
        ensures
            chosen@ == selected(jobs@, *filter),
    {
        let ghost all = jobs@;
        let mut chosen: Vec<Job> = Vec::new();
        for job in it: jobs
            invariant
                it.seq() == all,
                chosen@ == selected(all.take(it.index() as int), *filter),
        {
            proof {
                lemma_selected_next(all, *filter, it.index() as int);
            }
            if filter.matches(&job) {
                chosen.push(job);
            }
        }
        assert(all.take(all.len() as int) =~= all);
        chosen
    }

    /// Lists those of `jobs` that `job_filter` selects.
    pub fn list(jobs: &Vec<Job>, job_filter: &JobFilter) -> (listing: JobListing)
        ensures
            listing is NoJobs <==> selected(jobs@, *job_filter).len() == 0,
            listing matches JobListing::Table { titles, rows } ==> {
                &&& titles.deep_view() == list_titles()
                &&& rows.deep_view() == list_rows(selected(jobs@, *job_filter))
            },
    {
        let mut rows: Vec<Vec<String>> = Vec::new();
        let mut i: usize = 0;
        while i < jobs.len()
            invariant
                i <= jobs.len(),
                rows.deep_view() == list_rows(selected(jobs@.take(i as int), *job_filter)),
            decreases jobs.len() - i,
        {
            proof {
                lemma_selected_next(jobs@, *job_filter, i as int);
            }
            if job_filter.matches(&jobs[i]) {
                let ghost before = rows.deep_view();
                let row = jobs[i].list_row();
                rows.push(row);
                assert(list_rows(selected(jobs@.take(i + 1), *job_filter)) =~= before.push(
                    list_row(jobs@[i as int]),
                ));
            }
            i += 1;
        }
        assert(jobs@.take(jobs@.len() as int) =~= jobs@);
        if rows.len() == 0 {
            JobListing::NoJobs
        } else {
            JobListing::Table { titles: Job::list_titles(), rows }
        }
    }
}

} // verus!
