//! The jobs and what the page shows of them.
use std::collections::HashMap;

use vstd::prelude::*;

use crate::text::{opt_text, texts};

verus! {

/// The one job that the page launches.
pub const JOB_ID: usize = 0;

/// Where a job runs.
#[derive(Debug)]
pub enum Infra {
    /// A container on this machine.
    Local,
    /// A task of the DOK service: its id, and the address it serves once it is up.
    SakuraInternetDOK(String, Option<String>),
    /// A job of the computing service: its id and the service's address.
    RustClient(String, String),
}

/// The model of `Infra`.
pub enum InfraView {
    Local,
    SakuraInternetDOK(Seq<char>, Option<Seq<char>>),
    RustClient(Seq<char>, Seq<char>),
}

impl View for Infra {
    type V = InfraView;

    open spec fn view(&self) -> InfraView {
        match *self {
            Infra::Local => InfraView::Local,
            Infra::SakuraInternetDOK(id, uri) => InfraView::SakuraInternetDOK(id@, opt_text(uri)),
            Infra::RustClient(id, url) => InfraView::RustClient(id@, url@),
        }
    }
}

/// A launched job.
#[derive(Debug)]
pub struct Job {
    pub id: usize,
    pub infra: Infra,
}

/// The model of `Job`.
pub struct JobView {
    pub id: usize,
    pub infra: InfraView,
}

impl View for Job {
    type V = JobView;

    open spec fn view(&self) -> JobView {
        JobView { id: self.id, infra: self.infra@ }
    }
}

/// The jobs by id, the log of each, and the one line shown below the log while
/// something is under way.
#[derive(Debug)]
pub struct Manager {
    pub jobs: HashMap<usize, Job>,
    pub logs: HashMap<usize, Vec<String>>,
    pub logs_tmp: HashMap<usize, String>,
    pub local_infra_cancel_job: bool,
}

/// The model of `Manager`.
#[verifier::ext_equal]
pub struct ManagerView {
    pub jobs: Map<usize, JobView>,
    pub logs: Map<usize, Seq<Seq<char>>>,
    pub logs_tmp: Map<usize, Seq<char>>,
    pub local_infra_cancel_job: bool,
}

impl View for Manager {
    type V = ManagerView;

    open spec fn view(&self) -> ManagerView {
        ManagerView {
            jobs: self.jobs@.map_values(|j: Job| j@),
            logs: self.logs@.map_values(|l: Vec<String>| texts(l@)),
            logs_tmp: self.logs_tmp@.map_values(|s: String| s@),
            local_infra_cancel_job: self.local_infra_cancel_job,
        }
    }
}

impl ManagerView {
    /// The log of job `id`: empty before its first line.
    pub open spec fn log(self, id: usize) -> Seq<Seq<char>> {
        if self.logs.contains_key(id) {
            self.logs[id]
        } else {
            Seq::empty()
        }
    }

    /// With one more line at the end of the log of job `id`.
    pub open spec fn add_log(self, id: usize, line: Seq<char>) -> ManagerView {
        ManagerView { logs: self.logs.insert(id, self.log(id).push(line)), ..self }
    }

    /// With `line` as the temporary line of job `id`.
    pub open spec fn add_log_tmp(self, id: usize, line: Seq<char>) -> ManagerView {
        ManagerView { logs_tmp: self.logs_tmp.insert(id, line), ..self }
    }

    /// Without a temporary line of job `id`.
    pub open spec fn clear_log_tmp(self, id: usize) -> ManagerView {
        ManagerView { logs_tmp: self.logs_tmp.remove(id), ..self }
    }

    /// With `job` under its id.
    pub open spec fn insert_job(self, job: JobView) -> ManagerView {
        ManagerView { jobs: self.jobs.insert(job.id, job), ..self }
    }

    /// With job `id`, where there is one, running on `infra`.
    pub open spec fn set_infra(self, id: usize, infra: InfraView) -> ManagerView {
        if self.jobs.contains_key(id) {
            ManagerView {
                jobs: self.jobs.insert(id, (JobView { infra, ..self.jobs[id] })),
                ..self
            }
        } else {
            self
        }
    }

    /// Whether `later` differs from this in nothing but what belongs to job `id` and
    /// the wish to cancel.
    pub open spec fn same_but_for(self, id: usize, later: ManagerView) -> bool {
        &&& self.jobs.remove(id) == later.jobs.remove(id)
        &&& self.logs.remove(id) == later.logs.remove(id)
        &&& self.logs_tmp.remove(id) == later.logs_tmp.remove(id)
    }

    /// What the page shows of job `id`: its log, then its temporary line.
    pub open spec fn shown(self, id: usize) -> Seq<Seq<char>> {
        if self.logs_tmp.contains_key(id) {
            self.log(id).push(self.logs_tmp[id])
        } else {
            self.log(id)
        }
    }
}

impl Manager {
    /// No jobs and no logs.
    pub fn new() -> (r: Manager)
        ensures
            r@ == (ManagerView {
                jobs: Map::empty(),
                logs: Map::empty(),
                logs_tmp: Map::empty(),
                local_infra_cancel_job: false,
            }),
    {
        broadcast use vstd::std_specs::hash::group_hash_axioms;

        Manager {
            jobs: HashMap::new(),
            logs: HashMap::new(),
            logs_tmp: HashMap::new(),
            local_infra_cancel_job: false,
        }
    }

    /// Whether there is a job `id`.
    pub fn has_job(&self, id: usize) -> (r: bool)
        ensures
            r == self@.jobs.contains_key(id),
    {
        broadcast use vstd::std_specs::hash::group_hash_axioms;

        self.jobs.contains_key(&id)
    }

    /// Adds a line to the log of job `id`.
    pub fn add_log(&mut self, id: usize, line: String)
        ensures
            final(self)@ == old(self)@.add_log(id, line@),
    {
        broadcast use vstd::std_specs::hash::group_hash_axioms;

        let ghost before = self@;
        let mut log: Vec<String> = match self.logs.remove(&id) {
            Some(log) => log,
            None => Vec::new(),
        };
        let ghost lines = log@;
        assert(texts(lines) =~= before.log(id));
        log.push(line);
        assert(texts(log@) =~= texts(lines).push(line@));
        self.logs.insert(id, log);
        assert(self@ =~= before.add_log(id, line@));
    }

    /// Shows `line` below the log of job `id`, in place of what stood there.
    pub fn add_log_tmp(&mut self, id: usize, line: String)
        ensures
            final(self)@ == old(self)@.add_log_tmp(id, line@),
    {
        broadcast use vstd::std_specs::hash::group_hash_axioms;

        let ghost before = self@;
        self.logs_tmp.insert(id, line);
        assert(self@ =~= before.add_log_tmp(id, line@));
    }

    /// Takes the line below the log of job `id` away.
    pub fn clear_log_tmp(&mut self, id: &usize)
        ensures
            final(self)@ == old(self)@.clear_log_tmp(*id),
    {
        broadcast use vstd::std_specs::hash::group_hash_axioms;

        let ghost before = self@;
        let _ = self.logs_tmp.remove(id);
        assert(self@ =~= before.clear_log_tmp(*id));
    }

    /// Puts `job` under its id.
    pub fn insert_job(&mut self, job: Job)
        ensures
            final(self)@ == old(self)@.insert_job(job@),
    {
        broadcast use vstd::std_specs::hash::group_hash_axioms;

        let ghost before = self@;
        let _ = self.jobs.insert(job.id, job);
        assert(self@ =~= before.insert_job(job@));
    }

    /// Sets where job `id` runs, where there is such a job.
    pub fn set_infra(&mut self, id: usize, infra: Infra)
        ensures
            final(self)@ == old(self)@.set_infra(id, infra@),
    {
        broadcast use vstd::std_specs::hash::group_hash_axioms;

        let ghost before = self@;
        match self.jobs.remove(&id) {
            Some(job) => {
                let job = Job { infra, ..job };
                let _ = self.jobs.insert(id, job);
            },
            None => {},
        }
        assert(self@ =~= before.set_infra(id, infra@));
    }
}

} // verus!
