//! The commands of the client that work on the profile store and on the
//! service's replies.
use vstd::prelude::*;
use crate::api::{same_credentials, LxpApi};
use crate::config::{
    first_name, has_name, index_of, lines_view, overview_lines, ConfigError,
    LxpConfig, Profile, ProfileView,
};
use crate::text::{i32_of, parse_i32};
use crate::types::{Response, SubJobArgs};

verus! {

/// `api` reaches the account of the profile `p`.
pub open spec fn api_for(api: LxpApi, p: ProfileView) -> bool {
    &&& api.url@ == p.url
    &&& api.auth.username@ == p.user_name
    &&& api.auth.apikey@ == p.api_key
}

/// `a` and `b` reach the same account.
pub open spec fn same_api(a: LxpApi, b: LxpApi) -> bool {
    a.url@ == b.url@ && same_credentials(a.auth, b.auth)
}

/// The profile store and the client built from its active profile.
#[derive(Debug)]
pub struct LxpCommands {
    pub config: LxpConfig,
    pub api_ref: Option<LxpApi>,
}

impl LxpCommands {
    /// Commands over the store `config`; the client is built when first needed.
    pub fn new(config: LxpConfig) -> (r: LxpCommands)
        ensures
            r.config == config,
            r.api_ref is None,
    {
        LxpCommands { config, api_ref: None }
    }

    /// The client for the active profile, built on first use and kept.
    /// Fails with `NoActiveProfile` where none is active.
    pub fn api(&mut self) -> (r: Result<LxpApi, ConfigError>)
        ensures
            final(self).config == old(self).config,
            old(self).api_ref is Some ==> (r matches Ok(b) && same_api(old(self).api_ref->0, b)
                && final(self).api_ref == old(self).api_ref),
            old(self).api_ref is None ==> (r is Ok <==> old(self).config.profiles@.active_profile() is Some),
            old(self).api_ref is None && r is Ok ==> {
                &&& api_for(r->Ok_0, old(self).config.profiles@.active_profile()->0)
                &&& final(self).api_ref is Some
                &&& same_api(final(self).api_ref->0, r->Ok_0)
            },
            r is Err ==> r->Err_0 == ConfigError::NoActiveProfile && final(self).api_ref is None,
    {
        match &self.api_ref {
            Some(api) => {
                return Ok(api.duplicate());
            },
            None => {},
        }
        match self.config.get_active_profile() {
            Some(profile) => {
                let api = LxpApi::new(
                    profile.user_name.as_str(),
                    profile.api_key.as_str(),
                    profile.url.as_str(),
                );
                let r = api.duplicate();
                self.api_ref = Some(api);
                Ok(r)
            },
            None => Err(ConfigError::NoActiveProfile),
        }
    }

    /// Stores a new profile and makes it active; the client is built anew
    /// when next needed.
    pub fn profile_new(&mut self, profile_name: &str, user_name: &str, url: &str, api_key: &str)
        ensures
            final(self).config.profiles@.entries == old(self).config.profiles@.inserted(
                profile_name@,
                ProfileView { user_name: user_name@, url: url@, api_key: api_key@ },
            ),
            final(self).config.profiles@.active == Some(profile_name@),
            final(self).config.config_path == old(self).config.config_path,
            final(self).api_ref is None,
    {
        let profile = Profile {
            user_name: user_name.to_owned(),
            url: url.to_owned(),
            api_key: api_key.to_owned(),
        };
        self.config.new_profile(profile_name, profile);
        self.api_ref = None;
    }

    /// Deletes the profile `profile_name` (see `LxpConfig::delete_profile`).
    pub fn profile_delete(&mut self, profile_name: &str) -> (r: Result<(), ConfigError>)
        ensures
            r is Ok <==> has_name(old(self).config.profiles@.entries, profile_name@),
            r is Err ==> r->Err_0 == ConfigError::ProfileNotFound && final(self).config.profiles@
                == old(self).config.profiles@,
            r is Ok ==> final(self).config.profiles@.entries
                == old(self).config.profiles@.entries.remove(
                index_of(old(self).config.profiles@.entries, profile_name@),
            ),
            r is Ok ==> final(self).config.profiles@.active == first_name(
                final(self).config.profiles@.entries,
            ),
            final(self).config.config_path == old(self).config.config_path,
            r is Err ==> final(self).api_ref == old(self).api_ref,
            r is Ok ==> final(self).api_ref is None,
    {
        let r = self.config.delete_profile(profile_name);
        if r.is_ok() {
            self.api_ref = None;
        }
        r
    }

    /// Deletes every profile.
    pub fn profile_delete_all(&mut self)
        ensures
            final(self).config.profiles@.entries.len() == 0,
            final(self).config.profiles@.active is None,
            final(self).config.config_path == old(self).config.config_path,
            final(self).api_ref is None,
    {
        self.config.delete_all_profiles();
        self.api_ref = None;
    }

    /// Makes the profile `profile_name` active (see `LxpConfig::switch_profile`).
    pub fn profile_switch(&mut self, profile_name: &str) -> (r: Result<(), ConfigError>)
        ensures
            r is Ok <==> has_name(old(self).config.profiles@.entries, profile_name@),
            r is Err ==> r->Err_0 == ConfigError::ProfileNotFound && final(self).api_ref == old(
                self,
            ).api_ref,
            final(self).config.profiles@.entries == old(self).config.profiles@.entries,
            final(self).config.profiles@.active == if r is Ok {
                Some(profile_name@)
            } else {
                old(self).config.profiles@.active
            },
            final(self).config.config_path == old(self).config.config_path,
            r is Ok ==> final(self).api_ref is None,
    {
        let r = self.config.switch_profile(profile_name);
        if r.is_ok() {
            self.api_ref = None;
        }
        r
    }

    /// The profile overview (see `overview_lines`).
    pub fn profile_show(&self) -> (r: Vec<String>)
        ensures
            lines_view(r@) == overview_lines(self.config.profiles@),
    {
        self.config.show_profiles()
    }
}

/// The name under which an invoice is saved: its date, an underscore, the
/// profile's name, and `-invoice.pdf`.
pub open spec fn invoice_file_name_of(date: Seq<char>, profile_name: Seq<char>) -> Seq<char> {
    date + "_"@ + profile_name + "-invoice.pdf"@
}

/// The name under which an invoice is saved (see `invoice_file_name_of`).
pub fn invoice_file_name(invoicedate: &str, profile_name: &str) -> (r: String)
    ensures
        r@ == invoice_file_name_of(invoicedate@, profile_name@),
{
    invoicedate.to_owned().concat("_").concat(profile_name).concat("-invoice.pdf")
}

/// What the status of a reply to a deletion means.
#[derive(Debug, Copy, Clone, PartialEq, Eq, Structural)]
pub enum DeleteOutcome {
    /// Status 200: the job was deleted.
    Deleted,
    /// Status 404: there is no such job.
    NotFound,
    /// Any other status.
    Unexpected(i32),
}

/// Reads the status of a reply to a deletion.
pub fn delete_outcome(status: i32) -> (r: DeleteOutcome)
    ensures
        status == 200 ==> r == DeleteOutcome::Deleted,
        status == 404 ==> r == DeleteOutcome::NotFound,
        status != 200 && status != 404 ==> r == DeleteOutcome::Unexpected(status),
{
    if status == 200 {
        DeleteOutcome::Deleted
    } else if status == 404 {
        DeleteOutcome::NotFound
    } else {
        DeleteOutcome::Unexpected(status)
    }
}

/// Every job of the table has a numeric id.
pub open spec fn ids_numeric(jobs: Seq<(String, SubJobArgs)>) -> bool {
    forall|i: int| 0 <= i < jobs.len() ==> (#[trigger] i32_of(jobs[i].1.jid@)) is Some
}

/// The ids and file names of the jobs in a reply, in the reply's order: none
/// where it lists no jobs, and `None` where a job's id is not an `i32`.
pub fn job_ids(r: &Response) -> (res: Option<Vec<(i32, String)>>)
    ensures
        r.jobs is None ==> (res matches Some(v) && v@.len() == 0),
        r.jobs is Some ==> (res is Some <==> ids_numeric(r.jobs->0@)),
        r.jobs is Some && res is Some ==> {
            let v = res->0@;
            let jobs = r.jobs->0;
            &&& v.len() == jobs@.len()
            &&& forall|i: int|
                0 <= i < v.len() ==> Some(#[trigger] v[i].0) == i32_of(jobs@[i].1.jid@)
                    && v[i].1@ == jobs@[i].1.address@
        },
{
    let jobs = match &r.jobs {
        None => {
            return Some(Vec::new());
        },
        Some(jobs) => jobs,
    };
    let n = jobs.len();
    let mut out: Vec<(i32, String)> = Vec::new();
    let mut i: usize = 0;
    while i < n
        invariant
            n == jobs@.len(),
            r.jobs is Some && r.jobs->0 == *jobs,
            0 <= i <= n,
            out@.len() == i,
            forall|j: int| 0 <= j < i ==> (#[trigger] i32_of(jobs@[j].1.jid@)) is Some,
            forall|j: int|
                0 <= j < i ==> Some(#[trigger] out@[j].0) == i32_of(jobs@[j].1.jid@)
                    && out@[j].1@ == jobs@[j].1.address@,
        decreases n - i,
    {
        let job = &jobs[i].1;
        match parse_i32(job.jid.as_str()) {
            Some(id) => {
                out.push((id, job.address.clone()));
            },
            None => {
                assert(i32_of(jobs@[i as int].1.jid@) is None);
                return None;
            },
        }
        i = i + 1;
    }
    assert(r.jobs->0 == *jobs);
    assert(out@.len() == jobs@.len());
    assert forall|j: int| 0 <= j < out@.len() implies Some(#[trigger] out@[j].0) == i32_of(
        r.jobs->0@[j].1.jid@,
    ) && out@[j].1@ == r.jobs->0@[j].1.address@ by {}
    Some(out)
}

} // verus!
