//! Task listing, status and logs.
use vstd::prelude::*;
use vstd::std_specs::cmp::PartialEqSpecImpl;
use vstd::string::*;

use crate::text::str_eq;

verus! {

/// A guest's run state.
#[derive(Clone, Debug)]
pub enum IsRunning {
    /// running.
    Running,
    /// stopped.
    Stopped,
    /// Unknown variants for forward compatibility.
    UnknownEnumValue(String),
}

impl PartialEq for IsRunning {
    fn eq(&self, other: &Self) -> (r: bool) {
        match (self, other) {
            (IsRunning::Running, IsRunning::Running) => true,
            (IsRunning::Stopped, IsRunning::Stopped) => true,
            (IsRunning::UnknownEnumValue(a), IsRunning::UnknownEnumValue(b)) => *a == *b,
            _ => false,
        }
    }
}

impl PartialEqSpecImpl for IsRunning {
    open spec fn obeys_eq_spec() -> bool {
        true
    }

    open spec fn eq_spec(&self, other: &Self) -> bool {
        match (self, other) {
            (IsRunning::UnknownEnumValue(a), IsRunning::UnknownEnumValue(b)) => a@ == b@,
            _ => *self == *other,
        }
    }
}

impl std::str::FromStr for IsRunning {
    type Err = core::convert::Infallible;

    fn from_str(s: &str) -> (r: Result<Self, Self::Err>)
        ensures
            r matches Ok(v) && Self::parses_to(s@, v),
    {
        Ok(IsRunning::from_name(s))
    }
}

impl IsRunning {
    /// The name under which the API writes this value.
    pub open spec fn name(self) -> Seq<char> {
        match self {
            IsRunning::Running => "running"@,
            IsRunning::Stopped => "stopped"@,
            IsRunning::UnknownEnumValue(s) => s@,
        }
    }

    /// The known value that the API name `s` stands for, if any.
    pub open spec fn known(s: Seq<char>) -> Option<Self> {
        if s == "running"@ {
            Some(IsRunning::Running)
        }         else if s == "stopped"@ {
            Some(IsRunning::Stopped)
        } else {
            None
        }
    }

    /// `v` is the value that reading the API name `s` gives.
    pub open spec fn parses_to(s: Seq<char>, v: Self) -> bool {
        match Self::known(s) {
            Some(k) => v == k,
            None => v matches IsRunning::UnknownEnumValue(t) && t@ == s,
        }
    }

    /// The API name of this value.
    pub fn to_string(&self) -> (r: String)
        ensures
            r@ == self.name(),
    {
        match self {
            IsRunning::Running => String::from_str("running"),
            IsRunning::Stopped => String::from_str("stopped"),
            IsRunning::UnknownEnumValue(s) => s.clone(),
        }
    }

    /// Reads an API name; a name that is not known is kept as an unknown value.
    pub fn from_name(s: &str) -> (r: Self)
        ensures
            Self::parses_to(s@, r),
    {
        if str_eq(s, "running") {
            IsRunning::Running
        }         else if str_eq(s, "stopped") {
            IsRunning::Stopped
        } else {
            IsRunning::UnknownEnumValue(String::from_str(s))
        }
    }

    /// Each known value goes with the name the API uses for it: `running` for `Running`, `stopped` for `Stopped`.
    /// `to_string` writes that name and `from_name` reads it as that value.
    pub proof fn lemma_api_names()
        ensures
            IsRunning::Running.name() == "running"@,
            Self::parses_to("running"@, IsRunning::Running),
            IsRunning::Stopped.name() == "stopped"@,
            Self::parses_to("stopped"@, IsRunning::Stopped),
    {
        Self::lemma_to_string_from_name(IsRunning::Running);
        Self::lemma_to_string_from_name(IsRunning::Stopped);
    }

    /// Writing out a value that was read gives back the name that was read.
    pub proof fn lemma_from_name_to_string(s: Seq<char>, v: Self)
        requires
            Self::parses_to(s, v),
        ensures
            v.name() == s,
    {
    }

    /// Reading the name of a value gives back the value, unless the value is an
    /// unknown one that carries the name of a known one.
    pub proof fn lemma_to_string_from_name(v: Self)
        requires
            v is UnknownEnumValue ==> Self::known(v.name()) is None,
        ensures
            Self::parses_to(v.name(), v),
    {
        if !(v is UnknownEnumValue) {
            Self::lemma_known_names(v);
        }
    }

    /// The spelling of known names, character by character.
    proof fn lemma_name_spelling()
        ensures
            "running"@.len() == 7 && "running"@[0] == 'r' && "running"@[1] == 'u' && "running"@[2] == 'n' && "running"@[3] == 'n' && "running"@[4] == 'i' && "running"@[5] == 'n' && "running"@[6] == 'g',
            "stopped"@.len() == 7 && "stopped"@[0] == 's' && "stopped"@[1] == 't' && "stopped"@[2] == 'o' && "stopped"@[3] == 'p' && "stopped"@[4] == 'p' && "stopped"@[5] == 'e' && "stopped"@[6] == 'd',
    {
        broadcast use vstd::string::group_string_axioms;

        reveal_strlit("running");
        reveal_strlit("stopped");
    }

    proof fn lemma_known_names(v: Self)
        requires
            !(v is UnknownEnumValue),
        ensures
            Self::known(v.name()) == Some(v),
    {
        Self::lemma_name_spelling();
    }

}

/// Object.
#[derive(Debug)]
pub struct ListTasks {
    /// Only list tasks with a status of ERROR.
    pub errors: Option<bool>,

    /// Only list this number of tasks.
    pub limit: Option<u64>,

    /// Only list tasks since this UNIX epoch.
    pub since: Option<i64>,

    pub source: Option<ListTasksSource>,

    /// List tasks beginning from this offset.
    pub start: Option<u64>,

    /// List of Task States that should be returned.
    pub statusfilter: Option<Vec<String>>,

    /// Only list tasks of this type (e.g., vzstart, vzdump).
    pub typefilter: Option<String>,

    /// Only list tasks until this UNIX epoch.
    pub until: Option<i64>,

    /// Only list tasks from this user.
    pub userfilter: Option<String>,

    /// Only list tasks for this VM.
    pub vmid: Option<u32>,
}

impl Default for ListTasks {
    /// No parameter is set.
    fn default() -> (r: Self)
        ensures
            r.errors is None,
            r.limit is None,
            r.since is None,
            r.source is None,
            r.start is None,
            r.statusfilter is None,
            r.typefilter is None,
            r.until is None,
            r.userfilter is None,
            r.vmid is None,
    {
        ListTasks {
            errors: None,
            limit: None,
            since: None,
            source: None,
            start: None,
            statusfilter: None,
            typefilter: None,
            until: None,
            userfilter: None,
            vmid: None,
        }
    }
}

/// Object.
#[derive(Debug)]
pub struct ListTasksResponse {
    pub endtime: Option<i64>,

    pub id: String,

    pub node: String,

    pub pid: i64,

    pub pstart: i64,

    pub starttime: i64,

    pub status: Option<String>,

    pub ty: String,

    pub upid: String,

    pub user: String,
}

/// List archived, active or all tasks.
#[derive(Clone, Debug)]
pub enum ListTasksSource {
    /// archive.
    Archive,
    /// active.
    Active,
    /// all.
    All,
    /// Unknown variants for forward compatibility.
    UnknownEnumValue(String),
}

impl PartialEq for ListTasksSource {
    fn eq(&self, other: &Self) -> (r: bool) {
        match (self, other) {
            (ListTasksSource::Archive, ListTasksSource::Archive) => true,
            (ListTasksSource::Active, ListTasksSource::Active) => true,
            (ListTasksSource::All, ListTasksSource::All) => true,
            (ListTasksSource::UnknownEnumValue(a), ListTasksSource::UnknownEnumValue(b)) => *a == *b,
            _ => false,
        }
    }
}

impl PartialEqSpecImpl for ListTasksSource {
    open spec fn obeys_eq_spec() -> bool {
        true
    }

    open spec fn eq_spec(&self, other: &Self) -> bool {
        match (self, other) {
            (ListTasksSource::UnknownEnumValue(a), ListTasksSource::UnknownEnumValue(b)) => a@ == b@,
            _ => *self == *other,
        }
    }
}

impl Default for ListTasksSource {
    fn default() -> (r: Self)
        ensures
            r == ListTasksSource::Archive,
    {
        ListTasksSource::Archive
    }
}

impl std::str::FromStr for ListTasksSource {
    type Err = core::convert::Infallible;

    fn from_str(s: &str) -> (r: Result<Self, Self::Err>)
        ensures
            r matches Ok(v) && Self::parses_to(s@, v),
    {
        Ok(ListTasksSource::from_name(s))
    }
}

impl ListTasksSource {
    /// The name under which the API writes this value.
    pub open spec fn name(self) -> Seq<char> {
        match self {
            ListTasksSource::Archive => "archive"@,
            ListTasksSource::Active => "active"@,
            ListTasksSource::All => "all"@,
            ListTasksSource::UnknownEnumValue(s) => s@,
        }
    }

    /// The known value that the API name `s` stands for, if any.
    pub open spec fn known(s: Seq<char>) -> Option<Self> {
        if s == "archive"@ {
            Some(ListTasksSource::Archive)
        }         else if s == "active"@ {
            Some(ListTasksSource::Active)
        }         else if s == "all"@ {
            Some(ListTasksSource::All)
        } else {
            None
        }
    }

    /// `v` is the value that reading the API name `s` gives.
    pub open spec fn parses_to(s: Seq<char>, v: Self) -> bool {
        match Self::known(s) {
            Some(k) => v == k,
            None => v matches ListTasksSource::UnknownEnumValue(t) && t@ == s,
        }
    }

    /// The API name of this value.
    pub fn to_string(&self) -> (r: String)
        ensures
            r@ == self.name(),
    {
        match self {
            ListTasksSource::Archive => String::from_str("archive"),
            ListTasksSource::Active => String::from_str("active"),
            ListTasksSource::All => String::from_str("all"),
            ListTasksSource::UnknownEnumValue(s) => s.clone(),
        }
    }

    /// Reads an API name; a name that is not known is kept as an unknown value.
    pub fn from_name(s: &str) -> (r: Self)
        ensures
            Self::parses_to(s@, r),
    {
        if str_eq(s, "archive") {
            ListTasksSource::Archive
        }         else if str_eq(s, "active") {
            ListTasksSource::Active
        }         else if str_eq(s, "all") {
            ListTasksSource::All
        } else {
            ListTasksSource::UnknownEnumValue(String::from_str(s))
        }
    }

    /// Each known value goes with the name the API uses for it: `archive` for `Archive`, `active` for `Active`, `all` for `All`.
    /// `to_string` writes that name and `from_name` reads it as that value.
    pub proof fn lemma_api_names()
        ensures
            ListTasksSource::Archive.name() == "archive"@,
            Self::parses_to("archive"@, ListTasksSource::Archive),
            ListTasksSource::Active.name() == "active"@,
            Self::parses_to("active"@, ListTasksSource::Active),
            ListTasksSource::All.name() == "all"@,
            Self::parses_to("all"@, ListTasksSource::All),
    {
        Self::lemma_to_string_from_name(ListTasksSource::Archive);
        Self::lemma_to_string_from_name(ListTasksSource::Active);
        Self::lemma_to_string_from_name(ListTasksSource::All);
    }

    /// Writing out a value that was read gives back the name that was read.
    pub proof fn lemma_from_name_to_string(s: Seq<char>, v: Self)
        requires
            Self::parses_to(s, v),
        ensures
            v.name() == s,
    {
    }

    /// Reading the name of a value gives back the value, unless the value is an
    /// unknown one that carries the name of a known one.
    pub proof fn lemma_to_string_from_name(v: Self)
        requires
            v is UnknownEnumValue ==> Self::known(v.name()) is None,
        ensures
            Self::parses_to(v.name(), v),
    {
        if !(v is UnknownEnumValue) {
            Self::lemma_known_names(v);
        }
    }

    /// The spelling of known names, character by character.
    proof fn lemma_name_spelling()
        ensures
            "archive"@.len() == 7 && "archive"@[0] == 'a' && "archive"@[1] == 'r' && "archive"@[2] == 'c' && "archive"@[3] == 'h' && "archive"@[4] == 'i' && "archive"@[5] == 'v' && "archive"@[6] == 'e',
            "active"@.len() == 6 && "active"@[0] == 'a' && "active"@[1] == 'c' && "active"@[2] == 't' && "active"@[3] == 'i' && "active"@[4] == 'v' && "active"@[5] == 'e',
            "all"@.len() == 3 && "all"@[0] == 'a' && "all"@[1] == 'l' && "all"@[2] == 'l',
    {
        broadcast use vstd::string::group_string_axioms;

        reveal_strlit("archive");
        reveal_strlit("active");
        reveal_strlit("all");
    }

    proof fn lemma_known_names(v: Self)
        requires
            !(v is UnknownEnumValue),
        ensures
            Self::known(v.name()) == Some(v),
    {
        Self::lemma_name_spelling();
    }

}

/// Object.
#[derive(Debug)]
pub struct TaskLogLine {
    /// Line number
    pub n: i64,

    /// Line text
    pub t: String,
}

/// Object.
#[derive(Debug)]
pub struct TaskStatus {
    pub exitstatus: Option<String>,

    pub id: String,

    pub node: String,

    pub pid: i64,

    pub pstart: i64,

    pub starttime: i64,

    pub status: IsRunning,

    pub ty: String,

    pub upid: String,

    pub user: String,
}

} // verus!
