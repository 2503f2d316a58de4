use vstd::prelude::*;

use crate::text::str_eq;
use crate::time::Timestamp;

verus! {

/// A monitored project (`project_key`) under an endpoint.
#[derive(Clone, Debug)]
pub struct Model {
    pub id: i32,
    pub endpoint_id: i32,
    pub project_key: String,
    pub name: String,
    /// `"remote"` (use the platform's own ActiveNotify config) or `"local"`
    /// (use `notify_target` rows).
    pub notify_source: String,
    pub poll_enabled: bool,
    pub created_at: Timestamp,
}

impl Model {
    /// A copy of this row.
    pub fn duplicate(&self) -> (r: Model)
        ensures
            r == *self,
    {
        Model {
            id: self.id,
            endpoint_id: self.endpoint_id,
            project_key: self.project_key.clone(),
            name: self.name.clone(),
            notify_source: self.notify_source.clone(),
            poll_enabled: self.poll_enabled,
            created_at: self.created_at,
        }
    }
}

/// Where the notifications of a project are configured.
#[derive(Clone, Copy, Debug, PartialEq, Eq, Structural, Default)]
pub enum NotifySource {
    #[default]
    Remote,
    Local,
}

impl NotifySource {
    /// The stored name of the source.
    pub open spec fn name(self) -> Seq<char> {
        match self {
            NotifySource::Remote => "remote"@,
            NotifySource::Local => "local"@,
        }
    }

    /// The stored name of the source: `"remote"` or `"local"`.
    pub fn as_str(self) -> (s: &'static str)
        ensures
            s@ == self.name(),
    {
        match self {
            NotifySource::Remote => "remote",
            NotifySource::Local => "local",
        }
    }

    /// The text shown for the source; the same as [`NotifySource::as_str`].
    pub fn to_string(&self) -> (s: String)
        ensures
            s@ == self.name(),
    {
        self.as_str().to_owned()
    }

    /// Parses a stored name: `"remote"` and `"local"` exactly, anything else
    /// is refused.
    pub fn from_str(s: &str) -> (r: Result<NotifySource, ()>)
        ensures
            s@ == "remote"@ ==> r == Ok::<NotifySource, ()>(NotifySource::Remote),
            s@ == "local"@ ==> r == Ok::<NotifySource, ()>(NotifySource::Local),
            s@ != "remote"@ && s@ != "local"@ ==> r is Err,
    {
        proof {
            reveal_strlit("local");
            reveal_strlit("remote");
            assert("local"@.len() != "remote"@.len());
        }
        if str_eq(s, "remote") {
            Ok(NotifySource::Remote)
        } else if str_eq(s, "local") {
            Ok(NotifySource::Local)
        } else {
            Err(())
        }
    }

    /// The source that notifications of a project are sent through: the
    /// stored name, or [`NotifySource::Remote`] when it is not a known name.
    pub fn of_project(project: &Model) -> (r: NotifySource)
        ensures
            project.notify_source@ == "local"@ ==> r == NotifySource::Local,
            project.notify_source@ != "local"@ ==> r == NotifySource::Remote,
    {
        proof {
            reveal_strlit("local");
            reveal_strlit("remote");
        }
        match NotifySource::from_str(project.notify_source.as_str()) {
            Ok(source) => source,
            Err(()) => NotifySource::Remote,
        }
    }
}

/// Naming a source and reading the name back gives the same source.
pub proof fn lemma_notify_source_round_trip(source: NotifySource)
    ensures
        source.name() == "remote"@ || source.name() == "local"@,
        source.name() == "remote"@ <==> source == NotifySource::Remote,
        source.name() == "local"@ <==> source == NotifySource::Local,
{
    reveal_strlit("local");
    reveal_strlit("remote");
}

} // verus!
