use vstd::prelude::*;

verus! {

/// The instant at which a check reported its status, as seconds since the
/// Unix epoch (UTC) and the nanoseconds within that second.
#[derive(Clone, Copy, Debug, PartialEq, Eq, Structural)]
pub struct Timestamp {
    pub seconds: i64,
    pub nanoseconds: u32,
}

/// One status report of a named check.
#[derive(Debug, PartialEq, Eq)]
pub struct Status {
    pub name: String,
    pub timestamp: Timestamp,
    pub status: String,
    pub description: String,
    pub account_id: String,
}

/// The mathematical value of a [`Status`].
pub struct StatusView {
    pub name: Seq<char>,
    pub timestamp: Timestamp,
    pub status: Seq<char>,
    pub description: Seq<char>,
    pub account_id: Seq<char>,
}

impl View for Status {
    type V = StatusView;

    open spec fn view(&self) -> StatusView {
        StatusView {
            name: self.name@,
            timestamp: self.timestamp,
            status: self.status@,
            description: self.description@,
            account_id: self.account_id@,
        }
    }
}

impl Clone for Status {
    fn clone(&self) -> (copy: Self)
        ensures
            copy@ == self@,
    {
        Status {
            name: self.name.clone(),
            timestamp: self.timestamp,
            status: self.status.clone(),
            description: self.description.clone(),
            account_id: self.account_id.clone(),
        }
    }
}

} // verus!
