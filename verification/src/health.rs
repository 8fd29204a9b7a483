//! The health payload: one attribute, `status`, and its JSON text.

use vstd::prelude::*;
use vstd::string::StringExecFns;

verus! {

/// What the service reports of itself. Only one value exists: nothing that the
/// service depends on is looked at, so it never reports anything but `Healthy`.
#[derive(Clone, Copy, Debug, PartialEq, Eq, Structural)]
pub enum Status {
    Healthy,
}

impl Status {
    /// The word that stands for this status on the wire.
    pub open spec fn text(self) -> Seq<char> {
        match self {
            Status::Healthy => "ok"@,
        }
    }

    pub fn as_str(&self) -> (word: &'static str)
        ensures
            word@ == self.text(),
    {
        match self {
            Status::Healthy => "ok",
        }
    }
}

/// The payload of the health endpoint. It is made anew for each request and
/// lives no longer than the response it is written into.
#[derive(Clone, Copy, Debug, PartialEq, Eq, Structural)]
pub struct Health {
    pub status: Status,
}

impl Health {
    /// The payload as a JSON object with the single member `status`.
    pub open spec fn json(self) -> Seq<char> {
        "{\"status\":\""@ + self.status.text() + "\"}"@
    }

    pub fn to_json(&self) -> (body: String)
        ensures
            body@ == self.json(),
    {
        let mut body = String::from_str("{\"status\":\"");
        body.append(self.status.as_str());
        body.append("\"}");
        body
    }
}

/// The health handler: reports `Healthy`, whatever the state of the world.
pub fn health() -> (payload: Health)
    ensures
        payload == (Health { status: Status::Healthy }),
{
    Health { status: Status::Healthy }
}

/// The JSON text of the one payload that `health` gives is `{"status":"ok"}`.
pub proof fn lemma_health_json()
    ensures
        (Health { status: Status::Healthy }).json() == "{\"status\":\"ok\"}"@,
{
    reveal_strlit("{\"status\":\"");
    reveal_strlit("ok");
    reveal_strlit("\"}");
    reveal_strlit("{\"status\":\"ok\"}");
    assert((Health { status: Status::Healthy }).json() =~= "{\"status\":\"ok\"}"@);
}

} // verus!
