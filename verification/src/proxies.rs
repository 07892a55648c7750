//! The requests of the connection channel, as they stand on the wire.

use crate::json::{json_of, object_value, string_value, Json};
use vstd::prelude::*;

verus! {

/// The key of the member that names the kind of a message.
pub const FIELD_TYPE: &'static str = "type";

/// The key of the member that names the sending program.
pub const FIELD_USER_AGENT: &'static str = "user_agent";

/// A request of the connection channel: its kind and the name of the program
/// that sends it. It carries nothing else.
#[derive(Debug)]
pub struct ConnectionRequest {
    pub typ: String,
    pub user_agent: String,
}

/// The JSON object that stands for a request: the two members `type` and
/// `user_agent`, each a string.
pub open spec fn request_json(typ: Seq<char>, user_agent: Seq<char>) -> Json {
    Json::Object(
        Map::empty().insert(FIELD_TYPE@, Json::String(typ)).insert(
            FIELD_USER_AGENT@,
            Json::String(user_agent),
        ),
    )
}

impl ConnectionRequest {
    /// The JSON object that stands for this request.
    pub open spec fn json(&self) -> Json {
        request_json(self.typ@, self.user_agent@)
    }

    /// Builds the JSON object of this request.
    pub fn to_value(&self) -> (value: serde_json::Value)
        ensures
            json_of(value) == self.json(),
    {
        let mut object = serde_json::Map::new();
        object.insert(FIELD_TYPE.to_owned(), string_value(self.typ.clone()));
        object.insert(FIELD_USER_AGENT.to_owned(), string_value(self.user_agent.clone()));
        object_value(object)
    }
}

/// The object of a request has the two members `type` and `user_agent` and
/// no other, and each holds, as a string, what the request was made with.
pub proof fn lemma_request_members(typ: Seq<char>, user_agent: Seq<char>)
    ensures
        request_json(typ, user_agent) matches Json::Object(members) && {
            &&& members.dom() == set![FIELD_TYPE@, FIELD_USER_AGENT@]
            &&& members[FIELD_TYPE@] == Json::String(typ)
            &&& members[FIELD_USER_AGENT@] == Json::String(user_agent)
        },
{
    reveal_strlit("type");
    reveal_strlit("user_agent");
    assert(FIELD_TYPE@.len() != FIELD_USER_AGENT@.len());
    let members = Map::<Seq<char>, Json>::empty().insert(FIELD_TYPE@, Json::String(typ)).insert(
        FIELD_USER_AGENT@,
        Json::String(user_agent),
    );
    assert(members.dom() =~= set![FIELD_TYPE@, FIELD_USER_AGENT@]);
}

} // verus!
