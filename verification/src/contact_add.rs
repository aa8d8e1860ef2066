//! Adding an address-book entry on the phone.

use vstd::prelude::*;
use crate::json::{json_member, json_object, json_plain, lemma_two_members, object, quoted};

verus! {

/// The phone's answer to an added entry: its clock time and the new id.
#[derive(Clone, Debug, PartialEq, Eq, Default)]
pub struct ContactsAdd {
    pub time: String,
    pub id: String,
}

/// An added entry: the phone's answer, the entry sent, and the reply text.
#[derive(Clone, Debug, PartialEq, Eq, Default)]
pub struct ContactAddLog {
    pub contacts: ContactsAdd,
    pub param: ContactNewParam,
    pub json: String,
}

/// The entry to add: a name and a phone number.
#[derive(Clone, Debug, PartialEq, Eq, Default)]
pub struct ContactNewParam {
    pub name: String,
    pub phone: String,
}

impl ContactNewParam {
    /// The entry as the JSON object `{"name":..,"phone":..}`.
    pub fn json(&self) -> (out: String)
        ensures
            out@ == json_object(seq![("name"@, self.name@), ("phone"@, self.phone@)]),
            json_plain(self.name@) && json_plain(self.phone@) ==> out@ == "{\"name\":\""@ + self.name@
                + "\",\"phone\":\""@ + self.phone@ + "\"}"@,
    {
        let fields = vec![("name", self.name.clone()), ("phone", self.phone.clone())];
        let out = object(&fields);
        proof {
            let views = crate::json::field_views(fields@);
            assert(views =~= seq![("name"@, self.name@), ("phone"@, self.phone@)]);
            if json_plain(self.name@) && json_plain(self.phone@) {
                reveal_strlit("name");
                reveal_strlit("phone");
                reveal_strlit("{\"name\":\"");
                reveal_strlit("\",\"phone\":\"");
                reveal_strlit("\"}");
                assert(views[0].0 == "name"@);
                assert(views[1].0 == "phone"@);
                lemma_two_members(views);
                assert(json_member(views[0]) == quoted("name"@) + seq![':'] + quoted(self.name@));
                assert(json_member(views[1]) == quoted("phone"@) + seq![':'] + quoted(self.phone@));
                assert(out@ =~= "{\"name\":\""@ + self.name@ + "\",\"phone\":\""@ + self.phone@ + "\"}"@);
            }
        }
        out
    }
}

impl ContactAddLog {
    /// The log of a finished exchange that added `param`: the phone's
    /// answer with its reply text, or the exchange's error message unchanged.
    pub fn finish(param: ContactNewParam, reply: Result<(ContactsAdd, String), String>) -> (r: Result<
        ContactAddLog,
        String,
    >)
        ensures
            match reply {
                Ok((v, json)) => r == Ok::<ContactAddLog, String>(ContactAddLog { contacts: v, param, json }),
                Err(e) => r == Err::<ContactAddLog, String>(e),
            },
    {
        match reply {
            Ok((v, json)) => Ok(ContactAddLog { contacts: v, param, json }),
            Err(e) => Err(e),
        }
    }
}

} // verus!
