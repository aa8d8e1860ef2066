//! The named text properties of the rows shown in the lists: setting and
//! reading a property by its name.
//!
//! Every property holds an optional text. A name that is not a property of
//! the row is refused by the callers before they get here.

use vstd::prelude::*;
use crate::text::same_text;

verus! {

/// A copy of an optional text.
fn copy_text(t: &Option<String>) -> (r: Option<String>)
    ensures
        r == *t,
{
    match t {
        Some(s) => Some(s.clone()),
        None => None,
    }
}

/// The properties of an address-book entry in the contacts list.
#[derive(Clone, Debug, PartialEq, Eq, Default)]
pub struct ContactFields {
    pub name: Option<String>,
    pub phone: Option<String>,
}

/// The property names of an address-book entry in the contacts list.
pub open spec fn is_contact_property(n: Seq<char>) -> bool {
    n == "name"@ || n == "phone"@
}

/// The row after setting property `n` to `v`.
pub open spec fn set_contact_property(f: ContactFields, n: Seq<char>, v: Option<String>) -> ContactFields {
    if n == "name"@ {
        ContactFields { name: v, ..f }
    } else if n == "phone"@ {
        ContactFields { phone: v, ..f }
    } else {
        f
    }
}

/// The value read from property `n`.
pub open spec fn get_contact_property(f: ContactFields, n: Seq<char>) -> Option<String> {
    if n == "name"@ {
        f.name
    } else if n == "phone"@ {
        f.phone
    } else {
        None
    }
}

impl ContactFields {
    /// A row with every property empty.
    pub fn new() -> (f: ContactFields)
        ensures
            f.name is None,
            f.phone is None,
    {
        ContactFields { name: None, phone: None }
    }

    /// The property names, in their declared order.
    pub fn property_names() -> (names: Vec<&'static str>)
        ensures
            names@.map_values(|n: &str| n@) == seq!["name"@, "phone"@],
    {
        let names = vec!["name", "phone"];
        assert(names@.map_values(|n: &str| n@) =~= seq!["name"@, "phone"@]);
        names
    }

    /// Whether `name` is a property of the row.
    pub fn has_property(name: &str) -> (b: bool)
        ensures
            b == is_contact_property(name@),
    {
        same_text(name, "name") || same_text(name, "phone")
    }

    /// Sets property `name` to `value`.
    pub fn set_property(&mut self, name: &str, value: Option<String>)
        requires
            is_contact_property(name@),
        ensures
            *final(self) == set_contact_property(*old(self), name@, value),
    {
        if same_text(name, "name") {
            self.name = value;
        } else if same_text(name, "phone") {
            self.phone = value;
        }
    }

    /// The value of property `name`.
    pub fn property(&self, name: &str) -> (v: Option<String>)
        requires
            is_contact_property(name@),
        ensures
            v == get_contact_property(*self, name@),
    {
        if same_text(name, "name") {
            copy_text(&self.name)
        } else if same_text(name, "phone") {
            copy_text(&self.phone)
        } else {
            None
        }
    }
}

/// Reading a property gives back what was set there, and setting one
/// property leaves the others as they were.
pub proof fn lemma_contact_read_after_set(f: ContactFields, n: Seq<char>, m: Seq<char>, v: Option<String>)
    requires
        n == "name"@ || n == "phone"@,
        is_contact_property(m),
    ensures
        get_contact_property(set_contact_property(f, n, v), n) == v,
        m != n ==> get_contact_property(set_contact_property(f, n, v), m) == get_contact_property(f, m),
{
    reveal_strlit("name");
    reveal_strlit("phone");
}

/// The properties of a call in the list of calls.
#[derive(Clone, Debug, PartialEq, Eq, Default)]
pub struct PhoneFields {
    pub id: Option<String>,
    pub time: Option<String>,
    pub phone: Option<String>,
}

/// The property names of a call in the list of calls.
pub open spec fn is_phone_property(n: Seq<char>) -> bool {
    n == "id"@ || n == "time"@ || n == "phone"@
}

/// The row after setting property `n` to `v`.
pub open spec fn set_phone_property(f: PhoneFields, n: Seq<char>, v: Option<String>) -> PhoneFields {
    if n == "id"@ {
        PhoneFields { id: v, ..f }
    } else if n == "time"@ {
        PhoneFields { time: v, ..f }
    } else if n == "phone"@ {
        PhoneFields { phone: v, ..f }
    } else {
        f
    }
}

/// The value read from property `n`.
pub open spec fn get_phone_property(f: PhoneFields, n: Seq<char>) -> Option<String> {
    if n == "id"@ {
        f.time
    } else if n == "time"@ {
        f.time
    } else if n == "phone"@ {
        f.phone
    } else {
        None
    }
}

impl PhoneFields {
    /// A row with every property empty.
    pub fn new() -> (f: PhoneFields)
        ensures
            f.id is None,
            f.time is None,
            f.phone is None,
    {
        PhoneFields { id: None, time: None, phone: None }
    }

    /// The property names, in their declared order.
    pub fn property_names() -> (names: Vec<&'static str>)
        ensures
            names@.map_values(|n: &str| n@) == seq!["id"@, "time"@, "phone"@],
    {
        let names = vec!["id", "time", "phone"];
        assert(names@.map_values(|n: &str| n@) =~= seq!["id"@, "time"@, "phone"@]);
        names
    }

    /// Whether `name` is a property of the row.
    pub fn has_property(name: &str) -> (b: bool)
        ensures
            b == is_phone_property(name@),
    {
        same_text(name, "id") || same_text(name, "time") || same_text(name, "phone")
    }

    /// Sets property `name` to `value`.
    pub fn set_property(&mut self, name: &str, value: Option<String>)
        requires
            is_phone_property(name@),
        ensures
            *final(self) == set_phone_property(*old(self), name@, value),
    {
        if same_text(name, "id") {
            self.id = value;
        } else if same_text(name, "time") {
            self.time = value;
        } else if same_text(name, "phone") {
            self.phone = value;
        }
    }

    /// The value of property `name`.
    ///
    /// Reading `id` gives the value of `time`.
    pub fn property(&self, name: &str) -> (v: Option<String>)
        requires
            is_phone_property(name@),
        ensures
            v == get_phone_property(*self, name@),
    {
        if same_text(name, "id") {
            copy_text(&self.time)
        } else if same_text(name, "time") {
            copy_text(&self.time)
        } else if same_text(name, "phone") {
            copy_text(&self.phone)
        } else {
            None
        }
    }
}

/// Reading a property gives back what was set there, and setting one
/// property leaves the others as they were. Not for `id`, which reads the
/// time: setting `id` is not read back, and setting `time` changes what
/// `id` reads.
pub proof fn lemma_phone_read_after_set(f: PhoneFields, n: Seq<char>, m: Seq<char>, v: Option<String>)
    requires
        n == "time"@ || n == "phone"@,
        is_phone_property(m),
    ensures
        get_phone_property(set_phone_property(f, n, v), n) == v,
        m != n && !(n == "time"@ && m == "id"@) ==> get_phone_property(set_phone_property(f, n, v), m)
            == get_phone_property(f, m),
{
    reveal_strlit("id");
    reveal_strlit("time");
    reveal_strlit("phone");
    assert("id"@.len() == 2);
    assert("time"@.len() == 4);
    assert("phone"@.len() == 5);
}

/// The properties of a received message in its list.
#[derive(Clone, Debug, PartialEq, Eq, Default)]
pub struct SmsInputFields {
    pub id: Option<String>,
    pub phone: Option<String>,
    pub time: Option<String>,
    pub body: Option<String>,
}

/// The property names of a received message in its list.
pub open spec fn is_sms_input_property(n: Seq<char>) -> bool {
    n == "id"@ || n == "phone"@ || n == "time"@ || n == "body"@
}

/// The row after setting property `n` to `v`.
pub open spec fn set_sms_input_property(f: SmsInputFields, n: Seq<char>, v: Option<String>) -> SmsInputFields {
    if n == "id"@ {
        SmsInputFields { id: v, ..f }
    } else if n == "phone"@ {
        SmsInputFields { phone: v, ..f }
    } else if n == "time"@ {
        SmsInputFields { time: v, ..f }
    } else if n == "body"@ {
        SmsInputFields { body: v, ..f }
    } else {
        f
    }
}

/// The value read from property `n`.
pub open spec fn get_sms_input_property(f: SmsInputFields, n: Seq<char>) -> Option<String> {
    if n == "id"@ {
        f.id
    } else if n == "phone"@ {
        f.phone
    } else if n == "time"@ {
        f.time
    } else if n == "body"@ {
        f.body
    } else {
        None
    }
}

impl SmsInputFields {
    /// A row with every property empty.
    pub fn new() -> (f: SmsInputFields)
        ensures
            f.id is None,
            f.phone is None,
            f.time is None,
            f.body is None,
    {
        SmsInputFields { id: None, phone: None, time: None, body: None }
    }

    /// The property names, in their declared order.
    pub fn property_names() -> (names: Vec<&'static str>)
        ensures
            names@.map_values(|n: &str| n@) == seq!["id"@, "phone"@, "time"@, "body"@],
    {
        let names = vec!["id", "phone", "time", "body"];
        assert(names@.map_values(|n: &str| n@) =~= seq!["id"@, "phone"@, "time"@, "body"@]);
        names
    }

    /// Whether `name` is a property of the row.
    pub fn has_property(name: &str) -> (b: bool)
        ensures
            b == is_sms_input_property(name@),
    {
        same_text(name, "id") || same_text(name, "phone") || same_text(name, "time") || same_text(name, "body")
    }

    /// Sets property `name` to `value`.
    pub fn set_property(&mut self, name: &str, value: Option<String>)
        requires
            is_sms_input_property(name@),
        ensures
            *final(self) == set_sms_input_property(*old(self), name@, value),
    {
        if same_text(name, "id") {
            self.id = value;
        } else if same_text(name, "phone") {
            self.phone = value;
        } else if same_text(name, "time") {
            self.time = value;
        } else if same_text(name, "body") {
            self.body = value;
        }
    }

    /// The value of property `name`.
    pub fn property(&self, name: &str) -> (v: Option<String>)
        requires
            is_sms_input_property(name@),
        ensures
            v == get_sms_input_property(*self, name@),
    {
        if same_text(name, "id") {
            copy_text(&self.id)
        } else if same_text(name, "phone") {
            copy_text(&self.phone)
        } else if same_text(name, "time") {
            copy_text(&self.time)
        } else if same_text(name, "body") {
            copy_text(&self.body)
        } else {
            None
        }
    }
}

/// Reading a property gives back what was set there, and setting one
/// property leaves the others as they were.
pub proof fn lemma_sms_input_read_after_set(f: SmsInputFields, n: Seq<char>, m: Seq<char>, v: Option<String>)
    requires
        n == "id"@ || n == "phone"@ || n == "time"@ || n == "body"@,
        is_sms_input_property(m),
    ensures
        get_sms_input_property(set_sms_input_property(f, n, v), n) == v,
        m != n ==> get_sms_input_property(set_sms_input_property(f, n, v), m) == get_sms_input_property(f, m),
{
    reveal_strlit("id");
    reveal_strlit("phone");
    reveal_strlit("time");
    reveal_strlit("body");
}

/// The properties of a sent message in its list.
#[derive(Clone, Debug, PartialEq, Eq, Default)]
pub struct SmsOutputFields {
    pub id: Option<String>,
    pub phone: Option<String>,
    pub text: Option<String>,
    pub sent: Option<String>,
    pub senttime: Option<String>,
    pub delivery: Option<String>,
    pub deliverytime: Option<String>,
}

/// The property names of a sent message in its list.
pub open spec fn is_sms_output_property(n: Seq<char>) -> bool {
    n == "id"@ || n == "phone"@ || n == "text"@ || n == "sent"@ || n == "senttime"@ || n == "delivery"@ || n == "deliverytime"@
}

/// The row after setting property `n` to `v`.
pub open spec fn set_sms_output_property(f: SmsOutputFields, n: Seq<char>, v: Option<String>) -> SmsOutputFields {
    if n == "id"@ {
        SmsOutputFields { id: v, ..f }
    } else if n == "phone"@ {
        SmsOutputFields { phone: v, ..f }
    } else if n == "text"@ {
        SmsOutputFields { text: v, ..f }
    } else if n == "sent"@ {
        SmsOutputFields { sent: v, ..f }
    } else if n == "senttime"@ {
        SmsOutputFields { senttime: v, ..f }
    } else if n == "delivery"@ {
        SmsOutputFields { delivery: v, ..f }
    } else if n == "deliverytime"@ {
        SmsOutputFields { deliverytime: v, ..f }
    } else {
        f
    }
}

/// The value read from property `n`.
pub open spec fn get_sms_output_property(f: SmsOutputFields, n: Seq<char>) -> Option<String> {
    if n == "id"@ {
        f.id
    } else if n == "phone"@ {
        f.phone
    } else if n == "text"@ {
        f.text
    } else if n == "sent"@ {
        f.sent
    } else if n == "senttime"@ {
        f.senttime
    } else if n == "delivery"@ {
        f.delivery
    } else if n == "deliverytime"@ {
        f.deliverytime
    } else {
        None
    }
}

impl SmsOutputFields {
    /// A row with every property empty.
    pub fn new() -> (f: SmsOutputFields)
        ensures
            f.id is None,
            f.phone is None,
            f.text is None,
            f.sent is None,
            f.senttime is None,
            f.delivery is None,
            f.deliverytime is None,
    {
        SmsOutputFields { id: None, phone: None, text: None, sent: None, senttime: None, delivery: None, deliverytime: None }
    }

    /// The property names, in their declared order.
    pub fn property_names() -> (names: Vec<&'static str>)
        ensures
            names@.map_values(|n: &str| n@) == seq!["id"@, "phone"@, "text"@, "sent"@, "senttime"@, "delivery"@, "deliverytime"@],
    {
        let names = vec!["id", "phone", "text", "sent", "senttime", "delivery", "deliverytime"];
        assert(names@.map_values(|n: &str| n@) =~= seq!["id"@, "phone"@, "text"@, "sent"@, "senttime"@, "delivery"@, "deliverytime"@]);
        names
    }

    /// Whether `name` is a property of the row.
    pub fn has_property(name: &str) -> (b: bool)
        ensures
            b == is_sms_output_property(name@),
    {
        same_text(name, "id") || same_text(name, "phone") || same_text(name, "text") || same_text(name, "sent") || same_text(name, "senttime") || same_text(name, "delivery") || same_text(name, "deliverytime")
    }

    /// Sets property `name` to `value`.
    pub fn set_property(&mut self, name: &str, value: Option<String>)
        requires
            is_sms_output_property(name@),
        ensures
            *final(self) == set_sms_output_property(*old(self), name@, value),
    {
        if same_text(name, "id") {
            self.id = value;
        } else if same_text(name, "phone") {
            self.phone = value;
        } else if same_text(name, "text") {
            self.text = value;
        } else if same_text(name, "sent") {
            self.sent = value;
        } else if same_text(name, "senttime") {
            self.senttime = value;
        } else if same_text(name, "delivery") {
            self.delivery = value;
        } else if same_text(name, "deliverytime") {
            self.deliverytime = value;
        }
    }

    /// The value of property `name`.
    pub fn property(&self, name: &str) -> (v: Option<String>)
        requires
            is_sms_output_property(name@),
        ensures
            v == get_sms_output_property(*self, name@),
    {
        if same_text(name, "id") {
            copy_text(&self.id)
        } else if same_text(name, "phone") {
            copy_text(&self.phone)
        } else if same_text(name, "text") {
            copy_text(&self.text)
        } else if same_text(name, "sent") {
            copy_text(&self.sent)
        } else if same_text(name, "senttime") {
            copy_text(&self.senttime)
        } else if same_text(name, "delivery") {
            copy_text(&self.delivery)
        } else if same_text(name, "deliverytime") {
            copy_text(&self.deliverytime)
        } else {
            None
        }
    }
}

/// Reading a property gives back what was set there, and setting one
/// property leaves the others as they were.
pub proof fn lemma_sms_output_read_after_set(f: SmsOutputFields, n: Seq<char>, m: Seq<char>, v: Option<String>)
    requires
        n == "id"@ || n == "phone"@ || n == "text"@ || n == "sent"@ || n == "senttime"@ || n == "delivery"@ || n == "deliverytime"@,
        is_sms_output_property(m),
    ensures
        get_sms_output_property(set_sms_output_property(f, n, v), n) == v,
        m != n ==> get_sms_output_property(set_sms_output_property(f, n, v), m) == get_sms_output_property(f, m),
{
    reveal_strlit("id");
    reveal_strlit("phone");
    reveal_strlit("text");
    reveal_strlit("sent");
    reveal_strlit("senttime");
    reveal_strlit("delivery");
    reveal_strlit("deliverytime");
}

/// The properties of an entry of the exchange log.
#[derive(Clone, Debug, PartialEq, Eq, Default)]
pub struct LogFields {
    pub log: Option<String>,
}

/// The property names of an entry of the exchange log.
pub open spec fn is_log_property(n: Seq<char>) -> bool {
    n == "log"@
}

/// The row after setting property `n` to `v`.
pub open spec fn set_log_property(f: LogFields, n: Seq<char>, v: Option<String>) -> LogFields {
    if n == "log"@ {
        LogFields { log: v, ..f }
    } else {
        f
    }
}

/// The value read from property `n`.
pub open spec fn get_log_property(f: LogFields, n: Seq<char>) -> Option<String> {
    if n == "log"@ {
        f.log
    } else {
        None
    }
}

impl LogFields {
    /// A row with every property empty.
    pub fn new() -> (f: LogFields)
        ensures
            f.log is None,
    {
        LogFields { log: None }
    }

    /// The property names, in their declared order.
    pub fn property_names() -> (names: Vec<&'static str>)
        ensures
            names@.map_values(|n: &str| n@) == seq!["log"@],
    {
        let names = vec!["log"];
        assert(names@.map_values(|n: &str| n@) =~= seq!["log"@]);
        names
    }

    /// Whether `name` is a property of the row.
    pub fn has_property(name: &str) -> (b: bool)
        ensures
            b == is_log_property(name@),
    {
        same_text(name, "log")
    }

    /// Sets property `name` to `value`.
    pub fn set_property(&mut self, name: &str, value: Option<String>)
        requires
            is_log_property(name@),
        ensures
            *final(self) == set_log_property(*old(self), name@, value),
    {
        if same_text(name, "log") {
            self.log = value;
        }
    }

    /// The value of property `name`.
    pub fn property(&self, name: &str) -> (v: Option<String>)
        requires
            is_log_property(name@),
        ensures
            v == get_log_property(*self, name@),
    {
        if same_text(name, "log") {
            copy_text(&self.log)
        } else {
            None
        }
    }
}

/// Reading a property gives back what was set there, and setting one
/// property leaves the others as they were.
pub proof fn lemma_log_read_after_set(f: LogFields, n: Seq<char>, m: Seq<char>, v: Option<String>)
    requires
        n == "log"@,
        is_log_property(m),
    ensures
        get_log_property(set_log_property(f, n, v), n) == v,
        m != n ==> get_log_property(set_log_property(f, n, v), m) == get_log_property(f, m),
{
    reveal_strlit("log");
}

} // verus!
