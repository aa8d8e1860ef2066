//! The SQL text that mirrors the phone's data in the local database.
//!
//! Values are placed between the quotes as they are, without escaping,
//! the way the database has always been written.

use vstd::prelude::*;
use crate::contact::{spaced, string_views, Contact};
use crate::phone::Phone;
use crate::sms_input::Sms;

verus! {

/// The statement that stores one received message.
pub open spec fn sms_input_insert(id: Seq<char>, phone: Seq<char>, time: Seq<char>, body: Seq<char>) -> Seq<char> {
    "INSERT INTO sms_input (id_na_android, phone, time, body) VALUES (\""@ + id + "\", \""@ + phone
        + "\", \""@ + time + "\", \""@ + body + "\");"@
}

/// The statements that store received messages, in order.
pub open spec fn sms_input_inserts(sms: Seq<Sms>) -> Seq<char>
    decreases sms.len(),
{
    if sms.len() == 0 {
        Seq::empty()
    } else {
        let m = sms.last();
        sms_input_inserts(sms.drop_last()) + sms_input_insert(m.id@, m.phone@, m.time@, m.body@)
    }
}

/// The statement that stores one address-book entry.
pub open spec fn contact_insert(name: Seq<char>, phones: Seq<char>) -> Seq<char> {
    "INSERT INTO contact (name, phone) VALUES (\""@ + name + "\", \""@ + phones + "\");"@
}

/// The statements that store address-book entries, in order.
pub open spec fn contact_inserts(contacts: Seq<Contact>) -> Seq<char>
    decreases contacts.len(),
{
    if contacts.len() == 0 {
        Seq::empty()
    } else {
        let c = contacts.last();
        contact_inserts(contacts.drop_last()) + contact_insert(c.name@, spaced(string_views(c.phone@)))
    }
}

/// What precedes the entries of a fresh address book: the old entries and
/// their numbering go, and a transaction starts.
pub open spec fn contacts_reset() -> Seq<char> {
    " DELETE FROM contact;\n        UPDATE sqlite_sequence SET seq=0 WHERE name='contact'; BEGIN TRANSACTION;"@
}

/// The statement that stores one call: a call with a number keeps the
/// number and the state `_`; a call without one keeps `-` and its state.
pub open spec fn call_insert(call: Phone) -> Seq<char> {
    if call.phone@.len() > 0 {
        "INSERT INTO phone_input (id_na_android, phone, time, status) VALUES (\""@ + call.id@ + "\", \""@
            + call.phone@ + "\", \""@ + call.time@ + "\", \"_\");"@
    } else {
        "INSERT INTO phone_input (id_na_android, phone, time, status) VALUES (\""@ + call.id@
            + "\", \"-\", \""@ + call.time@ + "\", \""@ + call.status@ + "\");"@
    }
}

/// The statements that store calls, in order.
pub open spec fn call_inserts(calls: Seq<Phone>) -> Seq<char>
    decreases calls.len(),
{
    if calls.len() == 0 {
        Seq::empty()
    } else {
        call_inserts(calls.drop_last()) + call_insert(calls.last())
    }
}

/// `sms_input_inserts` of two lists joined is the two results joined.
proof fn lemma_sms_input_inserts_append(a: Seq<Sms>, b: Seq<Sms>)
    ensures
        sms_input_inserts(a + b) == sms_input_inserts(a) + sms_input_inserts(b),
    decreases b.len(),
{
    if b.len() == 0 {
        assert(a + b =~= a);
        assert(sms_input_inserts(a) + sms_input_inserts(b) =~= sms_input_inserts(a));
    } else {
        lemma_sms_input_inserts_append(a, b.drop_last());
        assert((a + b).drop_last() =~= a + b.drop_last());
        assert((a + b).last() == b.last());
        let x = b.last();
        assert(sms_input_inserts(a + b) =~= sms_input_inserts(a) + (sms_input_inserts(b.drop_last()) + sms_input_insert(x.id@, x.phone@, x.time@, x.body@)));
    }
}

/// `sms_input_inserts` splits around any one element `k`.
proof fn lemma_sms_input_inserts_split(s: Seq<Sms>, k: int)
    requires
        0 <= k < s.len(),
    ensures
        sms_input_inserts(s) == sms_input_inserts(s.take(k)) + sms_input_insert(s[k].id@, s[k].phone@, s[k].time@, s[k].body@) + sms_input_inserts(s.skip(k + 1)),
{
    let x = s[k];
    assert(s =~= s.take(k) + seq![x] + s.skip(k + 1));
    lemma_sms_input_inserts_append(s.take(k) + seq![x], s.skip(k + 1));
    lemma_sms_input_inserts_append(s.take(k), seq![x]);
    assert(seq![x].drop_last() =~= Seq::<Sms>::empty());
    assert(seq![x].last() == x);
    assert(sms_input_inserts(Seq::<Sms>::empty()) == Seq::<char>::empty());
    assert(sms_input_inserts(seq![x]) =~= sms_input_insert(x.id@, x.phone@, x.time@, x.body@));
    assert(sms_input_inserts(s) =~= sms_input_inserts(s.take(k)) + sms_input_insert(x.id@, x.phone@, x.time@, x.body@) + sms_input_inserts(s.skip(k + 1)));
}
/// `contact_inserts` of two lists joined is the two results joined.
proof fn lemma_contact_inserts_append(a: Seq<Contact>, b: Seq<Contact>)
    ensures
        contact_inserts(a + b) == contact_inserts(a) + contact_inserts(b),
    decreases b.len(),
{
    if b.len() == 0 {
        assert(a + b =~= a);
        assert(contact_inserts(a) + contact_inserts(b) =~= contact_inserts(a));
    } else {
        lemma_contact_inserts_append(a, b.drop_last());
        assert((a + b).drop_last() =~= a + b.drop_last());
        assert((a + b).last() == b.last());
        let x = b.last();
        assert(contact_inserts(a + b) =~= contact_inserts(a) + (contact_inserts(b.drop_last()) + contact_insert(x.name@, spaced(string_views(x.phone@)))));
    }
}

/// `contact_inserts` splits around any one element `k`.
proof fn lemma_contact_inserts_split(s: Seq<Contact>, k: int)
    requires
        0 <= k < s.len(),
    ensures
        contact_inserts(s) == contact_inserts(s.take(k)) + contact_insert(s[k].name@, spaced(string_views(s[k].phone@))) + contact_inserts(s.skip(k + 1)),
{
    let x = s[k];
    assert(s =~= s.take(k) + seq![x] + s.skip(k + 1));
    lemma_contact_inserts_append(s.take(k) + seq![x], s.skip(k + 1));
    lemma_contact_inserts_append(s.take(k), seq![x]);
    assert(seq![x].drop_last() =~= Seq::<Contact>::empty());
    assert(seq![x].last() == x);
    assert(contact_inserts(Seq::<Contact>::empty()) == Seq::<char>::empty());
    assert(contact_inserts(seq![x]) =~= contact_insert(x.name@, spaced(string_views(x.phone@))));
    assert(contact_inserts(s) =~= contact_inserts(s.take(k)) + contact_insert(x.name@, spaced(string_views(x.phone@))) + contact_inserts(s.skip(k + 1)));
}
/// `call_inserts` of two lists joined is the two results joined.
proof fn lemma_call_inserts_append(a: Seq<Phone>, b: Seq<Phone>)
    ensures
        call_inserts(a + b) == call_inserts(a) + call_inserts(b),
    decreases b.len(),
{
    if b.len() == 0 {
        assert(a + b =~= a);
        assert(call_inserts(a) + call_inserts(b) =~= call_inserts(a));
    } else {
        lemma_call_inserts_append(a, b.drop_last());
        assert((a + b).drop_last() =~= a + b.drop_last());
        assert((a + b).last() == b.last());
        let x = b.last();
        assert(call_inserts(a + b) =~= call_inserts(a) + (call_inserts(b.drop_last()) + call_insert(x)));
    }
}

/// `call_inserts` splits around any one element `k`.
proof fn lemma_call_inserts_split(s: Seq<Phone>, k: int)
    requires
        0 <= k < s.len(),
    ensures
        call_inserts(s) == call_inserts(s.take(k)) + call_insert(s[k]) + call_inserts(s.skip(k + 1)),
{
    let x = s[k];
    assert(s =~= s.take(k) + seq![x] + s.skip(k + 1));
    lemma_call_inserts_append(s.take(k) + seq![x], s.skip(k + 1));
    lemma_call_inserts_append(s.take(k), seq![x]);
    assert(seq![x].drop_last() =~= Seq::<Phone>::empty());
    assert(seq![x].last() == x);
    assert(call_inserts(Seq::<Phone>::empty()) == Seq::<char>::empty());
    assert(call_inserts(seq![x]) =~= call_insert(x));
    assert(call_inserts(s) =~= call_inserts(s.take(k)) + call_insert(x) + call_inserts(s.skip(k + 1)));
}

/// The script of received messages is one transaction holding, for every
/// message and in order, exactly one statement that stores that message's
/// id, number, time and text as they are, whatever the other messages
/// hold.
pub proof fn lemma_sms_input_script_statements(sms: Seq<Sms>, k: int)
    requires
        0 <= k < sms.len(),
    ensures
        transaction(sms_input_inserts(sms)) == "BEGIN TRANSACTION;"@ + sms_input_inserts(sms) + "COMMIT;"@,
        sms_input_inserts(Seq::<Sms>::empty()) == Seq::<char>::empty(),
        sms_input_inserts(sms) == sms_input_inserts(sms.take(k))
            + ("INSERT INTO sms_input (id_na_android, phone, time, body) VALUES (\""@ + sms[k].id@ + "\", \""@
            + sms[k].phone@ + "\", \""@ + sms[k].time@ + "\", \""@ + sms[k].body@ + "\");"@)
            + sms_input_inserts(sms.skip(k + 1)),
{
    lemma_sms_input_inserts_split(sms, k);
}

/// The address-book script holds, for every entry and in order, exactly
/// one statement that stores the entry's name as it is and its numbers as
/// `spaced` writes them, whatever the other entries hold.
pub proof fn lemma_contacts_script_statements(contacts: Seq<Contact>, k: int)
    requires
        0 <= k < contacts.len(),
    ensures
        contacts_reset() + contact_inserts(contacts) + "COMMIT;"@ == " DELETE FROM contact;\n        UPDATE sqlite_sequence SET seq=0 WHERE name='contact'; BEGIN TRANSACTION;"@
            + contact_inserts(contacts) + "COMMIT;"@,
        contact_inserts(Seq::<Contact>::empty()) == Seq::<char>::empty(),
        contact_inserts(contacts) == contact_inserts(contacts.take(k))
            + ("INSERT INTO contact (name, phone) VALUES (\""@ + contacts[k].name@ + "\", \""@
            + spaced(string_views(contacts[k].phone@)) + "\");"@)
            + contact_inserts(contacts.skip(k + 1)),
{
    lemma_contact_inserts_split(contacts, k);
}

/// The call script is one transaction holding, for every call and in
/// order, exactly one statement. A call with a number, of any length, is
/// stored with that number as it is and the state `_`; a call without a
/// number is stored with `-` and its state. Which form a call gets depends
/// only on whether its number is empty.
pub proof fn lemma_calls_script_statements(calls: Seq<Phone>, k: int)
    requires
        0 <= k < calls.len(),
    ensures
        transaction(call_inserts(calls)) == "BEGIN TRANSACTION;"@ + call_inserts(calls) + "COMMIT;"@,
        call_inserts(Seq::<Phone>::empty()) == Seq::<char>::empty(),
        calls[k].phone@.len() > 0 ==> call_inserts(calls) == call_inserts(calls.take(k))
            + ("INSERT INTO phone_input (id_na_android, phone, time, status) VALUES (\""@ + calls[k].id@
            + "\", \""@ + calls[k].phone@ + "\", \""@ + calls[k].time@ + "\", \"_\");"@)
            + call_inserts(calls.skip(k + 1)),
        calls[k].phone@.len() == 0 ==> call_inserts(calls) == call_inserts(calls.take(k))
            + ("INSERT INTO phone_input (id_na_android, phone, time, status) VALUES (\""@ + calls[k].id@
            + "\", \"-\", \""@ + calls[k].time@ + "\", \""@ + calls[k].status@ + "\");"@)
            + call_inserts(calls.skip(k + 1)),
{
    lemma_call_inserts_split(calls, k);
}

/// One transaction around `body`.
pub open spec fn transaction(body: Seq<char>) -> Seq<char> {
    "BEGIN TRANSACTION;"@ + body + "COMMIT;"@
}

/// The script that stores the received messages: one transaction with a
/// statement per message, in order.
pub fn sms_input_script(sms: &Vec<Sms>) -> (script: String)
    ensures
        script@ == transaction(sms_input_inserts(sms@)),
{
    let mut body = String::new();
    let mut i: usize = 0;
    while i < sms.len()
        invariant
            0 <= i <= sms.len(),
            body@ == sms_input_inserts(sms@.take(i as int)),
        decreases sms.len() - i,
    {
        let m = &sms[i];
        let ghost before = body@;
        body.append("INSERT INTO sms_input (id_na_android, phone, time, body) VALUES (\"");
        body.append(m.id.as_str());
        body.append("\", \"");
        body.append(m.phone.as_str());
        body.append("\", \"");
        body.append(m.time.as_str());
        body.append("\", \"");
        body.append(m.body.as_str());
        body.append("\");");
        proof {
            assert(sms@.take(i + 1).drop_last() =~= sms@.take(i as int));
            assert(body@ =~= before + sms_input_insert(m.id@, m.phone@, m.time@, m.body@));
        }
        i = i + 1;
    }
    assert(sms@.take(sms.len() as int) =~= sms@);
    let mut script = String::from_str("BEGIN TRANSACTION;");
    script.append(body.as_str());
    script.append("COMMIT;");
    script
}

/// The script that replaces the stored address book with `contacts`: the
/// old entries go, then one transaction with a statement per entry, its
/// numbers each followed by a space.
pub fn contacts_script(contacts: &Vec<Contact>) -> (script: String)
    ensures
        script@ == contacts_reset() + contact_inserts(contacts@) + "COMMIT;"@,
{
    let mut body = String::new();
    let mut i: usize = 0;
    while i < contacts.len()
        invariant
            0 <= i <= contacts.len(),
            body@ == contact_inserts(contacts@.take(i as int)),
        decreases contacts.len() - i,
    {
        let c = &contacts[i];
        let phones = c.phone_text();
        let ghost before = body@;
        body.append("INSERT INTO contact (name, phone) VALUES (\"");
        body.append(c.name.as_str());
        body.append("\", \"");
        body.append(phones.as_str());
        body.append("\");");
        proof {
            assert(contacts@.take(i + 1).drop_last() =~= contacts@.take(i as int));
            assert(body@ =~= before + contact_insert(c.name@, spaced(string_views(c.phone@))));
        }
        i = i + 1;
    }
    assert(contacts@.take(contacts.len() as int) =~= contacts@);
    let mut script = String::from_str(
        " DELETE FROM contact;\n        UPDATE sqlite_sequence SET seq=0 WHERE name='contact'; BEGIN TRANSACTION;",
    );
    script.append(body.as_str());
    script.append("COMMIT;");
    script
}

/// The script that stores the calls: one transaction with a statement per
/// call, in order.
pub fn calls_script(calls: &Vec<Phone>) -> (script: String)
    ensures
        script@ == transaction(call_inserts(calls@)),
{
    let mut body = String::new();
    let mut i: usize = 0;
    while i < calls.len()
        invariant
            0 <= i <= calls.len(),
            body@ == call_inserts(calls@.take(i as int)),
        decreases calls.len() - i,
    {
        let c = &calls[i];
        let ghost before = body@;
        body.append("INSERT INTO phone_input (id_na_android, phone, time, status) VALUES (\"");
        body.append(c.id.as_str());
        if !c.phone.as_str().is_empty() {
            body.append("\", \"");
            body.append(c.phone.as_str());
            body.append("\", \"");
            body.append(c.time.as_str());
            body.append("\", \"_\");");
        } else {
            body.append("\", \"-\", \"");
            body.append(c.time.as_str());
            body.append("\", \"");
            body.append(c.status.as_str());
            body.append("\");");
        }
        proof {
            assert(calls@.take(i + 1).drop_last() =~= calls@.take(i as int));
            assert(body@ =~= before + call_insert(*c));
        }
        i = i + 1;
    }
    assert(calls@.take(calls.len() as int) =~= calls@);
    let mut script = String::from_str("BEGIN TRANSACTION;");
    script.append(body.as_str());
    script.append("COMMIT;");
    script
}

/// The statement that stores a message about to be sent, with every status
/// still `none`.
pub fn sms_output_insert(phone: &str, text: &str) -> (statement: String)
    ensures
        statement@ == "INSERT INTO sms_output (phone, text, sent, sent_time, delivery, delivery_time) VALUES (\""@
            + phone@ + "\", \""@ + text@ + "\", \"none\", \"none\", \"none\", \"none\");"@,
{
    let mut s = String::from_str(
        "INSERT INTO sms_output (phone, text, sent, sent_time, delivery, delivery_time) VALUES (\"",
    );
    s.append(phone);
    s.append("\", \"");
    s.append(text);
    s.append("\", \"none\", \"none\", \"none\", \"none\");");
    s
}

/// The statement that records a sent message's status under its local id.
pub fn sms_output_status_update(
    sent: &str,
    sent_time: &str,
    delivery: &str,
    delivery_time: &str,
    id: &str,
) -> (statement: String)
    ensures
        statement@ == "UPDATE sms_output SET sent='"@ + sent@ + "', sent_time='"@ + sent_time@
            + "', delivery='"@ + delivery@ + "', delivery_time='"@ + delivery_time@ + "' WHERE _id="@ + id@,
{
    let mut s = String::from_str("UPDATE sms_output SET sent='");
    s.append(sent);
    s.append("', sent_time='");
    s.append(sent_time);
    s.append("', delivery='");
    s.append(delivery);
    s.append("', delivery_time='");
    s.append(delivery_time);
    s.append("' WHERE _id=");
    s.append(id);
    s
}

/// `_id=<id>` for every id, joined by ` OR `.
pub open spec fn id_filter(ids: Seq<Seq<char>>) -> Seq<char>
    decreases ids.len(),
{
    if ids.len() == 0 {
        Seq::empty()
    } else if ids.len() == 1 {
        "_id="@ + ids[0]
    } else {
        id_filter(ids.drop_last()) + " OR "@ + "_id="@ + ids.last()
    }
}

/// The filter `_id=a OR _id=b OR ...` over `ids`.
pub fn id_filter_text(ids: &Vec<String>) -> (filter: String)
    ensures
        filter@ == id_filter(string_views(ids@)),
{
    let ghost views = string_views(ids@);
    let mut f = String::new();
    let mut i: usize = 0;
    while i < ids.len()
        invariant
            0 <= i <= ids.len(),
            views == string_views(ids@),
            f@ == id_filter(views.take(i as int)),
        decreases ids.len() - i,
    {
        let ghost before = f@;
        if i > 0 {
            f.append(" OR ");
        }
        f.append("_id=");
        f.append(ids[i].as_str());
        proof {
            assert(views.take(i + 1).drop_last() =~= views.take(i as int));
            assert(views[i as int] == ids@[i as int]@);
            if i == 0 {
                assert(before =~= Seq::<char>::empty());
                assert(views.take(1)[0] == views[0]);
            }
        }
        i = i + 1;
    }
    assert(views.take(ids.len() as int) =~= views);
    f
}

/// Which records to clear once they are stored locally: for every stored
/// row still marked with a phone id, the phone's id and the local id.
/// With no such row there is nothing to clear. Otherwise the phone is
/// asked to clear `_id=<phone id> OR ...`, and the local rows matched by
/// `_id=<local id> OR ...` are then unmarked.
pub fn clearing_filters(rows: &Vec<(String, String)>) -> (r: Option<(String, String)>)
    ensures
        rows@.len() == 0 <==> r is None,
        r matches Some((remote, local)) ==> remote@ == id_filter(rows@.map_values(|p: (String, String)| p.0@))
            && local@ == id_filter(rows@.map_values(|p: (String, String)| p.1@)),
{
    if rows.len() == 0 {
        return None;
    }
    let mut remote_ids: Vec<String> = Vec::new();
    let mut local_ids: Vec<String> = Vec::new();
    let mut i: usize = 0;
    while i < rows.len()
        invariant
            0 <= i <= rows.len(),
            remote_ids@.len() == i,
            local_ids@.len() == i,
            forall|j: int| 0 <= j < i ==> #[trigger] remote_ids@[j] == rows@[j].0,
            forall|j: int| 0 <= j < i ==> #[trigger] local_ids@[j] == rows@[j].1,
        decreases rows.len() - i,
    {
        remote_ids.push(rows[i].0.clone());
        local_ids.push(rows[i].1.clone());
        i = i + 1;
    }
    assert(string_views(remote_ids@) =~= rows@.map_values(|p: (String, String)| p.0@));
    assert(string_views(local_ids@) =~= rows@.map_values(|p: (String, String)| p.1@));
    Some((id_filter_text(&remote_ids), id_filter_text(&local_ids)))
}

/// The statement that unmarks the local rows of `table` that `filter`
/// selects, once the phone has cleared them.
pub fn unmark_statement(table: &str, filter: &str) -> (statement: String)
    ensures
        statement@ == "UPDATE "@ + table@ + " SET id_na_android=0 WHERE "@ + filter@,
{
    let mut s = String::from_str("UPDATE ");
    s.append(table);
    s.append(" SET id_na_android=0 WHERE ");
    s.append(filter);
    s
}

} // verus!
