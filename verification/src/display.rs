//! How calls and address-book lookups are shown.

use vstd::prelude::*;
use crate::text::same_text;

verus! {

/// The icon of a line state: `IDLE` and `RINGING` have one, other states
/// none.
pub open spec fn status_icon_of(status: Seq<char>) -> Seq<char> {
    if status == "IDLE"@ {
        "📱"@
    } else if status == "RINGING"@ {
        "📲"@
    } else {
        ""@
    }
}

/// The icon of a line state.
pub fn status_icon(status: &str) -> (icon: &'static str)
    ensures
        icon@ == status_icon_of(status@),
{
    if same_text(status, "IDLE") {
        "📱"
    } else if same_text(status, "RINGING") {
        "📲"
    } else {
        ""
    }
}

/// The text a call shows in the list of calls: the contact's name with the
/// number in brackets when the number belongs to a known contact, the bare
/// number otherwise, then a space and the state's icon; a call without a
/// number shows the icon alone.
pub open spec fn call_label_of(phone: Seq<char>, name: Seq<char>, status: Seq<char>) -> Seq<char> {
    if phone.len() == 0 {
        status_icon_of(status)
    } else if name.len() > 0 {
        name + "("@ + phone + ") "@ + status_icon_of(status)
    } else {
        phone + " "@ + status_icon_of(status)
    }
}


/// How a call's label is made, for every number, name and state: a call
/// with a number and a known name shows the name, the number in brackets,
/// a space and what a call without number shows; with a number and no
/// name, the number, a space and the same; a call without number shows
/// its state's icon, whatever the name: `📱` for `IDLE`, `📲` for
/// `RINGING`, nothing for any other state.
pub proof fn lemma_call_label_forms(phone: Seq<char>, name: Seq<char>, status: Seq<char>)
    ensures
        phone.len() > 0 && name.len() > 0 ==> call_label_of(phone, name, status) == name + "("@ + phone + ") "@
            + call_label_of(Seq::empty(), name, status),
        phone.len() > 0 && name.len() == 0 ==> call_label_of(phone, name, status) == phone + " "@
            + call_label_of(Seq::empty(), name, status),
        call_label_of(Seq::empty(), name, status) == call_label_of(Seq::empty(), Seq::empty(), status),
        status == "IDLE"@ ==> call_label_of(Seq::empty(), name, status) == "📱"@,
        status == "RINGING"@ ==> call_label_of(Seq::empty(), name, status) == "📲"@,
        status != "IDLE"@ && status != "RINGING"@ ==> call_label_of(Seq::empty(), name, status) == Seq::<char>::empty(),
{
    reveal_strlit("IDLE");
    reveal_strlit("RINGING");
    reveal_strlit("");
    assert("IDLE"@.len() == 4);
    assert("RINGING"@.len() == 7);
}

/// The text a call shows in the list of calls; `name` is the contact the
/// number was found under (empty when none).
pub fn call_label(phone: &str, name: &str, status: &str) -> (label: String)
    ensures
        label@ == call_label_of(phone@, name@, status@),
{
    let icon = status_icon(status);
    if phone.is_empty() {
        return String::from_str(icon);
    }
    let mut label = String::new();
    if !name.is_empty() {
        label.append(name);
        label.append("(");
        label.append(phone);
        label.append(") ");
    } else {
        label.append(phone);
        label.append(" ");
    }
    label.append(icon);
    label
}

/// The query for the contacts whose numbers contain `pattern`.
pub fn contact_lookup_query(pattern: &str) -> (query: String)
    ensures
        query@ == "SELECT name FROM contact WHERE phone LIKE '%"@ + pattern@ + "%' "@,
{
    let mut q = String::from_str("SELECT name FROM contact WHERE phone LIKE '%");
    q.append(pattern);
    q.append("%' ");
    q
}

/// The pattern of the second lookup of a number that could not be looked
/// up: the number without its first character.
pub fn retry_pattern(phone: &str) -> (pattern: &str)
    requires
        phone@.len() > 0,
        (phone@[0] as u32) < 0x80,
    ensures
        pattern@ == phone@.drop_first(),
{
    let n = phone.unicode_len();
    phone.substring_char(1, n)
}

/// What follows the first lookup of the contact a number belongs to.
pub enum PhoneLookup {
    /// The lookup went through: this is the name (empty when no contact
    /// has the number).
    Found(String),
    /// The lookup failed: look again with this pattern.
    Retry(String),
}

/// Decides after the first lookup of `phone`: a lookup that went through
/// gives its name, even an empty one; a failed lookup is tried again
/// without the number's first character.
pub fn after_first_lookup<E>(phone: &str, first: Result<String, E>) -> (next: PhoneLookup)
    requires
        first is Err ==> phone@.len() > 0 && (phone@[0] as u32) < 0x80,
    ensures
        first matches Ok(name) ==> next == PhoneLookup::Found(name),
        first is Err ==> (next matches PhoneLookup::Retry(p) && p@ == phone@.drop_first()),
{
    match first {
        Ok(name) => PhoneLookup::Found(name),
        Err(_) => PhoneLookup::Retry(String::from_str(retry_pattern(phone))),
    }
}

/// Decides after the second lookup: its name, or no name when it failed
/// too.
pub fn after_second_lookup<E>(second: Result<String, E>) -> (name: String)
    ensures
        second matches Ok(n) ==> name == n,
        second is Err ==> name@ == Seq::<char>::empty(),
{
    match second {
        Ok(n) => n,
        Err(_) => String::new(),
    }
}

/// The name a lookup found: the name of its last row, or nothing when it
/// had no row; a row that cannot be read fails the lookup.
pub open spec fn found_name<E>(rows: Seq<Result<String, E>>) -> Result<Seq<char>, E>
    decreases rows.len(),
{
    if rows.len() == 0 {
        Ok(Seq::empty())
    } else {
        match found_name(rows.drop_last()) {
            Err(e) => Err(e),
            Ok(_) => match rows.last() {
                Ok(name) => Ok(name@),
                Err(e) => Err(e),
            },
        }
    }
}

/// The name a lookup found among the names read row by row.
pub fn find_phone_name<E>(rows: Vec<Result<String, E>>) -> (r: Result<String, E>)
    ensures
        r matches Ok(n) ==> found_name(rows@) == Ok::<Seq<char>, E>(n@),
        r matches Err(e) ==> found_name(rows@) == Err::<Seq<char>, E>(e),
{
    let ghost all = rows@;
    let mut name = String::new();
    let mut rest = rows;
    let mut i: usize = 0;
    let n = rest.len();
    while i < n
        invariant
            0 <= i <= n,
            n == all.len(),
            all == rows@,
            rest@ == all.skip(i as int),
            found_name(all.take(i as int)) == Ok::<Seq<char>, E>(name@),
        decreases n - i,
    {
        let row = rest.remove(0);
        proof {
            assert(row == all[i as int]);
            assert(all.take(i + 1).drop_last() =~= all.take(i as int));
            assert(rest@ =~= all.skip(i + 1));
        }
        match row {
            Ok(found) => {
                name = found;
            },
            Err(e) => {
                proof {
                    lemma_found_name_err(all, i as int);
                }
                return Err(e);
            },
        }
        i = i + 1;
    }
    assert(all.take(n as int) =~= all);
    Ok(name)
}

/// A row that cannot be read fails every lookup that reaches it.
proof fn lemma_found_name_err<E>(rows: Seq<Result<String, E>>, i: int)
    requires
        0 <= i < rows.len(),
        rows[i] is Err,
        found_name(rows.take(i)) is Ok,
    ensures
        found_name(rows) == Err::<Seq<char>, E>(rows[i]->Err_0),
    decreases rows.len(),
{
    if i < rows.len() - 1 {
        assert(rows.drop_last().take(i) =~= rows.take(i));
        assert(rows.drop_last()[i] == rows[i]);
        lemma_found_name_err(rows.drop_last(), i);
    } else {
        assert(rows.drop_last() =~= rows.take(i));
    }
}

} // verus!
