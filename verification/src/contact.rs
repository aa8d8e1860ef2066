//! The phone's address book.

use vstd::prelude::*;
use crate::command::{request_line, CommandSend};
use crate::exchange::{ActionView, Exchange, Action, Stage};

verus! {

/// One address-book entry: a name and its phone numbers.
#[derive(Clone, Debug, PartialEq, Eq, Default)]
pub struct Contact {
    pub name: String,
    pub phone: Vec<String>,
}

/// The address book as the phone sends it, with the phone's clock time.
#[derive(Clone, Debug, PartialEq, Eq, Default)]
pub struct Contacts {
    pub time: String,
    pub contact: Vec<Contact>,
}

/// A decoded address book together with the reply text it came from.
#[derive(Clone, Debug, PartialEq, Eq, Default)]
pub struct ContactLog {
    pub contacts: Contacts,
    pub json: String,
}

/// Each number followed by one space, in order.
pub open spec fn spaced(items: Seq<Seq<char>>) -> Seq<char>
    decreases items.len(),
{
    if items.len() == 0 {
        Seq::empty()
    } else {
        spaced(items.drop_last()) + items.last() + seq![' ']
    }
}

/// `spaced` of two lists joined is the two results joined.
proof fn lemma_spaced_append(a: Seq<Seq<char>>, b: Seq<Seq<char>>)
    ensures
        spaced(a + b) == spaced(a) + spaced(b),
    decreases b.len(),
{
    if b.len() == 0 {
        assert(a + b =~= a);
        assert(spaced(a) + spaced(b) =~= spaced(a));
    } else {
        lemma_spaced_append(a, b.drop_last());
        assert((a + b).drop_last() =~= a + b.drop_last());
        assert((a + b).last() == b.last());
        let x = b.last();
        assert(spaced(a + b) =~= spaced(a) + (spaced(b.drop_last()) + x + seq![' ']));
    }
}

/// `spaced` splits around any one element `k`.
proof fn lemma_spaced_split(s: Seq<Seq<char>>, k: int)
    requires
        0 <= k < s.len(),
    ensures
        spaced(s) == spaced(s.take(k)) + s[k] + seq![' '] + spaced(s.skip(k + 1)),
{
    let x = s[k];
    assert(s =~= s.take(k) + seq![x] + s.skip(k + 1));
    lemma_spaced_append(s.take(k) + seq![x], s.skip(k + 1));
    lemma_spaced_append(s.take(k), seq![x]);
    assert(seq![x].drop_last() =~= Seq::<Seq<char>>::empty());
    assert(seq![x].last() == x);
    assert(spaced(Seq::<Seq<char>>::empty()) == Seq::<char>::empty());
    assert(spaced(seq![x]) =~= x + seq![' ']);
    assert(spaced(s) =~= spaced(s.take(k)) + x + seq![' '] + spaced(s.skip(k + 1)));
}

/// The numbers text of a contact holds every number, in order and as it
/// is, each followed by exactly one space, and nothing else.
pub proof fn lemma_spaced_numbers(items: Seq<Seq<char>>, k: int)
    requires
        0 <= k < items.len(),
    ensures
        spaced(Seq::<Seq<char>>::empty()) == Seq::<char>::empty(),
        spaced(items) == spaced(items.take(k)) + items[k] + " "@ + spaced(items.skip(k + 1)),
{
    reveal_strlit(" ");
    lemma_spaced_split(items, k);
    assert(items[k] + seq![' '] == items[k] + " "@);
}

/// The views of a list of strings.
pub open spec fn string_views(items: Seq<String>) -> Seq<Seq<char>> {
    items.map_values(|s: String| s@)
}

impl Contact {
    /// The numbers of the contact as one text, each followed by a space,
    /// as the address-book list shows and stores them.
    pub fn phone_text(&self) -> (t: String)
        ensures
            t@ == spaced(string_views(self.phone@)),
    {
        let ghost items = string_views(self.phone@);
        let mut t = String::new();
        let mut i: usize = 0;
        while i < self.phone.len()
            invariant
                0 <= i <= self.phone.len(),
                items == string_views(self.phone@),
                t@ == spaced(items.take(i as int)),
            decreases self.phone.len() - i,
        {
            t.append(self.phone[i].as_str());
            t.append(" ");
            proof {
                reveal_strlit(" ");
                assert(items.take(i + 1).drop_last() =~= items.take(i as int));
            }
            i = i + 1;
        }
        assert(items.take(self.phone.len() as int) =~= items);
        t
    }
}

impl ContactLog {
    /// Starts the exchange that fetches the address book from the server at
    /// `address` (command `CONTACT`, empty parameter).
    pub fn connect(address: String) -> (r: (Exchange, Action))
        ensures
            r.0.stage() == Stage::Connecting,
            r.0.address() == address@,
            r.0.request() == request_line(CommandSend::CONTACT, ""@),
            r.1@ == ActionView::Connect(address@),
    {
        Exchange::start(address, CommandSend::CONTACT, "")
    }

    /// The log of a finished exchange: the decoded address book with its
    /// reply text, or the exchange's error message unchanged.
    pub fn finish(reply: Result<(Contacts, String), String>) -> (r: Result<ContactLog, String>)
        ensures
            match reply {
                Ok((contacts, json)) => r == Ok::<ContactLog, String>(ContactLog { contacts, json }),
                Err(e) => r == Err::<ContactLog, String>(e),
            },
    {
        match reply {
            Ok((contacts, json)) => Ok(ContactLog { contacts, json }),
            Err(e) => Err(e),
        }
    }
}

} // verus!
