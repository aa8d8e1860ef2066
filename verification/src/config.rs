//! The program's settings: named text values, kept in the local database's
//! `config` table.
//!
//! Reading the table and running the saving script are the caller's; this
//! module keeps the settings and writes the script.

use vstd::prelude::*;

verus! {

/// Settings keyed by name; every name occurs once.
pub struct Config {
    param: Vec<(String, String)>,
}

/// The views of name/value pairs.
pub open spec fn pair_views(pairs: Seq<(String, String)>) -> Seq<(Seq<char>, Seq<char>)> {
    pairs.map_values(|p: (String, String)| (p.0@, p.1@))
}

/// No name occurs twice.
pub open spec fn names_distinct(pairs: Seq<(Seq<char>, Seq<char>)>) -> bool {
    forall|i: int, j: int| 0 <= i < j < pairs.len() ==> #[trigger] pairs[i].0 != #[trigger] pairs[j].0
}

/// The map that a list of name/value pairs describes.
pub open spec fn pairs_to_map(pairs: Seq<(Seq<char>, Seq<char>)>) -> Map<Seq<char>, Seq<char>>
    decreases pairs.len(),
{
    if pairs.len() == 0 {
        Map::empty()
    } else {
        pairs_to_map(pairs.drop_last()).insert(pairs.last().0, pairs.last().1)
    }
}

/// The settings after storing `rows` one after another into `m`.
pub open spec fn apply_rows(m: Map<Seq<char>, Seq<char>>, rows: Seq<(Seq<char>, Seq<char>)>) -> Map<
    Seq<char>,
    Seq<char>,
>
    decreases rows.len(),
{
    if rows.len() == 0 {
        m
    } else {
        apply_rows(m, rows.drop_last()).insert(rows.last().0, rows.last().1)
    }
}

/// The statement that stores one setting.
pub open spec fn update_statement(name: Seq<char>, value: Seq<char>) -> Seq<char> {
    "UPDATE config SET value='"@ + value + "' WHERE name='"@ + name + "';"@
}

/// The statements that store every pair, in order.
pub open spec fn update_statements(pairs: Seq<(Seq<char>, Seq<char>)>) -> Seq<char>
    decreases pairs.len(),
{
    if pairs.len() == 0 {
        Seq::empty()
    } else {
        update_statements(pairs.drop_last()) + update_statement(pairs.last().0, pairs.last().1)
    }
}

/// `update_statements` of two lists joined is the two results joined.
proof fn lemma_update_statements_append(a: Seq<(Seq<char>, Seq<char>)>, b: Seq<(Seq<char>, Seq<char>)>)
    ensures
        update_statements(a + b) == update_statements(a) + update_statements(b),
    decreases b.len(),
{
    if b.len() == 0 {
        assert(a + b =~= a);
        assert(update_statements(a) + update_statements(b) =~= update_statements(a));
    } else {
        lemma_update_statements_append(a, b.drop_last());
        assert((a + b).drop_last() =~= a + b.drop_last());
        assert((a + b).last() == b.last());
        let x = b.last();
        assert(update_statements(a + b) =~= update_statements(a) + (update_statements(b.drop_last()) + update_statement(x.0, x.1)));
    }
}

/// `update_statements` splits around any one element `k`.
proof fn lemma_update_statements_split(s: Seq<(Seq<char>, Seq<char>)>, k: int)
    requires
        0 <= k < s.len(),
    ensures
        update_statements(s) == update_statements(s.take(k)) + update_statement(s[k].0, s[k].1) + update_statements(s.skip(k + 1)),
{
    let x = s[k];
    assert(s =~= s.take(k) + seq![x] + s.skip(k + 1));
    lemma_update_statements_append(s.take(k) + seq![x], s.skip(k + 1));
    lemma_update_statements_append(s.take(k), seq![x]);
    assert(seq![x].drop_last() =~= Seq::<(Seq<char>, Seq<char>)>::empty());
    assert(seq![x].last() == x);
    assert(update_statements(Seq::<(Seq<char>, Seq<char>)>::empty()) == Seq::<char>::empty());
    assert(update_statements(seq![x]) =~= update_statement(x.0, x.1));
    assert(update_statements(s) =~= update_statements(s.take(k)) + update_statement(x.0, x.1) + update_statements(s.skip(k + 1)));
}

/// The saving script is one transaction holding, for every setting and in
/// stored order, exactly one statement that gives the row of that name
/// the setting's value, both as they are (a value of any length is kept
/// whole).
pub proof fn lemma_save_script_statements(pairs: Seq<(Seq<char>, Seq<char>)>, k: int)
    requires
        0 <= k < pairs.len(),
    ensures
        save_script(pairs) == "BEGIN TRANSACTION;"@ + update_statements(pairs) + "COMMIT;"@,
        update_statements(Seq::<(Seq<char>, Seq<char>)>::empty()) == Seq::<char>::empty(),
        update_statements(pairs) == update_statements(pairs.take(k)) + ("UPDATE config SET value='"@
            + pairs[k].1 + "' WHERE name='"@ + pairs[k].0 + "';"@) + update_statements(pairs.skip(k + 1)),
{
    lemma_update_statements_split(pairs, k);
}

/// The saving script: one transaction that stores every pair.
pub open spec fn save_script(pairs: Seq<(Seq<char>, Seq<char>)>) -> Seq<char> {
    "BEGIN TRANSACTION;"@ + update_statements(pairs) + "COMMIT;"@
}

/// With distinct names, the map holds exactly the pairs.
pub proof fn lemma_pairs_to_map(pairs: Seq<(Seq<char>, Seq<char>)>)
    requires
        names_distinct(pairs),
    ensures
        forall|i: int|
            0 <= i < pairs.len() ==> #[trigger] pairs_to_map(pairs).contains_key(pairs[i].0)
                && pairs_to_map(pairs)[pairs[i].0] == pairs[i].1,
        forall|k: Seq<char>|
            #[trigger] pairs_to_map(pairs).contains_key(k) ==> exists|i: int| 0 <= i < pairs.len() && pairs[i].0 == k,
    decreases pairs.len(),
{
    if pairs.len() > 0 {
        let init = pairs.drop_last();
        assert(names_distinct(init)) by {
            assert forall|i: int, j: int| 0 <= i < j < init.len() implies #[trigger] init[i].0 != #[trigger] init[j].0 by {
                assert(init[i] == pairs[i]);
                assert(init[j] == pairs[j]);
            }
        }
        lemma_pairs_to_map(init);
        let m = pairs_to_map(pairs);
        assert forall|i: int| 0 <= i < pairs.len() implies #[trigger] m.contains_key(pairs[i].0) && m[pairs[i].0]
            == pairs[i].1 by {
            if i < pairs.len() - 1 {
                assert(init[i] == pairs[i]);
                assert(pairs_to_map(init).contains_key(init[i].0));
                assert(pairs[i].0 != pairs[pairs.len() - 1].0);
            }
        }
        assert forall|k: Seq<char>| #[trigger] m.contains_key(k) implies exists|i: int|
            0 <= i < pairs.len() && pairs[i].0 == k by {
            if k == pairs.last().0 {
                assert(pairs[pairs.len() - 1].0 == k);
            } else {
                assert(pairs_to_map(init).contains_key(k));
                let i = choose|i: int| 0 <= i < init.len() && init[i].0 == k;
                assert(pairs[i].0 == k);
            }
        }
    }
}

/// Maps with the same keys and values are equal.
proof fn lemma_map_by_pairs(pairs: Seq<(Seq<char>, Seq<char>)>, m: Map<Seq<char>, Seq<char>>)
    requires
        names_distinct(pairs),
        forall|i: int| 0 <= i < pairs.len() ==> #[trigger] m.contains_key(pairs[i].0) && m[pairs[i].0] == pairs[i].1,
        forall|k: Seq<char>| #[trigger] m.contains_key(k) ==> exists|i: int| 0 <= i < pairs.len() && pairs[i].0 == k,
    ensures
        pairs_to_map(pairs) == m,
{
    lemma_pairs_to_map(pairs);
    let p = pairs_to_map(pairs);
    assert forall|k: Seq<char>| p.contains_key(k) <==> m.contains_key(k) by {
        if p.contains_key(k) {
            let i = choose|i: int| 0 <= i < pairs.len() && pairs[i].0 == k;
            assert(m.contains_key(pairs[i].0));
        }
        if m.contains_key(k) {
            let i = choose|i: int| 0 <= i < pairs.len() && pairs[i].0 == k;
            assert(p.contains_key(pairs[i].0));
        }
    }
    assert forall|k: Seq<char>| #[trigger] p.contains_key(k) implies p[k] == m[k] by {
        let i = choose|i: int| 0 <= i < pairs.len() && pairs[i].0 == k;
        assert(p[pairs[i].0] == pairs[i].1);
    }
    assert(p =~= m);
}

impl View for Config {
    type V = Map<Seq<char>, Seq<char>>;

    closed spec fn view(&self) -> Map<Seq<char>, Seq<char>> {
        pairs_to_map(pair_views(self.param@))
    }
}

impl Config {
    /// The settings in the order they are stored.
    pub closed spec fn pairs(&self) -> Seq<(Seq<char>, Seq<char>)> {
        pair_views(self.param@)
    }

    /// Every name occurs once.
    pub closed spec fn wf(&self) -> bool {
        names_distinct(self.pairs())
    }

    /// The settings are the map of their pairs.
    pub proof fn lemma_view(&self)
        ensures
            self@ == pairs_to_map(self.pairs()),
    {
    }

    /// No settings yet.
    pub fn new() -> (c: Config)
        ensures
            c.wf(),
            c@ == Map::<Seq<char>, Seq<char>>::empty(),
            c.pairs() == Seq::<(Seq<char>, Seq<char>)>::empty(),
    {
        let c = Config { param: Vec::new() };
        assert(c.pairs() =~= Seq::<(Seq<char>, Seq<char>)>::empty());
        c
    }

    /// Where the setting `name` is stored, if it is.
    fn position(&self, name: &String) -> (r: Option<usize>)
        requires
            self.wf(),
        ensures
            match r {
                Some(i) => i < self.pairs().len() && self.pairs()[i as int].0 == name@,
                None => forall|i: int| 0 <= i < self.pairs().len() ==> self.pairs()[i].0 != name@,
            },
    {
        let mut i: usize = 0;
        while i < self.param.len()
            invariant
                0 <= i <= self.param.len(),
                self.pairs().len() == self.param.len(),
                forall|j: int| 0 <= j < i ==> self.pairs()[j].0 != name@,
            decreases self.param.len() - i,
        {
            if self.param[i].0 == *name {
                return Some(i);
            }
            i = i + 1;
        }
        None
    }

    /// The value of the setting `name`, if there is one.
    pub fn get(&self, name: &str) -> (r: Option<String>)
        requires
            self.wf(),
        ensures
            match r {
                Some(v) => self@.contains_key(name@) && v@ == self@[name@],
                None => !self@.contains_key(name@),
            },
    {
        proof {
            lemma_pairs_to_map(self.pairs());
        }
        let key = String::from_str(name);
        match self.position(&key) {
            Some(i) => {
                proof {
                    assert(self.pairs()[i as int] == (self.param@[i as int].0@, self.param@[i as int].1@));
                    assert(pairs_to_map(self.pairs()).contains_key(self.pairs()[i as int].0));
                }
                Some(self.param[i].1.clone())
            },
            None => None,
        }
    }

    /// Stores `value` under `name`, replacing what was stored there.
    pub fn insert(&mut self, name: String, value: String)
        requires
            old(self).wf(),
        ensures
            final(self).wf(),
            final(self)@ == old(self)@.insert(name@, value@),
            old(self)@.contains_key(name@) ==> final(self).pairs().len() == old(self).pairs().len(),
            !old(self)@.contains_key(name@) ==> final(self).pairs() == old(self).pairs().push((name@, value@)),
    {
        proof {
            lemma_pairs_to_map(self.pairs());
        }
        let ghost old_pairs = self.pairs();
        let ghost old_map = self@;
        let ghost (k, v) = (name@, value@);
        match self.position(&name) {
            Some(i) => {
                self.param.set(i, (name, value));
                proof {
                    let pairs = self.pairs();
                    assert(pairs =~= old_pairs.update(i as int, (k, v)));
                    assert(names_distinct(pairs)) by {
                        assert forall|a: int, b: int| 0 <= a < b < pairs.len() implies #[trigger] pairs[a].0
                            != #[trigger] pairs[b].0 by {
                            assert(old_pairs[a].0 != old_pairs[b].0);
                        }
                    }
                    let target = old_map.insert(k, v);
                    assert forall|j: int| 0 <= j < pairs.len() implies #[trigger] target.contains_key(pairs[j].0)
                        && target[pairs[j].0] == pairs[j].1 by {
                        if j != i {
                            assert(old_map.contains_key(old_pairs[j].0));
                        }
                    }
                    assert forall|key: Seq<char>| #[trigger] target.contains_key(key) implies exists|j: int|
                        0 <= j < pairs.len() && pairs[j].0 == key by {
                        if key == k {
                            assert(pairs[i as int].0 == key);
                        } else {
                            let j = choose|j: int| 0 <= j < old_pairs.len() && old_pairs[j].0 == key;
                            assert(pairs[j].0 == key);
                        }
                    }
                    lemma_map_by_pairs(pairs, target);
                }
            },
            None => {
                self.param.push((name, value));
                proof {
                    let pairs = self.pairs();
                    assert(pairs =~= old_pairs.push((k, v)));
                    assert(pairs.drop_last() =~= old_pairs);
                    assert(names_distinct(pairs)) by {
                        assert forall|a: int, b: int| 0 <= a < b < pairs.len() implies #[trigger] pairs[a].0
                            != #[trigger] pairs[b].0 by {
                            if b < old_pairs.len() {
                                assert(old_pairs[a].0 != old_pairs[b].0);
                            } else {
                                assert(old_pairs[a].0 != k);
                            }
                        }
                    }
                }
            },
        }
    }

    /// The value of the setting `name`; where there is none, `default` is
    /// stored under `name` first.
    pub fn get_or_insert(&mut self, name: &str, default: &str) -> (r: String)
        requires
            old(self).wf(),
        ensures
            final(self).wf(),
            old(self)@.contains_key(name@) ==> r@ == old(self)@[name@] && final(self)@ == old(self)@,
            !old(self)@.contains_key(name@) ==> r@ == default@ && final(self)@ == old(self)@.insert(
                name@,
                default@,
            ),
    {
        match self.get(name) {
            Some(v) => v,
            None => {
                self.insert(String::from_str(name), String::from_str(default));
                String::from_str(default)
            },
        }
    }

    /// The address of the phone server: the setting `ip`, which is first set
    /// to `192.168.1.91:38300` where there is none.
    pub fn server_address(&mut self) -> (address: String)
        requires
            old(self).wf(),
        ensures
            final(self).wf(),
            old(self)@.contains_key("ip"@) ==> address@ == old(self)@["ip"@] && final(self)@ == old(self)@,
            !old(self)@.contains_key("ip"@) ==> address@ == "192.168.1.91:38300"@ && final(self)@
                == old(self)@.insert("ip"@, "192.168.1.91:38300"@),
    {
        self.get_or_insert("ip", "192.168.1.91:38300")
    }

    /// Whether the privacy policy has been accepted: the setting `politic`
    /// is not empty. Where there is no such setting it is first set to the
    /// empty text.
    pub fn policy_accepted(&mut self) -> (accepted: bool)
        requires
            old(self).wf(),
        ensures
            final(self).wf(),
            old(self)@.contains_key("politic"@) ==> accepted == (old(self)@["politic"@].len() > 0)
                && final(self)@ == old(self)@,
            !old(self)@.contains_key("politic"@) ==> !accepted && final(self)@ == old(self)@.insert(
                "politic"@,
                ""@,
            ),
    {
        let v = self.get_or_insert("politic", "");
        proof {
            reveal_strlit("");
        }
        !v.as_str().is_empty()
    }

    /// Stores the rows read from the `config` table, one after another; a
    /// name that occurs twice keeps its later value.
    pub fn load(&mut self, rows: Vec<(String, String)>)
        requires
            old(self).wf(),
        ensures
            final(self).wf(),
            final(self)@ == apply_rows(old(self)@, pair_views(rows@)),
    {
        let ghost start = self@;
        let ghost views = pair_views(rows@);
        let mut i: usize = 0;
        while i < rows.len()
            invariant
                0 <= i <= rows.len(),
                self.wf(),
                views == pair_views(rows@),
                self@ == apply_rows(start, views.take(i as int)),
            decreases rows.len() - i,
        {
            let name = rows[i].0.clone();
            let value = rows[i].1.clone();
            proof {
                assert(views.take(i + 1).drop_last() =~= views.take(i as int));
                assert(views[i as int] == (rows@[i as int].0@, rows@[i as int].1@));
            }
            self.insert(name, value);
            i = i + 1;
        }
        assert(views.take(rows.len() as int) =~= views);
    }

    /// The script that stores every setting in the `config` table, as one
    /// transaction, a statement per setting in stored order.
    pub fn save(&self) -> (script: String)
        ensures
            script@ == save_script(self.pairs()),
    {
        let ghost pairs = self.pairs();
        let mut script = String::from_str("BEGIN TRANSACTION;");
        let mut body = String::new();
        let mut i: usize = 0;
        while i < self.param.len()
            invariant
                0 <= i <= self.param.len(),
                pairs == self.pairs(),
                body@ == update_statements(pairs.take(i as int)),
            decreases self.param.len() - i,
        {
            body.append("UPDATE config SET value='");
            body.append(self.param[i].1.as_str());
            body.append("' WHERE name='");
            body.append(self.param[i].0.as_str());
            body.append("';");
            proof {
                assert(pairs.take(i + 1).drop_last() =~= pairs.take(i as int));
                assert(pairs[i as int] == (self.param@[i as int].0@, self.param@[i as int].1@));
            }
            i = i + 1;
        }
        assert(pairs.take(self.param.len() as int) =~= pairs);
        script.append(body.as_str());
        script.append("COMMIT;");
        script
    }
}

/// The saving script covers the settings exactly: every setting has its
/// statement with its value, every statement is for a setting with that
/// value, and no name has two statements.
pub proof fn lemma_save_covers_settings(c: &Config)
    requires
        c.wf(),
    ensures
        names_distinct(c.pairs()),
        forall|k: Seq<char>|
            #[trigger] c@.contains_key(k) ==> exists|i: int|
                0 <= i < c.pairs().len() && c.pairs()[i] == (k, c@[k]),
        forall|i: int|
            0 <= i < c.pairs().len() ==> #[trigger] c@.contains_key(c.pairs()[i].0) && c@[c.pairs()[i].0]
                == c.pairs()[i].1,
{
    c.lemma_view();
    lemma_pairs_to_map(c.pairs());
    assert forall|k: Seq<char>| #[trigger] c@.contains_key(k) implies exists|i: int|
        0 <= i < c.pairs().len() && c.pairs()[i] == (k, c@[k]) by {
        let i = choose|i: int| 0 <= i < c.pairs().len() && c.pairs()[i].0 == k;
        assert(c@.contains_key(c.pairs()[i].0));
        assert(c.pairs()[i] == (k, c@[k]));
    }
}

/// The table after the database has run the updates of `pairs` in order:
/// a row whose name is updated takes the new value; an update of a name
/// with no row changes nothing.
pub open spec fn run_updates(table: Map<Seq<char>, Seq<char>>, pairs: Seq<(Seq<char>, Seq<char>)>) -> Map<
    Seq<char>,
    Seq<char>,
>
    decreases pairs.len(),
{
    if pairs.len() == 0 {
        table
    } else {
        let t = run_updates(table, pairs.drop_last());
        if t.contains_key(pairs.last().0) {
            t.insert(pairs.last().0, pairs.last().1)
        } else {
            t
        }
    }
}

/// What running the updates does to each row.
proof fn lemma_run_updates(table: Map<Seq<char>, Seq<char>>, pairs: Seq<(Seq<char>, Seq<char>)>)
    requires
        names_distinct(pairs),
    ensures
        run_updates(table, pairs).dom() == table.dom(),
        forall|i: int|
            0 <= i < pairs.len() && table.contains_key(pairs[i].0) ==> #[trigger] run_updates(table, pairs)[pairs[i].0]
                == pairs[i].1,
        forall|k: Seq<char>|
            table.contains_key(k) && (forall|i: int| 0 <= i < pairs.len() ==> pairs[i].0 != k)
                ==> #[trigger] run_updates(table, pairs)[k] == table[k],
    decreases pairs.len(),
{
    if pairs.len() > 0 {
        let init = pairs.drop_last();
        assert(names_distinct(init)) by {
            assert forall|i: int, j: int| 0 <= i < j < init.len() implies #[trigger] init[i].0 != #[trigger] init[j].0 by {
                assert(init[i] == pairs[i]);
                assert(init[j] == pairs[j]);
            }
        }
        lemma_run_updates(table, init);
        assert(run_updates(table, pairs).dom() =~= table.dom());
        assert forall|i: int|
            0 <= i < pairs.len() && table.contains_key(pairs[i].0) implies #[trigger] run_updates(table, pairs)[pairs[i].0]
            == pairs[i].1 by {
            if i < pairs.len() - 1 {
                assert(init[i] == pairs[i]);
                assert(pairs[i].0 != pairs[pairs.len() - 1].0);
            }
        }
        assert forall|k: Seq<char>|
            table.contains_key(k) && (forall|i: int| 0 <= i < pairs.len() ==> pairs[i].0 != k) implies #[trigger] run_updates(
            table,
            pairs,
        )[k] == table[k] by {
            assert(pairs[pairs.len() - 1].0 != k);
            assert forall|i: int| 0 <= i < init.len() implies init[i].0 != k by {
                assert(init[i] == pairs[i]);
            }
        }
    }
}

/// Loading rows into empty settings gives the map the rows describe.
pub proof fn lemma_load_into_empty(rows: Seq<(Seq<char>, Seq<char>)>)
    ensures
        apply_rows(Map::empty(), rows) == pairs_to_map(rows),
    decreases rows.len(),
{
    if rows.len() > 0 {
        lemma_load_into_empty(rows.drop_last());
    }
}

/// Saving and loading again gives the settings back. When every setting
/// already has its row in the `config` table, no name or value holds a
/// single quote (so each statement of the saving script is the update of
/// the row with that name), and the table then holds the rows `rows`,
/// loading `rows` into fresh settings gives every saved setting its saved
/// value, and every other row its value from before.
pub proof fn lemma_save_then_load(
    c: &Config,
    table: Map<Seq<char>, Seq<char>>,
    rows: Seq<(Seq<char>, Seq<char>)>,
)
    requires
        c.wf(),
        forall|k: Seq<char>| #[trigger] c@.contains_key(k) ==> table.contains_key(k),
        forall|i: int, j: int|
            0 <= i < c.pairs().len() && 0 <= j < c.pairs()[i].0.len() ==> #[trigger] c.pairs()[i].0[j] != '\'',
        forall|i: int, j: int|
            0 <= i < c.pairs().len() && 0 <= j < c.pairs()[i].1.len() ==> #[trigger] c.pairs()[i].1[j] != '\'',
        names_distinct(rows),
        pairs_to_map(rows) == run_updates(table, c.pairs()),
    ensures
        forall|k: Seq<char>|
            #[trigger] c@.contains_key(k) ==> apply_rows(Map::empty(), rows).contains_key(k)
                && apply_rows(Map::empty(), rows)[k] == c@[k],
        forall|k: Seq<char>|
            table.contains_key(k) && !c@.contains_key(k) ==> #[trigger] apply_rows(Map::empty(), rows).contains_key(k)
                && apply_rows(Map::empty(), rows)[k] == table[k],
{
    lemma_load_into_empty(rows);
    lemma_save_covers_settings(c);
    lemma_run_updates(table, c.pairs());
    let loaded = apply_rows(Map::empty(), rows);
    assert forall|k: Seq<char>| #[trigger] c@.contains_key(k) implies loaded.contains_key(k) && loaded[k] == c@[k] by {
        let i = choose|i: int| 0 <= i < c.pairs().len() && c.pairs()[i] == (k, c@[k]);
        assert(table.contains_key(c.pairs()[i].0));
    }
    assert forall|k: Seq<char>| table.contains_key(k) && !c@.contains_key(k) implies #[trigger] loaded.contains_key(k)
        && loaded[k] == table[k] by {
        assert forall|i: int| 0 <= i < c.pairs().len() implies c.pairs()[i].0 != k by {
            assert(c@.contains_key(c.pairs()[i].0));
        }
    }
}

/// What is stored under a name can be read back: after storing `value`
/// under `name`, reading `name` gives `value`, and every other name reads
/// as before.
pub proof fn lemma_read_after_write(
    settings: Map<Seq<char>, Seq<char>>,
    name: Seq<char>,
    value: Seq<char>,
    other: Seq<char>,
)
    requires
        other != name,
    ensures
        settings.insert(name, value).contains_key(name),
        settings.insert(name, value)[name] == value,
        settings.insert(name, value).contains_key(other) == settings.contains_key(other),
        settings.contains_key(other) ==> settings.insert(name, value)[other] == settings[other],
{
}

/// Loading rows keeps, for every name among them, the value of its last
/// row.
pub proof fn lemma_load_keeps_last(
    settings: Map<Seq<char>, Seq<char>>,
    rows: Seq<(Seq<char>, Seq<char>)>,
    i: int,
)
    requires
        0 <= i < rows.len(),
        forall|j: int| i < j < rows.len() ==> #[trigger] rows[j].0 != rows[i].0,
    ensures
        apply_rows(settings, rows).contains_key(rows[i].0),
        apply_rows(settings, rows)[rows[i].0] == rows[i].1,
    decreases rows.len(),
{
    if i < rows.len() - 1 {
        let init = rows.drop_last();
        assert forall|j: int| i < j < init.len() implies #[trigger] init[j].0 != init[i].0 by {
            assert(init[j] == rows[j]);
        }
        lemma_load_keeps_last(settings, init, i);
        assert(rows[rows.len() - 1].0 != rows[i].0);
    }
}

/// Loading rows leaves every name that no row mentions as it was.
pub proof fn lemma_load_keeps_others(
    settings: Map<Seq<char>, Seq<char>>,
    rows: Seq<(Seq<char>, Seq<char>)>,
    name: Seq<char>,
)
    requires
        forall|j: int| 0 <= j < rows.len() ==> #[trigger] rows[j].0 != name,
    ensures
        apply_rows(settings, rows).contains_key(name) == settings.contains_key(name),
        settings.contains_key(name) ==> apply_rows(settings, rows)[name] == settings[name],
    decreases rows.len(),
{
    if rows.len() > 0 {
        let init = rows.drop_last();
        assert forall|j: int| 0 <= j < init.len() implies #[trigger] init[j].0 != name by {
            assert(init[j] == rows[j]);
        }
        lemma_load_keeps_others(settings, init, name);
        assert(rows[rows.len() - 1].0 != name);
    }
}

} // verus!
