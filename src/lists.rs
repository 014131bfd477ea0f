//! Storage of the allow, deny and pattern lists.
//!
//! Each list lives in a table of its own, whose rows hold a domain (or a
//! pattern) and an `enabled` flag. Only enabled rows are visible through the
//! repository: `get`, `contains` and `remove` look at them alone, and `add`
//! always writes an enabled row.
//!
//! Policies: `remove` deletes the matching enabled rows; `add` of a domain that
//! is already on the list leaves the table as it is.
use vstd::prelude::*;
use crate::text::string_views;

verus! {

/// One of the three independent domain lists.
#[derive(Clone, Copy, Debug, PartialEq, Eq, Structural)]
pub enum List {
    White,
    Black,
    Regex,
}

/// The name of the table that stores a list.
pub open spec fn list_table(l: List) -> Seq<char> {
    match l {
        List::White => "whitelist"@,
        List::Black => "blacklist"@,
        List::Regex => "regex"@,
    }
}

impl List {
    /// The name of the table that stores this list.
    pub fn table_name(self) -> (r: &'static str)
        ensures
            r@ == list_table(self),
    {
        match self {
            List::White => "whitelist",
            List::Black => "blacklist",
            List::Regex => "regex",
        }
    }
}

/// The failure of an operation on list storage.
#[derive(Clone, Copy, Debug, PartialEq, Eq, Structural)]
pub enum ListError {
    Storage,
}

/// A row of a list table.
pub struct ListEntry {
    pub domain: String,
    pub enabled: bool,
}

/// The domains of the enabled rows, in storage order.
pub open spec fn enabled_domains(rows: Seq<ListEntry>) -> Seq<Seq<char>>
    decreases rows.len(),
{
    if rows.len() == 0 {
        Seq::empty()
    } else {
        let rest = enabled_domains(rows.drop_last());
        if rows.last().enabled {
            rest.push(rows.last().domain@)
        } else {
            rest
        }
    }
}

/// `s` with every occurrence of `v` taken out, order kept.
pub open spec fn without(s: Seq<Seq<char>>, v: Seq<char>) -> Seq<Seq<char>>
    decreases s.len(),
{
    if s.len() == 0 {
        Seq::empty()
    } else {
        let rest = without(s.drop_last(), v);
        if s.last() == v {
            rest
        } else {
            rest.push(s.last())
        }
    }
}

/// The visible contents of a list after `add(v)`.
pub open spec fn after_add(s: Seq<Seq<char>>, v: Seq<char>) -> Seq<Seq<char>> {
    if s.contains(v) {
        s
    } else {
        s.push(v)
    }
}

/// The visible contents of a list after `remove(v)`.
pub open spec fn after_remove(s: Seq<Seq<char>>, v: Seq<char>) -> Seq<Seq<char>> {
    without(s, v)
}

/// The operations through which lists are read and changed.
pub trait ListRepository {
    /// The domains that the list shows, in storage order.
    spec fn domains(&self, list: List) -> Seq<Seq<char>>;

    /// Get all of the domains in the list.
    fn get(&self, list: List) -> (r: Result<Vec<String>, ListError>)
        ensures
            r matches Ok(v) ==> string_views(v@) == self.domains(list),
    ;

    /// Check if the list contains the domain.
    fn contains(&self, list: List, domain: &str) -> (r: Result<bool, ListError>)
        ensures
            r matches Ok(b) ==> b == self.domains(list).contains(domain@),
    ;

    /// Add the domain to the list.
    fn add(&mut self, list: List, domain: &str) -> (r: Result<(), ListError>)
        ensures
            r is Ok ==> final(self).domains(list) == after_add(
                old(self).domains(list),
                domain@,
            ),
            r is Ok ==> forall|l: List|
                l != list ==> #[trigger] final(self).domains(l) == old(self).domains(l),
    ;

    /// Remove the domain from the list.
    fn remove(&mut self, list: List, domain: &str) -> (r: Result<(), ListError>)
        ensures
            r is Ok ==> final(self).domains(list) == after_remove(
                old(self).domains(list),
                domain@,
            ),
            r is Ok ==> forall|l: List|
                l != list ==> #[trigger] final(self).domains(l) == old(self).domains(l),
    ;
}

/// A repository that keeps the three list tables in memory.
pub struct ListRepositoryImpl {
    whitelist: Vec<ListEntry>,
    blacklist: Vec<ListEntry>,
    regex: Vec<ListEntry>,
}

proof fn lemma_push_contains(s: Seq<Seq<char>>, x: Seq<char>, y: Seq<char>)
    ensures
        s.push(x).contains(y) <==> (s.contains(y) || x == y),
{
    if s.contains(y) {
        let k = choose|k: int| 0 <= k < s.len() && s[k] == y;
        assert(s.push(x)[k] == y);
    }
    if x == y {
        assert(s.push(x)[s.len() as int] == y);
    }
    if s.push(x).contains(y) {
        let k = choose|k: int| 0 <= k < s.len() + 1 && s.push(x)[k] == y;
        if k < s.len() {
            assert(s[k] == y);
        }
    }
}

proof fn lemma_enabled_step(rows: Seq<ListEntry>, i: int)
    requires
        0 <= i < rows.len(),
    ensures
        enabled_domains(rows.take(i + 1)) == (if rows[i].enabled {
            enabled_domains(rows.take(i)).push(rows[i].domain@)
        } else {
            enabled_domains(rows.take(i))
        }),
{
    assert(rows.take(i + 1).drop_last() =~= rows.take(i));
}

/// The enabled domains of a table, in storage order.
fn table_domains(t: &Vec<ListEntry>) -> (r: Vec<String>)
    ensures
        string_views(r@) == enabled_domains(t@),
{
    let mut r: Vec<String> = Vec::new();
    let mut i: usize = 0;
    while i < t.len()
        invariant
            i <= t@.len(),
            string_views(r@) == enabled_domains(t@.take(i as int)),
        decreases t@.len() - i,
    {
        proof {
            lemma_enabled_step(t@, i as int);
        }
        if t[i].enabled {
            let d = t[i].domain.clone();
            proof {
                assert(string_views(r@.push(d)) =~= string_views(r@).push(d@));
            }
            r.push(d);
        }
        i = i + 1;
    }
    assert(t@.take(t@.len() as int) =~= t@);
    r
}

/// Whether an enabled row of the table holds `d`.
fn table_contains(t: &Vec<ListEntry>, d: &String) -> (r: bool)
    ensures
        r == enabled_domains(t@).contains(d@),
{
    let mut i: usize = 0;
    while i < t.len()
        invariant
            i <= t@.len(),
            !enabled_domains(t@.take(i as int)).contains(d@),
        decreases t@.len() - i,
    {
        proof {
            lemma_enabled_step(t@, i as int);
            lemma_push_contains(enabled_domains(t@.take(i as int)), t@[i as int].domain@, d@);
        }
        if t[i].enabled && t[i].domain == *d {
            proof {
                lemma_in_prefix(t@, i as int + 1, d@);
            }
            return true;
        }
        i = i + 1;
    }
    assert(t@.take(t@.len() as int) =~= t@);
    false
}

/// A domain shown by a prefix of a table is shown by the table.
proof fn lemma_in_prefix(rows: Seq<ListEntry>, n: int, d: Seq<char>)
    requires
        0 <= n <= rows.len(),
        enabled_domains(rows.take(n)).contains(d),
    ensures
        enabled_domains(rows).contains(d),
    decreases rows.len() - n,
{
    if n < rows.len() {
        lemma_enabled_step(rows, n);
        lemma_push_contains(enabled_domains(rows.take(n)), rows[n].domain@, d);
        lemma_in_prefix(rows, n + 1, d);
    } else {
        assert(rows.take(n) =~= rows);
    }
}

/// Adds an enabled row for `d` unless one is there already.
fn table_insert(t: &mut Vec<ListEntry>, d: &str)
    ensures
        enabled_domains(final(t)@) == after_add(enabled_domains(old(t)@), d@),
{
    let domain = d.to_owned();
    if !table_contains(t, &domain) {
        let ghost before = t@;
        t.push(ListEntry { domain, enabled: true });
        proof {
            assert(t@.drop_last() =~= before);
        }
    }
}

/// Deletes every enabled row that holds `d`.
fn table_delete(t: &mut Vec<ListEntry>, d: &str)
    ensures
        enabled_domains(final(t)@) == without(enabled_domains(old(t)@), d@),
{
    let domain = d.to_owned();
    let mut kept: Vec<ListEntry> = Vec::new();
    let mut i: usize = 0;
    while i < t.len()
        invariant
            i <= t@.len(),
            domain@ == d@,
            enabled_domains(kept@) == without(enabled_domains(t@.take(i as int)), d@),
        decreases t@.len() - i,
    {
        proof {
            lemma_enabled_step(t@, i as int);
        }
        if !(t[i].enabled && t[i].domain == domain) {
            let row = ListEntry { domain: t[i].domain.clone(), enabled: t[i].enabled };
            let ghost before = kept@;
            kept.push(row);
            proof {
                assert(kept@.drop_last() =~= before);
                let s = enabled_domains(t@.take(i as int));
                if t@[i as int].enabled {
                    let x = t@[i as int].domain@;
                    assert(s.push(x).drop_last() =~= s);
                }
            }
        } else {
            proof {
                let s = enabled_domains(t@.take(i as int));
                assert(s.push(d@).drop_last() =~= s);
            }
        }
        i = i + 1;
    }
    assert(t@.take(t@.len() as int) =~= t@);
    *t = kept;
}

impl ListRepositoryImpl {
    /// The rows of the table that stores `list`.
    pub closed spec fn table(&self, list: List) -> Seq<ListEntry> {
        match list {
            List::White => self.whitelist@,
            List::Black => self.blacklist@,
            List::Regex => self.regex@,
        }
    }

    /// A repository whose three tables are empty.
    pub fn new() -> (r: ListRepositoryImpl)
        ensures
            forall|l: List| #[trigger] r.domains(l) == Seq::<Seq<char>>::empty(),
    {
        ListRepositoryImpl { whitelist: Vec::new(), blacklist: Vec::new(), regex: Vec::new() }
    }

    /// A repository over tables that hold the given rows, in this order.
    pub fn from_tables(
        whitelist: Vec<ListEntry>,
        blacklist: Vec<ListEntry>,
        regex: Vec<ListEntry>,
    ) -> (r: ListRepositoryImpl)
        ensures
            r.domains(List::White) == enabled_domains(whitelist@),
            r.domains(List::Black) == enabled_domains(blacklist@),
            r.domains(List::Regex) == enabled_domains(regex@),
    {
        ListRepositoryImpl { whitelist, blacklist, regex }
    }
}

impl ListRepository for ListRepositoryImpl {
    closed spec fn domains(&self, list: List) -> Seq<Seq<char>> {
        enabled_domains(self.table(list))
    }

    fn get(&self, list: List) -> (r: Result<Vec<String>, ListError>)
        ensures
            r is Ok,
    {
        let domains = match list {
            List::White => table_domains(&self.whitelist),
            List::Black => table_domains(&self.blacklist),
            List::Regex => table_domains(&self.regex),
        };
        Ok(domains)
    }

    fn contains(&self, list: List, domain: &str) -> (r: Result<bool, ListError>)
        ensures
            r is Ok,
    {
        let domain = domain.to_owned();
        let found = match list {
            List::White => table_contains(&self.whitelist, &domain),
            List::Black => table_contains(&self.blacklist, &domain),
            List::Regex => table_contains(&self.regex, &domain),
        };
        Ok(found)
    }

    fn add(&mut self, list: List, domain: &str) -> (r: Result<(), ListError>)
        ensures
            r is Ok,
    {
        match list {
            List::White => table_insert(&mut self.whitelist, domain),
            List::Black => table_insert(&mut self.blacklist, domain),
            List::Regex => table_insert(&mut self.regex, domain),
        }
        Ok(())
    }

    fn remove(&mut self, list: List, domain: &str) -> (r: Result<(), ListError>)
        ensures
            r is Ok,
    {
        match list {
            List::White => table_delete(&mut self.whitelist, domain),
            List::Black => table_delete(&mut self.blacklist, domain),
            List::Regex => table_delete(&mut self.regex, domain),
        }
        Ok(())
    }
}

} // verus!
