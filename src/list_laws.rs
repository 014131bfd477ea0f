//! Laws that the list repository obeys. They are stated over the visible
//! contents of a list (`s`, the domains in storage order) and the changes that
//! the contracts of `ListRepository` give for `add` and `remove`; that an
//! operation leaves the other lists alone is part of those contracts.
use vstd::prelude::*;
use crate::lists::{after_add, after_remove, without, List, ListRepository};
use crate::text::string_views;

verus! {

proof fn lemma_without_excludes(s: Seq<Seq<char>>, v: Seq<char>)
    ensures
        !without(s, v).contains(v),
    decreases s.len(),
{
    if s.len() > 0 {
        let rest = without(s.drop_last(), v);
        lemma_without_excludes(s.drop_last(), v);
        if s.last() != v {
            if rest.push(s.last()).contains(v) {
                let k = choose|k: int| 0 <= k < rest.len() + 1 && rest.push(s.last())[k] == v;
                assert(rest[k] == v);
            }
        }
    }
}

proof fn lemma_without_absent(s: Seq<Seq<char>>, v: Seq<char>)
    requires
        !s.contains(v),
    ensures
        without(s, v) == s,
    decreases s.len(),
{
    if s.len() > 0 {
        assert(!s.drop_last().contains(v)) by {
            if s.drop_last().contains(v) {
                let k = choose|k: int| 0 <= k < s.len() - 1 && s.drop_last()[k] == v;
                assert(s[k] == v);
            }
        }
        lemma_without_absent(s.drop_last(), v);
        assert(s.last() != v) by {
            if s.last() == v {
                assert(s[s.len() - 1] == v);
            }
        }
        assert(s.drop_last().push(s.last()) =~= s);
    }
}

/// Removing a domain twice leaves the list as removing it once does, and the
/// domain is absent after either removal.
pub proof fn remove_is_idempotent(s: Seq<Seq<char>>, v: Seq<char>)
    ensures
        after_remove(after_remove(s, v), v) == after_remove(s, v),
        !after_remove(s, v).contains(v),
        !after_remove(after_remove(s, v), v).contains(v),
{
    lemma_without_excludes(s, v);
    lemma_without_absent(without(s, v), v);
}

/// After a domain has been added, the list contains it.
pub proof fn add_then_contains(s: Seq<Seq<char>>, v: Seq<char>)
    ensures
        after_add(s, v).contains(v),
{
    if !s.contains(v) {
        assert(s.push(v)[s.len() as int] == v);
    }
}

/// The strings that `get` returns are exactly the domains for which
/// `contains` answers true.
pub proof fn get_matches_contains<R: ListRepository>(repo: &R, list: List, got: Seq<String>)
    requires
        string_views(got) == repo.domains(list),
    ensures
        forall|d: Seq<char>|
            (exists|i: int| 0 <= i < got.len() && (#[trigger] got[i])@ == d) <==> repo.domains(
                list,
            ).contains(d),
{
    assert forall|d: Seq<char>|
        (exists|i: int| 0 <= i < got.len() && (#[trigger] got[i])@ == d) <==> repo.domains(
            list,
        ).contains(d) by {
        if repo.domains(list).contains(d) {
            let k = choose|k: int| 0 <= k < repo.domains(list).len() && repo.domains(list)[k] == d;
            assert(string_views(got)[k] == got[k]@);
        }
        if exists|i: int| 0 <= i < got.len() && (#[trigger] got[i])@ == d {
            let i = choose|i: int| 0 <= i < got.len() && (#[trigger] got[i])@ == d;
            assert(string_views(got)[i] == d);
        }
    }
}

/// Adding a domain and then removing it: the domain is on the list between the
/// two calls and off it afterwards.
pub proof fn add_remove_round_trip(s: Seq<Seq<char>>, v: Seq<char>)
    ensures
        after_add(s, v).contains(v),
        !after_remove(after_add(s, v), v).contains(v),
{
    add_then_contains(s, v);
    lemma_without_excludes(after_add(s, v), v);
}

} // verus!
