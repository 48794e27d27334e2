pub mod api;
pub mod application;
pub mod buffer;
pub mod command;
pub mod colortheme;
pub mod config;
pub mod text;
pub mod width;
pub mod window;

use vstd::prelude::*;

use crate::config::ConfigValue;
use crate::text::{str_eq, str_starts_with};

verus! {

/// Whether the query matches the keybinding of a single leaf.
/// An exact match is reported with `true`; a query that is a proper prefix
/// of the keybinding (and non-empty) is reported with `false`; anything else
/// does not match. The result carries the leaf's name and its keybinding.
pub open spec fn leaf_match(
    name: Seq<char>,
    k: Seq<char>,
    q: Seq<char>,
) -> Option<(Seq<char>, Seq<char>, bool)> {
    if q == k {
        Some((name, k, true))
    } else if q.len() > 0 && q.is_prefix_of(k) {
        Some((name, k, false))
    } else {
        None
    }
}

/// The result of walking a command table depth-first against a query: the
/// first leaf, in table order, whose keybinding the query matches exactly
/// (`true`) or as a proper prefix (`false`). `None` when no leaf matches.
pub open spec fn match_entries(
    es: Seq<(String, ConfigValue)>,
    q: Seq<char>,
) -> Option<(Seq<char>, Seq<char>, bool)>
    decreases es,
{
    if es.len() == 0 {
        None
    } else {
        let r0 = match es[0].1 {
            ConfigValue::Str(k) => leaf_match(es[0].0@, k@, q),
            ConfigValue::Table(sub) => match_entries(sub@, q),
            _ => None,
        };
        if r0 is Some {
            r0
        } else {
            match_entries(es.drop_first(), q)
        }
    }
}

/// The leaves of a command table in depth-first traversal order, each as a
/// pair of its name and its keybinding. Values that are neither strings nor
/// tables contribute nothing.
pub open spec fn leaves(es: Seq<(String, ConfigValue)>) -> Seq<(Seq<char>, Seq<char>)>
    decreases es,
{
    if es.len() == 0 {
        Seq::empty()
    } else {
        let first = match es[0].1 {
            ConfigValue::Str(k) => seq![(es[0].0@, k@)],
            ConfigValue::Table(sub) => leaves(sub@),
            _ => Seq::empty(),
        };
        first + leaves(es.drop_first())
    }
}

/// Whether the keybinding `k` extends the query `q` properly: `q` is
/// non-empty, a prefix of `k`, and shorter than `k`.
pub open spec fn proper_ext(k: Seq<char>, q: Seq<char>) -> bool {
    q.len() > 0 && q.is_prefix_of(k) && k != q
}

/// Every reported match comes from a leaf of the table: when the walk
/// returns a name and a keybinding, some leaf holds exactly that pair, an
/// exact match is reported with `true` precisely when the keybinding equals
/// the query, and a partial match means the keybinding extends the query
/// properly.
pub proof fn lemma_match_reports_leaf(es: Seq<(String, ConfigValue)>, q: Seq<char>)
    ensures
        match_entries(es, q) matches Some(t) ==> exists|i: int|
            0 <= i < leaves(es).len() && #[trigger] leaves(es)[i] == (t.0, t.1) && (t.2 <==> t.1
                == q) && (!t.2 ==> proper_ext(t.1, q)),
    decreases es, 1int,
{
    if es.len() == 0 {
    } else {
        let first = match es[0].1 {
            ConfigValue::Str(k) => seq![(es[0].0@, k@)],
            ConfigValue::Table(sub) => leaves(sub@),
            _ => Seq::<(Seq<char>, Seq<char>)>::empty(),
        };
        let tail = es.drop_first();
        assert(leaves(es) == first + leaves(tail));
        match es[0].1 {
            ConfigValue::Str(k) => {
                if let Some(t) = leaf_match(es[0].0@, k@, q) {
                    assert(leaves(es)[0] == (t.0, t.1));
                } else {
                    lemma_shifted_match(es, q, first);
                }
            },
            ConfigValue::Table(sub) => {
                if match_entries(sub@, q) is Some {
                    lemma_match_reports_leaf(sub@, q);
                    let t = match_entries(sub@, q)->Some_0;
                    let i = choose|i: int|
                        0 <= i < leaves(sub@).len() && #[trigger] leaves(sub@)[i] == (t.0, t.1) && (
                        t.2 <==> t.1 == q) && (!t.2 ==> proper_ext(t.1, q));
                    assert(leaves(es)[i] == (t.0, t.1));
                } else {
                    lemma_shifted_match(es, q, first);
                }
            },
            _ => {
                lemma_shifted_match(es, q, first);
            },
        }
    }
}

/// Helper for the tables above: when the first entry of the table yields no
/// match, the walk's result is the result over the remaining entries, and a
/// leaf found there also stands in the whole table, shifted past the first
/// entry's leaves.
proof fn lemma_shifted_match(
    es: Seq<(String, ConfigValue)>,
    q: Seq<char>,
    first: Seq<(Seq<char>, Seq<char>)>,
)
    requires
        es.len() > 0,
        leaves(es) == first + leaves(es.drop_first()),
        match_entries(es, q) == match_entries(es.drop_first(), q),
    ensures
        match_entries(es, q) matches Some(t) ==> exists|i: int|
            0 <= i < leaves(es).len() && #[trigger] leaves(es)[i] == (t.0, t.1) && (t.2 <==> t.1
                == q) && (!t.2 ==> proper_ext(t.1, q)),
    decreases es, 0int,
{
    let tail = es.drop_first();
    if match_entries(tail, q) is Some {
        lemma_match_reports_leaf(tail, q);
        let t = match_entries(tail, q)->Some_0;
        let i = choose|i: int|
            0 <= i < leaves(tail).len() && #[trigger] leaves(tail)[i] == (t.0, t.1) && (t.2 <==> t.1
                == q) && (!t.2 ==> proper_ext(t.1, q));
        assert(leaves(es)[first.len() + i] == (t.0, t.1));
    }
}

/// A full match can only be reported for a query that some leaf holds as
/// its exact keybinding: when the walk reports a full match under a name,
/// some leaf of the table is that name paired with the query itself.
pub proof fn lemma_full_match_exact_leaf(es: Seq<(String, ConfigValue)>, q: Seq<char>)
    ensures
        match_entries(es, q) matches Some(t) ==> (t.2 ==> exists|i: int|
            0 <= i < leaves(es).len() && #[trigger] leaves(es)[i] == (t.0, q)),
{
    lemma_match_reports_leaf(es, q);
    if let Some(t) = match_entries(es, q) {
        if t.2 {
            let i = choose|i: int|
                0 <= i < leaves(es).len() && #[trigger] leaves(es)[i] == (t.0, t.1) && (t.2 <==> t.1
                    == q) && (!t.2 ==> proper_ext(t.1, q));
            assert(leaves(es)[i] == (t.0, q));
        }
    }
}

/// A partial match reproduces the matched keybinding: when the walk reports
/// a partial match, the query is a proper prefix of the reported keybinding,
/// and concatenating the query with the keybinding's remainder past the
/// query's length yields that keybinding again, which some leaf holds.
pub proof fn lemma_partial_concat_reproduces(es: Seq<(String, ConfigValue)>, q: Seq<char>)
    ensures
        match_entries(es, q) matches Some(t) ==> (!t.2 ==> proper_ext(t.1, q) && q + t.1.skip(
            q.len() as int,
        ) == t.1 && exists|i: int|
            0 <= i < leaves(es).len() && #[trigger] leaves(es)[i] == (t.0, t.1)),
{
    lemma_match_reports_leaf(es, q);
    if let Some(t) = match_entries(es, q) {
        if !t.2 {
            assert(q + t.1.skip(q.len() as int) =~= t.1);
            let i = choose|i: int|
                0 <= i < leaves(es).len() && #[trigger] leaves(es)[i] == (t.0, t.1) && (t.2 <==> t.1
                    == q) && (!t.2 ==> proper_ext(t.1, q));
            assert(leaves(es)[i] == (t.0, t.1));
        }
    }
}

/// When some leaf's keybinding equals the query exactly, and every leaf
/// whose keybinding properly extends the query comes after such an exact
/// leaf in traversal order, the walk reports a full match for the query.
/// Without the ordering premise the walk may stop at an earlier leaf whose
/// keybinding merely extends the query and report a partial match instead.
pub proof fn lemma_exact_leaf_full_match(es: Seq<(String, ConfigValue)>, q: Seq<char>)
    requires
        exists|j: int| 0 <= j < leaves(es).len() && (#[trigger] leaves(es)[j]).1 == q,
        forall|i: int|
            0 <= i < leaves(es).len() && proper_ext((#[trigger] leaves(es)[i]).1, q) ==> exists|
                j: int,
            | 0 <= j < i && leaves(es)[j].1 == q,
    ensures
        match_entries(es, q) matches Some(t) && t.1 == q && t.2,
    decreases es, 1int,
{
    if es.len() == 0 {
        let j = choose|j: int| 0 <= j < leaves(es).len() && (#[trigger] leaves(es)[j]).1 == q;
        assert(false);
    } else {
        let first = match es[0].1 {
            ConfigValue::Str(k) => seq![(es[0].0@, k@)],
            ConfigValue::Table(sub) => leaves(sub@),
            _ => Seq::<(Seq<char>, Seq<char>)>::empty(),
        };
        let tail = es.drop_first();
        assert(leaves(es) == first + leaves(tail));
        match es[0].1 {
            ConfigValue::Str(k) => {
                if k@ == q {
                    assert(match_entries(es, q) == Some((es[0].0@, k@, true)));
                } else if q.len() > 0 && q.is_prefix_of(k@) {
                    assert(leaves(es)[0] == (es[0].0@, k@));
                    assert(proper_ext((leaves(es)[0]).1, q));
                    let j = choose|j: int| 0 <= j < 0 && leaves(es)[j].1 == q;
                    assert(false);
                } else {
                    assert(first[0].1 != q);
                    lemma_exact_full_shift(es, q, first);
                }
            },
            ConfigValue::Table(sub) => {
                let l0 = leaves(sub@);
                if exists|i: int| 0 <= i < l0.len() && (#[trigger] l0[i]).1 == q {
                    assert forall|i: int|
                        0 <= i < l0.len() && proper_ext((#[trigger] l0[i]).1, q) implies exists|
                        j: int,
                    | 0 <= j < i && l0[j].1 == q by {
                        assert(leaves(es)[i] == l0[i]);
                        let j = choose|j: int| 0 <= j < i && leaves(es)[j].1 == q;
                        assert(l0[j] == leaves(es)[j]);
                    }
                    lemma_exact_leaf_full_match(sub@, q);
                } else {
                    if match_entries(sub@, q) is Some {
                        lemma_match_reports_leaf(sub@, q);
                        let t = match_entries(sub@, q)->Some_0;
                        let i = choose|i: int|
                            0 <= i < l0.len() && #[trigger] l0[i] == (t.0, t.1) && (t.2 <==> t.1
                                == q) && (!t.2 ==> proper_ext(t.1, q));
                        if t.2 {
                            assert((l0[i]).1 == q);
                            assert(false);
                        } else {
                            assert(leaves(es)[i] == l0[i]);
                            assert(proper_ext((leaves(es)[i]).1, q));
                            let j = choose|j: int| 0 <= j < i && leaves(es)[j].1 == q;
                            assert(l0[j] == leaves(es)[j]);
                            assert((l0[j]).1 == q);
                            assert(false);
                        }
                    }
                    assert forall|i: int| 0 <= i < first.len() implies (#[trigger] first[i]).1
                        != q by {}
                    lemma_exact_full_shift(es, q, first);
                }
            },
            _ => {
                lemma_exact_full_shift(es, q, first);
            },
        }
    }
}

/// Helper for the lemma above: when the first entry yields no match and
/// holds no exactly matching leaf, the premises carry over to the remaining
/// entries, shifted past the first entry's leaves.
proof fn lemma_exact_full_shift(
    es: Seq<(String, ConfigValue)>,
    q: Seq<char>,
    first: Seq<(Seq<char>, Seq<char>)>,
)
    requires
        es.len() > 0,
        leaves(es) == first + leaves(es.drop_first()),
        match_entries(es, q) == match_entries(es.drop_first(), q),
        forall|i: int| 0 <= i < first.len() ==> (#[trigger] first[i]).1 != q,
        exists|j: int| 0 <= j < leaves(es).len() && (#[trigger] leaves(es)[j]).1 == q,
        forall|i: int|
            0 <= i < leaves(es).len() && proper_ext((#[trigger] leaves(es)[i]).1, q) ==> exists|
                j: int,
            | 0 <= j < i && leaves(es)[j].1 == q,
    ensures
        match_entries(es, q) matches Some(t) && t.1 == q && t.2,
    decreases es, 0int,
{
    let tail = es.drop_first();
    let j = choose|j: int| 0 <= j < leaves(es).len() && (#[trigger] leaves(es)[j]).1 == q;
    if j < first.len() {
        assert(leaves(es)[j] == first[j]);
        assert(false);
    }
    assert(leaves(tail)[j - first.len()] == leaves(es)[j]);
    assert forall|i: int|
        0 <= i < leaves(tail).len() && proper_ext((#[trigger] leaves(tail)[i]).1, q) implies exists|
        j2: int,
    | 0 <= j2 < i && leaves(tail)[j2].1 == q by {
        assert(leaves(es)[first.len() + i] == leaves(tail)[i]);
        assert(proper_ext((leaves(es)[first.len() + i]).1, q));
        let j2 = choose|j2: int| 0 <= j2 < first.len() + i && leaves(es)[j2].1 == q;
        if j2 < first.len() {
            assert(leaves(es)[j2] == first[j2]);
            assert(false);
        }
        assert(leaves(tail)[j2 - first.len()] == leaves(es)[j2]);
    }
    lemma_exact_leaf_full_match(tail, q);
}

/// Walks a command table depth-first against an accumulated query and
/// returns the first leaf the query matches: its name, its keybinding, and
/// whether the match is exact (`true`) or the query is only a proper prefix
/// of the keybinding (`false`). Returns `None` when no leaf matches.
pub fn iterate_config(config: &Vec<(String, ConfigValue)>, cmd: &str) -> (r: Option<
    (String, String, bool),
>)
    ensures
        r is Some <==> match_entries(config@, cmd@) is Some,
        r matches Some((name, k, full)) ==> match_entries(config@, cmd@) == Some(
            (name@, k@, full),
        ),
    decreases config@,
{
    let cmd_len = cmd.unicode_len();
    let mut i: usize = 0;
    proof {
        assert(config@.skip(0) =~= config@);
    }
    while i < config.len()
        invariant
            i <= config@.len(),
            cmd_len as nat == cmd@.len(),
            match_entries(config@, cmd@) == match_entries(config@.skip(i as int), cmd@),
        decreases config@.len() - i,
    {
        let ghost tail = config@.skip(i as int);
        proof {
            assert(tail[0] == config@[i as int]);
            assert(tail.drop_first() =~= config@.skip(i as int + 1));
        }
        let entry = &config[i];
        let r0: Option<(String, String, bool)> = match &entry.1 {
            ConfigValue::Str(k) => {
                if str_eq(cmd, k.as_str()) {
                    Some((entry.0.clone(), k.clone(), true))
                } else if cmd_len > 0 && str_starts_with(k.as_str(), cmd) {
                    Some((entry.0.clone(), k.clone(), false))
                } else {
                    None
                }
            },
            ConfigValue::Table(sub) => {
                proof {
                    assert(decreases_to!(config@ => config@[i as int]));
                    assert(decreases_to!(config@[i as int].1 => *sub));
                }
                iterate_config(sub, cmd)
            },
            _ => None,
        };
        match r0 {
            Some(t) => {
                return Some(t);
            },
            None => {
                i = i + 1;
            },
        }
    }
    proof {
        assert(config@.skip(config@.len() as int) =~= Seq::<(String, ConfigValue)>::empty());
    }
    None
}

} // verus!
