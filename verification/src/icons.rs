//! The application-icon cache: which icons still have to be fetched, and
//! how newly fetched icons are merged into it.

use vstd::prelude::*;

use crate::text::views;

verus! {

/// The ids of `ids` that are not among `cached`, in order.
pub open spec fn not_cached(cached: Seq<Seq<char>>, ids: Seq<Seq<char>>) -> Seq<Seq<char>>
    decreases ids.len(),
{
    if ids.len() == 0 {
        seq![]
    } else {
        let rest = not_cached(cached, ids.drop_last());
        if cached.contains(ids.last()) {
            rest
        } else {
            rest.push(ids.last())
        }
    }
}

/// The icons to fetch for `ids`: all of them while nothing is cached;
/// otherwise those not cached, or nothing when every one is.
pub open spec fn spec_missing_icons(cached: Option<Seq<Seq<char>>>, ids: Seq<Seq<char>>) -> Option<
    Seq<Seq<char>>,
> {
    match cached {
        None => Some(ids),
        Some(keys) => {
            let out = not_cached(keys, ids);
            if out.len() == 0 {
                None
            } else {
                Some(out)
            }
        },
    }
}

fn is_cached(cached: &Vec<String>, id: &String) -> (r: bool)
    ensures
        r == views(cached@).contains(id@),
{
    let mut i: usize = 0;
    while i < cached.len()
        invariant
            i <= cached.len(),
            forall|k: int| 0 <= k < i ==> views(cached@)[k] != id@,
        decreases cached.len() - i,
    {
        if cached[i] == *id {
            assert(views(cached@)[i as int] == id@);
            return true;
        }
        i = i + 1;
    }
    false
}

/// The application icons to fetch for `app_ids`, given the ids whose icons
/// are cached (`None` while the cache has never been filled).
pub fn missing_icons(cached_app_ids: &Option<Vec<String>>, app_ids: &Vec<String>) -> (r: Option<Vec<String>>)
    ensures
        match r {
            Some(v) => spec_missing_icons(
                match cached_app_ids {
                    Some(c) => Some(views(c@)),
                    None => None,
                },
                views(app_ids@),
            ) == Some(views(v@)),
            None => spec_missing_icons(
                match cached_app_ids {
                    Some(c) => Some(views(c@)),
                    None => None,
                },
                views(app_ids@),
            ) is None,
        },
{
    let mut out: Vec<String> = Vec::new();
    let mut i: usize = 0;
    while i < app_ids.len()
        invariant
            i <= app_ids.len(),
            cached_app_ids matches Some(c) ==> views(out@) == not_cached(views(c@), views(app_ids@).take(i as int)),
            cached_app_ids is None ==> views(out@) == views(app_ids@).take(i as int),
        decreases app_ids.len() - i,
    {
        let ghost before = out@;
        assert(views(app_ids@).take(i + 1).drop_last() =~= views(app_ids@).take(i as int));
        let keep = match cached_app_ids {
            Some(c) => !is_cached(c, &app_ids[i]),
            None => true,
        };
        if keep {
            let id = app_ids[i].clone();
            out.push(id);
            assert(views(out@) =~= views(before).push(app_ids@[i as int]@));
        }
        i = i + 1;
        assert(views(app_ids@).take(i as int).last() == views(app_ids@)[i - 1]);
    }
    assert(views(app_ids@).take(app_ids.len() as int) =~= views(app_ids@));
    match cached_app_ids {
        None => Some(out),
        Some(_) => {
            if out.len() == 0 {
                None
            } else {
                Some(out)
            }
        },
    }
}

/// Nothing cached is fetched again, and every id that is not cached is
/// fetched.
pub proof fn lemma_missing_icons_exact(cached: Seq<Seq<char>>, ids: Seq<Seq<char>>, id: Seq<char>)
    ensures
        not_cached(cached, ids).contains(id) <==> (ids.contains(id) && !cached.contains(id)),
    decreases ids.len(),
{
    if ids.len() > 0 {
        let pre = ids.drop_last();
        lemma_missing_icons_exact(cached, pre, id);
        assert(ids.contains(id) <==> (pre.contains(id) || ids.last() == id)) by {
            if ids.contains(id) {
                let k = choose|k: int| 0 <= k < ids.len() && ids[k] == id;
                if k < ids.len() - 1 {
                    assert(pre[k] == id);
                }
            }
            if pre.contains(id) {
                let k = choose|k: int| 0 <= k < pre.len() && pre[k] == id;
                assert(ids[k] == id);
            }
            if ids.last() == id {
                assert(ids[ids.len() - 1] == id);
            }
        }
        let rest = not_cached(cached, pre);
        if !cached.contains(ids.last()) {
            assert(rest.push(ids.last()).contains(id) <==> (rest.contains(id) || ids.last() == id)) by {
                let r2 = rest.push(ids.last());
                if r2.contains(id) {
                    let k = choose|k: int| 0 <= k < r2.len() && r2[k] == id;
                    if k < rest.len() {
                        assert(rest[k] == id);
                    }
                }
                if rest.contains(id) {
                    let k = choose|k: int| 0 <= k < rest.len() && rest[k] == id;
                    assert(r2[k] == id);
                }
                if ids.last() == id {
                    assert(r2[rest.len() as int] == id);
                }
            }
        }
    }
}

/// The ids of a list of cache entries, in order.
pub open spec fn keys_of<V>(s: Seq<(String, V)>) -> Seq<Seq<char>> {
    s.map_values(|e: (String, V)| e.0@)
}

/// What a list of cache entries maps each id to: a later entry for the same
/// id replaces an earlier one, as inserting them one by one into a map does.
pub open spec fn entry_map<V>(s: Seq<(String, V)>) -> Map<Seq<char>, V>
    decreases s.len(),
{
    if s.len() == 0 {
        Map::empty()
    } else {
        entry_map(s.drop_last()).insert(s.last().0@, s.last().1)
    }
}

/// The cache after merging `icons` into `cache`: the new icons alone while
/// nothing was cached; otherwise every cached id keeps its icon unless the
/// new icons have one for it, which then wins.
pub open spec fn spec_merged<V>(cache: Option<Seq<(String, V)>>, icons: Seq<(String, V)>) -> Map<
    Seq<char>,
    V,
> {
    match cache {
        None => entry_map(icons),
        Some(c) => entry_map(c).union_prefer_right(entry_map(icons)),
    }
}

/// The entries of `s` whose id is not among `ids`, in order.
pub open spec fn without_ids<V>(s: Seq<(String, V)>, ids: Seq<Seq<char>>) -> Seq<(String, V)>
    decreases s.len(),
{
    if s.len() == 0 {
        seq![]
    } else {
        let rest = without_ids(s.drop_last(), ids);
        if ids.contains(s.last().0@) {
            rest
        } else {
            rest.push(s.last())
        }
    }
}

proof fn lemma_entry_map_dom<V>(s: Seq<(String, V)>, k: Seq<char>)
    ensures
        entry_map(s).dom().contains(k) <==> keys_of(s).contains(k),
    decreases s.len(),
{
    if s.len() > 0 {
        let pre = s.drop_last();
        lemma_entry_map_dom(pre, k);
        assert(keys_of(pre) =~= keys_of(s).drop_last());
        if keys_of(s).contains(k) {
            let i = choose|i: int| 0 <= i < keys_of(s).len() && keys_of(s)[i] == k;
            if i < s.len() - 1 {
                assert(keys_of(pre)[i] == k);
            }
        }
        if keys_of(pre).contains(k) {
            let i = choose|i: int| 0 <= i < keys_of(pre).len() && keys_of(pre)[i] == k;
            assert(keys_of(s)[i] == k);
        }
        assert(keys_of(s)[s.len() - 1] == s.last().0@);
    }
}

proof fn lemma_entry_map_concat<V>(a: Seq<(String, V)>, b: Seq<(String, V)>)
    ensures
        entry_map(a + b) == entry_map(a).union_prefer_right(entry_map(b)),
    decreases b.len(),
{
    if b.len() == 0 {
        assert(a + b =~= a);
        assert(entry_map(a).union_prefer_right(Map::<Seq<char>, V>::empty()) =~= entry_map(a));
    } else {
        lemma_entry_map_concat(a, b.drop_last());
        assert((a + b).drop_last() =~= a + b.drop_last());
        assert((a + b).last() == b.last());
        let m = entry_map(a);
        let n = entry_map(b.drop_last());
        assert(m.union_prefer_right(n.insert(b.last().0@, b.last().1)) =~= m.union_prefer_right(n).insert(
            b.last().0@,
            b.last().1,
        ));
    }
}

proof fn lemma_without_ids_agrees<V>(s: Seq<(String, V)>, ids: Seq<Seq<char>>, k: Seq<char>)
    requires
        !ids.contains(k),
    ensures
        entry_map(without_ids(s, ids)).dom().contains(k) == entry_map(s).dom().contains(k),
        entry_map(s).dom().contains(k) ==> entry_map(without_ids(s, ids))[k] == entry_map(s)[k],
    decreases s.len(),
{
    if s.len() > 0 {
        let pre = s.drop_last();
        lemma_without_ids_agrees(pre, ids, k);
        let rest = without_ids(pre, ids);
        if !ids.contains(s.last().0@) {
            assert(rest.push(s.last()).drop_last() =~= rest);
            assert(rest.push(s.last()).last() == s.last());
        } else {
            assert(s.last().0@ != k);
        }
    }
}

proof fn lemma_merge_without<V>(c: Seq<(String, V)>, icons: Seq<(String, V)>)
    ensures
        entry_map(without_ids(c, keys_of(icons))).union_prefer_right(entry_map(icons)) == entry_map(
            c,
        ).union_prefer_right(entry_map(icons)),
{
    let ids = keys_of(icons);
    let l = entry_map(without_ids(c, ids)).union_prefer_right(entry_map(icons));
    let r = entry_map(c).union_prefer_right(entry_map(icons));
    assert forall|k: Seq<char>| #[trigger] l.dom().contains(k) == r.dom().contains(k) by {
        lemma_entry_map_dom(icons, k);
        if !ids.contains(k) {
            lemma_without_ids_agrees(c, ids, k);
        }
    }
    assert forall|k: Seq<char>| l.dom().contains(k) implies #[trigger] l[k] == r[k] by {
        lemma_entry_map_dom(icons, k);
        if !ids.contains(k) {
            lemma_without_ids_agrees(c, ids, k);
        }
    }
    assert(l =~= r);
}

/// Each id appears at most once among the entries.
pub open spec fn distinct_ids<V>(s: Seq<(String, V)>) -> bool {
    forall|i: int, j: int| 0 <= i < j < s.len() ==> #[trigger] keys_of(s)[i] != #[trigger] keys_of(s)[j]
}

proof fn lemma_without_ids_keys<V>(s: Seq<(String, V)>, ids: Seq<Seq<char>>)
    ensures
        forall|k: Seq<char>| #[trigger] keys_of(without_ids(s, ids)).contains(k) ==> keys_of(s).contains(k)
            && !ids.contains(k),
        distinct_ids(s) ==> distinct_ids(without_ids(s, ids)),
    decreases s.len(),
{
    if s.len() > 0 {
        let pre = s.drop_last();
        lemma_without_ids_keys(pre, ids);
        let rest = without_ids(pre, ids);
        let w = without_ids(s, ids);
        assert(keys_of(pre) =~= keys_of(s).drop_last());
        assert forall|k: Seq<char>| #[trigger] keys_of(w).contains(k) implies keys_of(s).contains(k)
            && !ids.contains(k) by {
            let i = choose|i: int| 0 <= i < keys_of(w).len() && keys_of(w)[i] == k;
            if ids.contains(s.last().0@) {
                assert(keys_of(rest)[i] == k);
                assert(keys_of(rest).contains(k));
                let j = choose|j: int| 0 <= j < keys_of(pre).len() && keys_of(pre)[j] == k;
                assert(keys_of(s)[j] == k);
            } else {
                assert(w == rest.push(s.last()));
                if i < rest.len() {
                    assert(keys_of(rest)[i] == k);
                    assert(keys_of(rest).contains(k));
                    let j = choose|j: int| 0 <= j < keys_of(pre).len() && keys_of(pre)[j] == k;
                    assert(keys_of(s)[j] == k);
                } else {
                    assert(keys_of(s)[s.len() - 1] == k);
                }
            }
        }
        if distinct_ids(s) {
            assert(distinct_ids(pre)) by {
                assert forall|i: int, j: int| 0 <= i < j < pre.len() implies #[trigger] keys_of(pre)[i]
                    != #[trigger] keys_of(pre)[j] by {
                    assert(keys_of(s)[i] != keys_of(s)[j]);
                }
            }
            if !ids.contains(s.last().0@) {
                assert(w == rest.push(s.last()));
                assert forall|i: int, j: int| 0 <= i < j < w.len() implies #[trigger] keys_of(w)[i]
                    != #[trigger] keys_of(w)[j] by {
                    if j < rest.len() {
                        assert(keys_of(w)[i] == keys_of(rest)[i]);
                        assert(keys_of(w)[j] == keys_of(rest)[j]);
                    } else {
                        assert(keys_of(w)[i] == keys_of(rest)[i]);
                        if keys_of(rest)[i] == s.last().0@ {
                            assert(keys_of(rest).contains(s.last().0@));
                            let m = choose|m: int| 0 <= m < keys_of(pre).len() && keys_of(pre)[m] == s.last().0@;
                            assert(keys_of(s)[m] == keys_of(s)[s.len() - 1]);
                        }
                    }
                }
            }
        }
    }
}

proof fn lemma_distinct_concat<V>(a: Seq<(String, V)>, b: Seq<(String, V)>)
    requires
        distinct_ids(a),
        distinct_ids(b),
        forall|k: Seq<char>| #[trigger] keys_of(a).contains(k) ==> !keys_of(b).contains(k),
    ensures
        distinct_ids(a + b),
{
    let c = a + b;
    assert forall|i: int, j: int| 0 <= i < j < c.len() implies #[trigger] keys_of(c)[i]
        != #[trigger] keys_of(c)[j] by {
        if j < a.len() {
            assert(keys_of(c)[i] == keys_of(a)[i] && keys_of(c)[j] == keys_of(a)[j]);
        } else if i >= a.len() {
            assert(keys_of(c)[i] == keys_of(b)[i - a.len()] && keys_of(c)[j] == keys_of(b)[j - a.len()]);
        } else {
            assert(keys_of(c)[i] == keys_of(a)[i] && keys_of(c)[j] == keys_of(b)[j - a.len()]);
            assert(keys_of(a).contains(keys_of(a)[i]));
            assert(keys_of(b).contains(keys_of(b)[j - a.len()]));
        }
    }
}

fn has_id<V>(icons: &Vec<(String, V)>, id: &String) -> (r: bool)
    ensures
        r == keys_of(icons@).contains(id@),
{
    let mut i: usize = 0;
    while i < icons.len()
        invariant
            i <= icons.len(),
            forall|k: int| 0 <= k < i ==> keys_of(icons@)[k] != id@,
        decreases icons.len() - i,
    {
        if icons[i].0 == *id {
            assert(keys_of(icons@)[i as int] == id@);
            return true;
        }
        i = i + 1;
    }
    false
}

/// Merges newly fetched `icons` into the icon cache `cache` (`None` while it
/// has never been filled): the result maps each id as `spec_merged` says.
/// Cached entries whose id the new icons carry are dropped, so an id is
/// held once when the inputs hold each id once.
pub fn merge_app_icons<V>(cache: Option<Vec<(String, V)>>, icons: Vec<(String, V)>) -> (r: Vec<(String, V)>)
    ensures
        entry_map(r@) == spec_merged(
            match cache {
                Some(c) => Some(c@),
                None => None,
            },
            icons@,
        ),
        distinct_ids(icons@) && (cache matches Some(c) ==> distinct_ids(c@)) ==> distinct_ids(r@),
{
    match cache {
        None => icons,
        Some(old) => {
            let ghost orig = old@;
            let ghost ids = keys_of(icons@);
            let mut old = old;
            let mut icons = icons;
            let mut kept: Vec<(String, V)> = Vec::new();
            let ghost mut taken: int = 0;
            while old.len() > 0
                invariant
                    0 <= taken <= orig.len(),
                    old@ == orig.skip(taken),
                    kept@ == without_ids(orig.take(taken), ids),
                    ids == keys_of(icons@),
                decreases old.len(),
            {
                let e = old.remove(0);
                assert(e == orig[taken]);
                assert(orig.take(taken + 1).drop_last() =~= orig.take(taken));
                assert(orig.take(taken + 1).last() == orig[taken]);
                let dup = has_id(&icons, &e.0);
                if !dup {
                    kept.push(e);
                }
                proof {
                    taken = taken + 1;
                    assert(old@ =~= orig.skip(taken));
                }
            }
            assert(orig.take(taken) =~= orig);
            let ghost icons_before = icons@;
            kept.append(&mut icons);
            proof {
                lemma_entry_map_concat(without_ids(orig, ids), icons_before);
                lemma_merge_without(orig, icons_before);
                lemma_without_ids_keys(orig, ids);
                if distinct_ids(icons_before) && distinct_ids(orig) {
                    lemma_distinct_concat(without_ids(orig, ids), icons_before);
                }
            }
            kept
        },
    }
}

} // verus!
