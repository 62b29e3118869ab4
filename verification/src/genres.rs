//! Genre lists: a series stores its genres as a JSON array of strings; the
//! home page shows the first distinct genres over all series.

use vstd::prelude::*;

verus! {

/// What `serde_json::from_str::<Vec<String>>(text).ok()` gives: the strings of
/// `text` when it is a JSON array of strings, else `None`.
pub uninterp spec fn json_string_list(text: Seq<char>) -> Option<Seq<Seq<char>>>;

/// Parses `text` as a JSON array of strings with `serde_json::from_str`; the
/// result is named by `json_string_list`, and no more is claimed of it.
#[verifier::external_body]
pub(crate) fn parse_string_list(text: &str) -> (r: Option<Vec<String>>)
    ensures
        r.deep_view() == json_string_list(text@),
{
    serde_json::from_str::<Vec<String>>(text).ok()
}

/// The genres a stored `genres` value lists: none when it is absent or does
/// not parse.
pub open spec fn genres_of(genres: Option<String>) -> Seq<Seq<char>> {
    match genres {
        Some(g) => match json_string_list(g@) {
            Some(list) => list,
            None => Seq::<Seq<char>>::empty(),
        },
        None => Seq::<Seq<char>>::empty(),
    }
}


/// The most genres the home page lists.
pub const HOME_GENRE_LIMIT: usize = 10;

/// All names of the given genre lists, list after list.
pub open spec fn flatten_lists(lists: Seq<Seq<Seq<char>>>) -> Seq<Seq<char>>
    decreases lists.len(),
{
    if lists.len() == 0 {
        Seq::<Seq<char>>::empty()
    } else {
        flatten_lists(lists.drop_last()) + lists.last()
    }
}

/// The genre lists of the stored `genres` values, one per value.
pub open spec fn stored_genre_lists(stored: Seq<Option<String>>) -> Seq<Seq<Seq<char>>> {
    stored.map_values(|g: Option<String>| genres_of(g))
}

/// All genre names the stored `genres` values list, value after value.
pub open spec fn listed_genres(stored: Seq<Option<String>>) -> Seq<Seq<char>> {
    flatten_lists(stored_genre_lists(stored))
}

/// The items of `s` without repeats, each where it first occurs.
pub open spec fn first_occurrences(s: Seq<Seq<char>>) -> Seq<Seq<char>>
    decreases s.len(),
{
    if s.len() == 0 {
        Seq::<Seq<char>>::empty()
    } else {
        let d = first_occurrences(s.drop_last());
        if d.contains(s.last()) {
            d
        } else {
            d.push(s.last())
        }
    }
}

/// The first `n` items of `s`, or all of them when there are fewer.
pub open spec fn at_most(s: Seq<Seq<char>>, n: nat) -> Seq<Seq<char>> {
    if s.len() <= n {
        s
    } else {
        s.subrange(0, n as int)
    }
}

/// The genres the home page lists for these genre lists: the distinct names
/// in order of first appearance, at most ten.
pub open spec fn distinct_genre_list(lists: Seq<Seq<Seq<char>>>) -> Seq<Seq<char>> {
    at_most(first_occurrences(flatten_lists(lists)), HOME_GENRE_LIMIT as nat)
}

/// The genres the home page lists for the stored `genres` values.
pub open spec fn home_genre_list(stored: Seq<Option<String>>) -> Seq<Seq<char>> {
    distinct_genre_list(stored_genre_lists(stored))
}

fn contains_text(v: &Vec<String>, s: &String) -> (r: bool)
    ensures
        r == v.deep_view().contains(s@),
{
    let mut i: usize = 0;
    while i < v.len()
        invariant
            i <= v.len(),
            forall|j: int| 0 <= j < i ==> (#[trigger] v.deep_view()[j]) != s@,
        decreases v.len() - i,
    {
        if v[i] == *s {
            proof {
                assert(v.deep_view()[i as int] == s@);
            }
            return true;
        }
        i = i + 1;
    }
    false
}

/// The genres for the home page from the genre lists of all series: repeats
/// are dropped keeping first appearances, and the first ten are kept.
pub fn distinct_genres(lists: &Vec<Vec<String>>) -> (r: Vec<String>)
    ensures
        r.deep_view() == distinct_genre_list(lists.deep_view()),
{
    let mut genres: Vec<String> = Vec::new();
    let mut k: usize = 0;
    proof {
        assert(lists.deep_view().subrange(0, 0) =~= Seq::<Seq<Seq<char>>>::empty());
        assert(genres.deep_view() =~= Seq::<Seq<char>>::empty());
    }
    while k < lists.len()
        invariant
            k <= lists.len(),
            genres.deep_view() == first_occurrences(
                flatten_lists(lists.deep_view().subrange(0, k as int)),
            ),
        decreases lists.len() - k,
    {
        let ghost base = flatten_lists(lists.deep_view().subrange(0, k as int));
        let list = &lists[k];
        proof {
            let next = lists.deep_view().subrange(0, k + 1);
            assert(next.drop_last() =~= lists.deep_view().subrange(0, k as int));
            assert(next.last() == list.deep_view());
            assert(flatten_lists(next) == base + list.deep_view());
            assert(base + list.deep_view().subrange(0, 0) =~= base);
        }
        let mut j: usize = 0;
        while j < list.len()
            invariant
                j <= list.len(),
                genres.deep_view() == first_occurrences(
                    base + list.deep_view().subrange(0, j as int),
                ),
            decreases list.len() - j,
        {
            let ghost so_far = base + list.deep_view().subrange(0, j as int);
            let ghost grown = base + list.deep_view().subrange(0, j + 1);
            proof {
                assert(grown.drop_last() =~= so_far);
                assert(grown.last() == list.deep_view()[j as int]);
                assert(list.deep_view()[j as int] == list[j as int]@);
            }
            let seen = contains_text(&genres, &list[j]);
            if !seen {
                let ghost before = genres.deep_view();
                genres.push(list[j].clone());
                proof {
                    assert(genres.deep_view() =~= before.push(list[j as int]@));
                }
            }
            j = j + 1;
        }
        proof {
            assert(list.deep_view().subrange(0, list.len() as int) =~= list.deep_view());
        }
        k = k + 1;
    }
    proof {
        assert(lists.deep_view().subrange(0, lists.len() as int) =~= lists.deep_view());
    }
    let ghost all = genres.deep_view();
    genres.truncate(HOME_GENRE_LIMIT);
    proof {
        assert(genres.deep_view() =~= at_most(all, HOME_GENRE_LIMIT as nat));
    }
    genres
}

/// The genres for the home page from the stored `genres` values: each value
/// is parsed as a JSON array of strings (absent values and values that do not
/// parse contribute nothing), then `distinct_genres` keeps the first ten
/// distinct names.
pub fn home_genres(stored: &Vec<Option<String>>) -> (r: Vec<String>)
    ensures
        r.deep_view() == home_genre_list(stored@),
{
    let mut lists: Vec<Vec<String>> = Vec::new();
    let mut k: usize = 0;
    while k < stored.len()
        invariant
            k <= stored.len(),
            lists.deep_view() =~= stored_genre_lists(stored@.subrange(0, k as int)),
        decreases stored.len() - k,
    {
        let parsed: Vec<String> = match &stored[k] {
            Some(text) => match parse_string_list(text.as_str()) {
                Some(list) => list,
                None => Vec::new(),
            },
            None => Vec::new(),
        };
        let ghost before = lists.deep_view();
        proof {
            assert(parsed.deep_view() =~= genres_of(stored@[k as int]));
        }
        lists.push(parsed);
        proof {
            assert(lists.deep_view() =~= before.push(genres_of(stored@[k as int])));
            assert(stored_genre_lists(stored@.subrange(0, k + 1)) =~= stored_genre_lists(
                stored@.subrange(0, k as int),
            ).push(genres_of(stored@[k as int])));
        }
        k = k + 1;
    }
    proof {
        assert(stored@.subrange(0, stored.len() as int) =~= stored@);
    }
    distinct_genres(&lists)
}

proof fn lemma_first_occurrences(s: Seq<Seq<char>>)
    ensures
        forall|i: int, j: int|
            0 <= i < j < first_occurrences(s).len() ==> #[trigger] first_occurrences(s)[i]
                != #[trigger] first_occurrences(s)[j],
        forall|x: Seq<char>| #[trigger] first_occurrences(s).contains(x) <==> s.contains(x),
    decreases s.len(),
{
    if s.len() > 0 {
        let prev = s.drop_last();
        lemma_first_occurrences(prev);
        let d = first_occurrences(prev);
        let f = first_occurrences(s);
        let last = s.last();
        assert(d.contains(last) <==> prev.contains(last));
        assert forall|x: Seq<char>| #[trigger] f.contains(x) <==> s.contains(x) by {
            assert(d.contains(x) <==> prev.contains(x));
            if s.contains(x) {
                let k = choose|k: int| 0 <= k < s.len() && s[k] == x;
                if k < s.len() - 1 {
                    assert(prev[k] == x);
                    assert(prev.contains(x));
                }
            }
            if prev.contains(x) {
                let k = choose|k: int| 0 <= k < prev.len() && prev[k] == x;
                assert(s[k] == x);
            }
            if x == last {
                assert(s[s.len() - 1] == x);
            }
            if d.contains(last) {
                assert(f == d);
            } else {
                assert(f == d.push(last));
                if f.contains(x) {
                    let k = choose|k: int| 0 <= k < f.len() && f[k] == x;
                    if k < d.len() {
                        assert(d[k] == x);
                    }
                }
                if d.contains(x) {
                    let k = choose|k: int| 0 <= k < d.len() && d[k] == x;
                    assert(f[k] == x);
                }
                if x == last {
                    assert(f[d.len() as int] == x);
                }
            }
        }
        if !d.contains(last) {
            assert forall|i: int, j: int| 0 <= i < j < f.len() implies #[trigger] f[i]
                != #[trigger] f[j] by {
                if j == d.len() {
                    assert(f[i] == d[i]);
                    assert(d.contains(d[i]));
                } else {
                    assert(f[i] == d[i] && f[j] == d[j]);
                }
            }
        }
    }
}

/// The home page lists each genre once and at most ten of them, every one a
/// genre that some series lists; when the series list ten distinct genres or
/// fewer, it lists them all. Stated over the parsed genre lists, so it holds
/// of `distinct_genres` and, through it, of `home_genres`.
pub proof fn law_home_genres(lists: Seq<Seq<Seq<char>>>)
    ensures
        distinct_genre_list(lists).len() <= HOME_GENRE_LIMIT,
        forall|i: int, j: int|
            0 <= i < j < distinct_genre_list(lists).len() ==> #[trigger] distinct_genre_list(
                lists,
            )[i] != #[trigger] distinct_genre_list(lists)[j],
        forall|g: Seq<char>| #[trigger]
            distinct_genre_list(lists).contains(g) ==> flatten_lists(lists).contains(g),
        first_occurrences(flatten_lists(lists)).len() <= HOME_GENRE_LIMIT ==> forall|g: Seq<char>|
            #[trigger] flatten_lists(lists).contains(g) ==> distinct_genre_list(lists).contains(g),
{
    let all = flatten_lists(lists);
    let d = first_occurrences(all);
    lemma_first_occurrences(all);
    let h = distinct_genre_list(lists);
    assert forall|i: int, j: int| 0 <= i < j < h.len() implies #[trigger] h[i] != #[trigger] h[j] by {
        assert(h[i] == d[i]);
        assert(h[j] == d[j]);
    }
    assert forall|g: Seq<char>| #[trigger] h.contains(g) implies all.contains(g) by {
        let k = choose|k: int| 0 <= k < h.len() && h[k] == g;
        assert(d[k] == g);
        assert(d.contains(g));
    }
}

} // verus!
