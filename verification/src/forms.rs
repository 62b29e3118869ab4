//! The forms and query strings the handlers receive, and what the public
//! pages derive from them.

use vstd::prelude::*;
use crate::models::Season;
use crate::text::{contains_text, like_pattern, make_like_pattern, text_or_empty};

verus! {

/// The admin login form.
pub struct LoginForm {
    pub username: String,
    pub password: String,
}

/// The admin form that edits an episode; absent fields keep their value.
pub struct EpisodeForm {
    pub season_id: Option<i64>,
    pub episode_number: Option<i64>,
    pub title: Option<String>,
    pub video_source_primary: Option<String>,
    pub duration: Option<i64>,
}

/// The admin form that creates or edits a season.
pub struct SeasonForm {
    pub series_id: i64,
    pub season_number: i64,
    pub title: Option<String>,
}

/// The query string of the JSON search endpoint.
pub struct SearchParams {
    pub q: Option<String>,
}

/// The query string of the search page.
pub struct SearchQuery {
    pub q: Option<String>,
}

/// The query string of the series listing.
pub struct SeriesQuery {
    pub status: Option<String>,
    pub genre: Option<String>,
    pub sort: Option<String>,
}

/// What the search page searches for: the query as typed (empty without one)
/// and the `LIKE` pattern, present only for a query of at least two bytes.
pub struct PageSearch {
    pub query: String,
    pub pattern: Option<String>,
}

/// How many bytes UTF-8 takes for the character `c`.
pub open spec fn utf8_width(c: char) -> nat {
    if (c as u32) < 0x80 {
        1
    } else if (c as u32) < 0x800 {
        2
    } else if (c as u32) < 0x10000 {
        3
    } else {
        4
    }
}

/// How many bytes the UTF-8 encoding of `s` takes, as `str::len` counts.
pub open spec fn utf8_len(s: Seq<char>) -> nat
    decreases s.len(),
{
    if s.len() == 0 {
        0
    } else {
        utf8_len(s.drop_last()) + utf8_width(s.last())
    }
}

proof fn lemma_utf8_len_bounds(s: Seq<char>)
    ensures
        utf8_len(s) >= s.len(),
    decreases s.len(),
{
    if s.len() > 0 {
        lemma_utf8_len_bounds(s.drop_last());
    }
}

fn at_least_two_bytes(s: &str) -> (r: bool)
    ensures
        r == (utf8_len(s@) >= 2),
{
    let n = s.unicode_len();
    proof {
        lemma_utf8_len_bounds(s@);
    }
    if n >= 2 {
        true
    } else if n == 0 {
        false
    } else {
        let c = s.get_char(0);
        proof {
            assert(s@.drop_last() =~= Seq::<char>::empty());
            assert(utf8_len(Seq::<char>::empty()) == 0);
            assert(s@.last() == c);
            assert(utf8_len(s@) == utf8_width(c));
        }
        (c as u32) >= 0x80
    }
}

impl SearchQuery {
    /// The search to run for the page: a query shorter than two bytes (UTF-8)
    /// finds nothing and runs no search.
    pub fn page_search(&self) -> (r: PageSearch)
        ensures
            r.query@ == text_or_empty(self.q),
            r.pattern is Some <==> utf8_len(r.query@) >= 2,
            r.pattern matches Some(p) ==> p@ == like_pattern(r.query@),
    {
        let query = match &self.q {
            Some(q) => q.clone(),
            None => String::new(),
        };
        let pattern = if at_least_two_bytes(query.as_str()) {
            Some(make_like_pattern(query.as_str()))
        } else {
            None
        };
        PageSearch { query, pattern }
    }
}

impl SearchParams {
    /// The `LIKE` pattern of the JSON search, or `None` for an empty or absent
    /// query, which the endpoint answers with a message instead.
    pub fn pattern(&self) -> (r: Option<String>)
        ensures
            r is None <==> text_or_empty(self.q).len() == 0,
            r matches Some(p) ==> p@ == like_pattern(text_or_empty(self.q)),
    {
        match &self.q {
            Some(q) => if q.as_str().is_empty() {
                None
            } else {
                Some(make_like_pattern(q.as_str()))
            },
            None => None,
        }
    }
}

/// The series listing to show: the status and genre filters echoed back
/// (empty when absent), the query, and whether the status is bound to it.
pub struct SeriesListing {
    pub status: String,
    pub genre: String,
    pub sql: String,
    pub filter_by_status: bool,
}

/// The listing query: all series, newest first, only those of the given
/// status when it is not empty.
pub open spec fn series_listing_sql(status: Seq<char>) -> Seq<char> {
    if status.len() == 0 {
        "SELECT * FROM series WHERE 1=1"@ + " ORDER BY created_at DESC"@
    } else {
        "SELECT * FROM series WHERE 1=1"@ + " AND status = ?"@ + " ORDER BY created_at DESC"@
    }
}

/// The listing filters by status for every status that is given, whichever it
/// is: all non-empty statuses get one and the same query, which holds the
/// status placeholder and differs from the unfiltered query.
pub proof fn law_listing_filters_every_status(status: Seq<char>, other: Seq<char>)
    ensures
        status.len() > 0 ==> contains_text(series_listing_sql(status), " AND status = ?"@),
        status.len() > 0 && other.len() > 0 ==> series_listing_sql(status) == series_listing_sql(
            other,
        ),
        status.len() > 0 ==> series_listing_sql(status) != series_listing_sql(Seq::<char>::empty()),
{
    reveal_strlit("SELECT * FROM series WHERE 1=1");
    reveal_strlit(" AND status = ?");
    reveal_strlit(" ORDER BY created_at DESC");
    let base = "SELECT * FROM series WHERE 1=1"@;
    let filter = " AND status = ?"@;
    if status.len() > 0 {
        let q = series_listing_sql(status);
        assert(q.subrange(base.len() as int, (base.len() + filter.len()) as int) =~= filter);
        assert(q.len() != series_listing_sql(Seq::<char>::empty()).len());
    }
}

impl SeriesQuery {
    /// The listing for this query string.
    pub fn listing(&self) -> (r: SeriesListing)
        ensures
            r.status@ == text_or_empty(self.status),
            r.genre@ == text_or_empty(self.genre),
            r.filter_by_status == (r.status@.len() > 0),
            r.sql@ == series_listing_sql(r.status@),
            r.filter_by_status ==> contains_text(r.sql@, " AND status = ?"@),
    {
        let status = match &self.status {
            Some(s) => s.clone(),
            None => String::new(),
        };
        let genre = match &self.genre {
            Some(g) => g.clone(),
            None => String::new(),
        };
        let filter_by_status = !status.as_str().is_empty();
        let mut sql = String::from_str("SELECT * FROM series WHERE 1=1");
        if filter_by_status {
            sql.append(" AND status = ?");
        }
        sql.append(" ORDER BY created_at DESC");
        proof {
            law_listing_filters_every_status(status@, status@);
        }
        SeriesListing { status, genre, sql, filter_by_status }
    }
}

/// The series whose page an episode belongs to: the season's series, unless
/// the season was not found (or is the empty default with id 0).
pub fn series_to_fetch(season: &Option<Season>) -> (r: Option<i64>)
    ensures
        r == match *season {
            Some(s) => if s.id != 0 {
                Some(s.series_id)
            } else {
                None
            },
            None => None,
        },
{
    match season {
        Some(s) => if s.id != 0 {
            Some(s.series_id)
        } else {
            None
        },
        None => None,
    }
}

/// The number of characters of the stored genres used to find related series.
pub const RELATED_GENRE_PREFIX: usize = 20;

/// The genre that related series may also match.
pub const RELATED_FALLBACK_GENRE: &'static str = "Historical";

/// The `LIKE` pattern for series related to one with these stored genres:
/// the first twenty characters of the stored value (empty without one).
pub fn related_genre_pattern(genres: &Option<String>) -> (r: String)
    ensures
        r@ == like_pattern(
            if text_or_empty(*genres).len() <= RELATED_GENRE_PREFIX {
                text_or_empty(*genres)
            } else {
                text_or_empty(*genres).subrange(0, RELATED_GENRE_PREFIX as int)
            },
        ),
{
    let text = crate::text::str_or_empty(genres);
    let n = text.unicode_len();
    let take = if n <= RELATED_GENRE_PREFIX {
        n
    } else {
        RELATED_GENRE_PREFIX
    };
    let head = text.substring_char(0, take);
    proof {
        if n <= RELATED_GENRE_PREFIX {
            assert(head@ =~= text@);
        }
    }
    make_like_pattern(head)
}

} // verus!
