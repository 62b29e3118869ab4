//! What the admin handlers decide: slugs and defaults of a new series, where
//! uploaded images go and which column records them, and the episode and
//! settings forms as they are read field by field.

use vstd::prelude::*;
use crate::numbers::{decimal_text, format_i64, format_u64, decimal_digits, parse_i64, parsed_i64};
use crate::models::SiteSetting;
use crate::text::text_equals;

verus! {

/// What `str::to_lowercase` gives for `s`: its lowercase as std's Unicode
/// rules define it (a character may map to several, and a final sigma is
/// lowercased by its context).
pub uninterp spec fn lowercase(s: Seq<char>) -> Seq<char>;

/// Lowercases `s` with `str::to_lowercase`; the result is named by
/// `lowercase`, and no more is claimed of it.
#[verifier::external_body]
fn to_lowercase(s: &str) -> (r: String)
    ensures
        r@ == lowercase(s@),
{
    s.to_lowercase()
}

/// The slug of an already lowercased title: every space becomes `-`, every
/// `:` and `'` is dropped, and every other character is kept.
pub open spec fn slug_of_lowercase(s: Seq<char>) -> Seq<char>
    decreases s.len(),
{
    if s.len() == 0 {
        Seq::<char>::empty()
    } else {
        let p = slug_of_lowercase(s.drop_last());
        let c = s.last();
        if c == ' ' {
            p.push('-')
        } else if c == ':' || c == '\'' {
            p
        } else {
            p.push(c)
        }
    }
}

/// The slug of a lowercased title, as the rest of `make_slug` computes it.
pub fn slug_from_lowercase(lower: &str) -> (r: String)
    ensures
        r@ == slug_of_lowercase(lower@),
{
    let n = lower.unicode_len();
    let mut slug = String::new();
    let mut i: usize = 0;
    proof {
        assert(lower@.subrange(0, 0) =~= Seq::<char>::empty());
    }
    while i < n
        invariant
            n == lower@.len(),
            i <= n,
            slug@ == slug_of_lowercase(lower@.subrange(0, i as int)),
        decreases n - i,
    {
        let c = lower.get_char(i);
        let ghost prefix = lower@.subrange(0, i + 1);
        proof {
            assert(prefix.drop_last() =~= lower@.subrange(0, i as int));
            assert(prefix.last() == c);
        }
        if c == ' ' {
            proof {
                reveal_strlit("-");
            }
            slug.append("-");
        } else if c == ':' || c == '\'' {
        } else {
            slug.append(lower.substring_char(i, i + 1));
            proof {
                assert(lower@.subrange(i as int, i + 1) =~= seq![c]);
            }
        }
        i = i + 1;
    }
    proof {
        assert(lower@.subrange(0, n as int) =~= lower@);
    }
    slug
}

/// The slug a new series is stored under: the title lowercased, spaces turned
/// into `-`, colons and apostrophes removed.
pub fn make_slug(title: &str) -> (r: String)
    ensures
        r@ == slug_of_lowercase(lowercase(title@)),
{
    let lower = to_lowercase(title);
    slug_from_lowercase(lower.as_str())
}

/// A slug never holds a space, a colon or an apostrophe, and is no longer than
/// the lowercased title it comes from.
pub proof fn law_slug_is_clean(lower: Seq<char>)
    ensures
        !slug_of_lowercase(lower).contains(' '),
        !slug_of_lowercase(lower).contains(':'),
        !slug_of_lowercase(lower).contains('\''),
        slug_of_lowercase(lower).len() <= lower.len(),
    decreases lower.len(),
{
    if lower.len() > 0 {
        let prev = lower.drop_last();
        law_slug_is_clean(prev);
        let p = slug_of_lowercase(prev);
        let s = slug_of_lowercase(lower);
        let c = lower.last();
        assert forall|x: char| x == ' ' || x == ':' || x == '\'' implies !s.contains(x) by {
            if s.contains(x) {
                let k = choose|k: int| 0 <= k < s.len() && s[k] == x;
                if k < p.len() {
                    assert(p[k] == x);
                    assert(p.contains(x));
                }
            }
        }
    }
}

/// Whether `c` is a `:` or a `'`, the characters a slug drops.
pub open spec fn is_dropped_from_slug(c: char) -> bool {
    c == ':' || c == '\''
}

/// A slug keeps every other character of the title, in order: it is as long
/// as the lowercased title less its colons and apostrophes, and apart from its
/// hyphens it reads as the title without spaces, colons, apostrophes and
/// hyphens.
pub proof fn law_slug_keeps_other_characters(lower: Seq<char>)
    ensures
        slug_of_lowercase(lower).len() + lower.filter(|c: char| is_dropped_from_slug(c)).len()
            == lower.len(),
        slug_of_lowercase(lower).filter(|c: char| c != '-') == lower.filter(
            |c: char| c != ' ' && !is_dropped_from_slug(c) && c != '-',
        ),
    decreases lower.len(),
{
    let dropped = |c: char| is_dropped_from_slug(c);
    let not_hyphen = |c: char| c != '-';
    let kept = |c: char| c != ' ' && !is_dropped_from_slug(c) && c != '-';
    if lower.len() == 0 {
        reveal(Seq::filter);
        assert(slug_of_lowercase(lower) =~= Seq::<char>::empty());
    } else {
        let prev = lower.drop_last();
        let c = lower.last();
        law_slug_keeps_other_characters(prev);
        assert(prev.push(c) =~= lower);
        prev.lemma_filter_push(c, dropped);
        prev.lemma_filter_push(c, kept);
        let p = slug_of_lowercase(prev);
        if c == ' ' {
            p.lemma_filter_push('-', not_hyphen);
        } else if !is_dropped_from_slug(c) {
            p.lemma_filter_push(c, not_hyphen);
        }
    }
}

/// The status a series is stored with: the submitted one, `ongoing` without.
pub open spec fn status_or_ongoing(status: Option<String>) -> Seq<char> {
    match status {
        Some(s) => s@,
        None => "ongoing"@,
    }
}

/// `status.as_deref().unwrap_or("ongoing")`.
pub fn series_status(status: &Option<String>) -> (r: String)
    ensures
        r@ == status_or_ongoing(*status),
{
    match status {
        Some(s) => s.clone(),
        None => String::from_str("ongoing"),
    }
}

/// The values a new series is stored with that the form does not give as is.
pub struct NewSeries {
    pub title: String,
    pub slug: String,
    pub status: String,
    pub featured: bool,
}

/// The derived values of a new series from the create form: the title (empty
/// without one), its slug, the status (`ongoing` without one) and whether the
/// featured box was ticked (the field is present at all).
pub fn new_series(title: &Option<String>, status: &Option<String>, featured: &Option<String>) -> (r:
    NewSeries)
    ensures
        r.title@ == crate::text::text_or_empty(*title),
        r.slug@ == slug_of_lowercase(lowercase(r.title@)),
        r.status@ == status_or_ongoing(*status),
        r.featured == featured.is_some(),
{
    let t = match title {
        Some(t) => t.clone(),
        None => String::new(),
    };
    let slug = make_slug(t.as_str());
    NewSeries { title: t, slug, status: series_status(status), featured: featured.is_some() }
}


/// What `file_name.rsplit('.').next()` gives: the text after the last `.`,
/// or the whole name when it has none.
pub open spec fn extension(file_name: Seq<char>) -> Seq<char>
    decreases file_name.len(),
{
    if file_name.len() == 0 {
        file_name
    } else if file_name.last() == '.' {
        Seq::<char>::empty()
    } else {
        extension(file_name.drop_last()).push(file_name.last())
    }
}

proof fn lemma_extension_from(s: Seq<char>, k: int, n: int)
    requires
        0 <= k <= n <= s.len(),
        forall|i: int| k <= i < n ==> #[trigger] s[i] != '.',
        k == 0 || s[k - 1] == '.',
    ensures
        extension(s.subrange(0, n)) == s.subrange(k, n),
    decreases n,
{
    let t = s.subrange(0, n);
    if n == 0 {
        assert(t =~= s.subrange(k, n));
    } else if n == k {
        assert(t.last() == '.');
        assert(s.subrange(k, n) =~= Seq::<char>::empty());
    } else {
        lemma_extension_from(s, k, n - 1);
        assert(t.drop_last() =~= s.subrange(0, n - 1));
        assert(s.subrange(k, n - 1).push(s[n - 1]) =~= s.subrange(k, n));
    }
}

/// The extension of a file name, as `rsplit('.').next()` yields it.
pub fn file_extension(file_name: &str) -> (r: &str)
    ensures
        r@ == extension(file_name@),
{
    let n = file_name.unicode_len();
    let mut k = n;
    while k > 0
        invariant
            n == file_name@.len(),
            k <= n,
            forall|i: int| k <= i < n ==> #[trigger] file_name@[i] != '.',
        ensures
            k == 0 || file_name@[k - 1] == '.',
            forall|i: int| k <= i < n ==> #[trigger] file_name@[i] != '.',
        decreases k,
    {
        if file_name.get_char(k - 1) == '.' {
            break;
        }
        k = k - 1;
    }
    proof {
        lemma_extension_from(file_name@, k as int, n as int);
        assert(file_name@.subrange(0, n as int) =~= file_name@);
    }
    file_name.substring_char(k, n)
}

/// Which directory under `public/uploads/` an image field is saved to.
pub open spec fn image_dir(field_name: Seq<char>) -> Seq<char> {
    if field_name == "backdrop"@ {
        "backdrops"@
    } else {
        "thumbnails"@
    }
}

/// Which column of a series records an image field.
pub open spec fn image_column(field_name: Seq<char>) -> Seq<char> {
    if field_name == "backdrop"@ {
        "backdrop"@
    } else {
        "thumbnail"@
    }
}

/// Where an uploaded series image is saved and how the series records it.
pub struct ImageUpload {
    /// The file name, `{id}_{field}.{extension}`.
    pub saved_name: String,
    /// The path the bytes are written to.
    pub save_path: String,
    /// The statement that records the file name, with the file name and the
    /// series id to bind.
    pub sql: String,
}

/// The plan for one field of a series image upload: `None` (the field is
/// skipped) when it carries no bytes or no file name; else the file is saved
/// as `{id}_{field}.{extension}` under `backdrops` for the field `backdrop` and
/// under `thumbnails` for any other, and the matching column is updated.
pub fn series_image_upload(id: i64, field_name: &str, file_name: &str, data_len: usize) -> (r:
    Option<ImageUpload>)
    ensures
        r is None <==> (data_len == 0 || file_name@.len() == 0),
        r matches Some(u) ==> {
            &&& u.saved_name@ == decimal_text(id as int) + "_"@ + field_name@ + "."@ + extension(
                file_name@,
            )
            &&& u.save_path@ == "public/uploads/"@ + image_dir(field_name@) + "/"@ + u.saved_name@
            &&& u.sql@ == "UPDATE series SET "@ + image_column(field_name@)
                + " = ?, updated_at = datetime('now') WHERE id = ?"@
        },
{
    if data_len == 0 || file_name.unicode_len() == 0 {
        return None;
    }
    let ext = file_extension(file_name);
    let saved_name = format_i64(id).concat("_").concat(field_name).concat(".").concat(ext);
    let is_backdrop = text_equals(field_name, "backdrop");
    let dir = if is_backdrop {
        "backdrops"
    } else {
        "thumbnails"
    };
    let column = if is_backdrop {
        "backdrop"
    } else {
        "thumbnail"
    };
    let save_path = String::from_str("public/uploads/").concat(dir).concat("/").concat(
        saved_name.as_str(),
    );
    let sql = String::from_str("UPDATE series SET ").concat(column).concat(
        " = ?, updated_at = datetime('now') WHERE id = ?",
    );
    Some(ImageUpload { saved_name, save_path, sql })
}

/// Every image upload is saved under `public/uploads/` in the directory that
/// matches the column it updates: backdrops for `backdrop`, thumbnails for
/// `thumbnail`, and no other column is ever written.
pub proof fn law_image_upload_targets(field_name: Seq<char>)
    ensures
        image_column(field_name) == "backdrop"@ || image_column(field_name) == "thumbnail"@,
        image_column(field_name) == "backdrop"@ <==> image_dir(field_name) == "backdrops"@,
{
    reveal_strlit("backdrop");
    reveal_strlit("thumbnail");
    reveal_strlit("backdrops");
    reveal_strlit("thumbnails");
    if image_column(field_name) == "thumbnail"@ {
        assert(("thumbnail"@)[1] != ("backdrop"@)[1]);
        assert(("thumbnails"@)[1] != ("backdrops"@)[1]);
    }
}

/// Where the browser goes after an image upload: the series' edit page.
pub fn series_edit_path(id: i64) -> (r: String)
    ensures
        r@ == "/admin/series/"@ + decimal_text(id as int) + "/edit"@,
{
    String::from_str("/admin/series/").concat(format_i64(id).as_str()).concat("/edit")
}


/// The number a text field holds, as `text.and_then(|v| i64::from_str(&v).ok())`
/// reads it: `None` when the field could not be read or is not a number.
pub open spec fn parsed_text(text: Option<String>) -> Option<i64> {
    match text {
        Some(t) => parsed_i64(t@),
        None => None,
    }
}

fn parse_text(text: Option<String>) -> (r: Option<i64>)
    ensures
        r == parsed_text(text),
{
    match text {
        Some(t) => parse_i64(t.as_str()),
        None => None,
    }
}

/// A new episode as its multipart form is read, field by field.
pub struct EpisodeDraft {
    pub season_id: Option<i64>,
    pub episode_number: Option<i64>,
    pub title: Option<String>,
    pub description: Option<String>,
    pub video_source_primary: Option<String>,
    pub video_source_backup: Option<String>,
    pub duration: Option<i64>,
    pub download_link: Option<String>,
    pub size_1080p: Option<String>,
    pub download_bluray: Option<String>,
    pub size_bluray: Option<String>,
    pub download_720p: Option<String>,
    pub size_720p: Option<String>,
    pub download_480p: Option<String>,
    pub size_480p: Option<String>,
    /// The stored name of the uploaded thumbnail.
    pub thumbnail: Option<String>,
}

/// The form fields that carry text (some of which hold numbers).
pub open spec fn is_episode_text_field(name: Seq<char>) -> bool {
    ||| name == "season_id"@
    ||| name == "episode_number"@
    ||| name == "title"@
    ||| name == "description"@
    ||| name == "video_source_primary"@
    ||| name == "video_source_backup"@
    ||| name == "duration"@
    ||| name == "download_link"@
    ||| name == "size_1080p"@
    ||| name == "download_bluray"@
    ||| name == "size_bluray"@
    ||| name == "download_720p"@
    ||| name == "size_720p"@
    ||| name == "download_480p"@
    ||| name == "size_480p"@
}

/// The draft after the text field `name` was read as `text` (`None` when
/// reading it failed): the field of that name takes the text, or the number
/// it holds for `season_id`, `episode_number` and `duration`; a field of any
/// other name changes nothing.
pub open spec fn with_text_field(d: EpisodeDraft, name: Seq<char>, text: Option<String>) -> EpisodeDraft {
    if name == "season_id"@ {
        EpisodeDraft { season_id: parsed_text(text), ..d }
    } else if name == "episode_number"@ {
        EpisodeDraft { episode_number: parsed_text(text), ..d }
    } else if name == "title"@ {
        EpisodeDraft { title: text, ..d }
    } else if name == "description"@ {
        EpisodeDraft { description: text, ..d }
    } else if name == "video_source_primary"@ {
        EpisodeDraft { video_source_primary: text, ..d }
    } else if name == "video_source_backup"@ {
        EpisodeDraft { video_source_backup: text, ..d }
    } else if name == "duration"@ {
        EpisodeDraft { duration: parsed_text(text), ..d }
    } else if name == "download_link"@ {
        EpisodeDraft { download_link: text, ..d }
    } else if name == "size_1080p"@ {
        EpisodeDraft { size_1080p: text, ..d }
    } else if name == "download_bluray"@ {
        EpisodeDraft { download_bluray: text, ..d }
    } else if name == "size_bluray"@ {
        EpisodeDraft { size_bluray: text, ..d }
    } else if name == "download_720p"@ {
        EpisodeDraft { download_720p: text, ..d }
    } else if name == "size_720p"@ {
        EpisodeDraft { size_720p: text, ..d }
    } else if name == "download_480p"@ {
        EpisodeDraft { download_480p: text, ..d }
    } else if name == "size_480p"@ {
        EpisodeDraft { size_480p: text, ..d }
    } else {
        d
    }
}

/// Reading the same field again replaces what was read before: only the last
/// value of a repeated field is kept.
pub proof fn law_last_field_value_wins(
    d: EpisodeDraft,
    name: Seq<char>,
    first: Option<String>,
    second: Option<String>,
)
    ensures
        with_text_field(with_text_field(d, name, first), name, second) == with_text_field(
            d,
            name,
            second,
        ),
{
}

/// The fields read as text are exactly those that recording can change: a
/// field of any other name leaves the draft as it was.
pub proof fn law_only_text_fields_are_recorded(d: EpisodeDraft, name: Seq<char>, text: Option<String>)
    ensures
        !is_episode_text_field(name) ==> with_text_field(d, name, text) == d,
{
}

/// Recording a text field changes that field and nothing else: after reading
/// `name` as `text`, the field called `name` holds the text (or, for the
/// numeric fields, the number it holds), every other field keeps its value,
/// and the thumbnail is never touched by a text field.
pub proof fn law_text_field_changes_only_its_field(
    d: EpisodeDraft,
    name: Seq<char>,
    text: Option<String>,
)
    ensures
        with_text_field(d, name, text).season_id == (if name == "season_id"@ {
            parsed_text(text)
        } else {
            d.season_id
        }),
        with_text_field(d, name, text).episode_number == (if name == "episode_number"@ {
            parsed_text(text)
        } else {
            d.episode_number
        }),
        with_text_field(d, name, text).title == (if name == "title"@ {
            text
        } else {
            d.title
        }),
        with_text_field(d, name, text).description == (if name == "description"@ {
            text
        } else {
            d.description
        }),
        with_text_field(d, name, text).video_source_primary == (if name == "video_source_primary"@ {
            text
        } else {
            d.video_source_primary
        }),
        with_text_field(d, name, text).video_source_backup == (if name == "video_source_backup"@ {
            text
        } else {
            d.video_source_backup
        }),
        with_text_field(d, name, text).duration == (if name == "duration"@ {
            parsed_text(text)
        } else {
            d.duration
        }),
        with_text_field(d, name, text).download_link == (if name == "download_link"@ {
            text
        } else {
            d.download_link
        }),
        with_text_field(d, name, text).size_1080p == (if name == "size_1080p"@ {
            text
        } else {
            d.size_1080p
        }),
        with_text_field(d, name, text).download_bluray == (if name == "download_bluray"@ {
            text
        } else {
            d.download_bluray
        }),
        with_text_field(d, name, text).size_bluray == (if name == "size_bluray"@ {
            text
        } else {
            d.size_bluray
        }),
        with_text_field(d, name, text).download_720p == (if name == "download_720p"@ {
            text
        } else {
            d.download_720p
        }),
        with_text_field(d, name, text).size_720p == (if name == "size_720p"@ {
            text
        } else {
            d.size_720p
        }),
        with_text_field(d, name, text).download_480p == (if name == "download_480p"@ {
            text
        } else {
            d.download_480p
        }),
        with_text_field(d, name, text).size_480p == (if name == "size_480p"@ {
            text
        } else {
            d.size_480p
        }),
        with_text_field(d, name, text).thumbnail == d.thumbnail,
{
    // the field names are pairwise different texts
    reveal_strlit("season_id");
    reveal_strlit("episode_number");
    reveal_strlit("title");
    reveal_strlit("description");
    reveal_strlit("video_source_primary");
    reveal_strlit("video_source_backup");
    reveal_strlit("duration");
    reveal_strlit("download_link");
    reveal_strlit("size_1080p");
    reveal_strlit("download_bluray");
    reveal_strlit("size_bluray");
    reveal_strlit("download_720p");
    reveal_strlit("size_720p");
    reveal_strlit("download_480p");
    reveal_strlit("size_480p");
    assert("season_id"@.len() != "episode_number"@.len());
    assert("season_id"@.len() != "title"@.len());
    assert("season_id"@.len() != "description"@.len());
    assert("season_id"@.len() != "video_source_primary"@.len());
    assert("season_id"@.len() != "video_source_backup"@.len());
    assert("season_id"@.len() != "duration"@.len());
    assert("season_id"@.len() != "download_link"@.len());
    assert("season_id"@.len() != "size_1080p"@.len());
    assert("season_id"@.len() != "download_bluray"@.len());
    assert("season_id"@.len() != "size_bluray"@.len());
    assert("season_id"@.len() != "download_720p"@.len());
    assert("season_id"@[1] != "size_720p"@[1]);
    assert("season_id"@.len() != "download_480p"@.len());
    assert("season_id"@[1] != "size_480p"@[1]);
    assert("episode_number"@.len() != "title"@.len());
    assert("episode_number"@.len() != "description"@.len());
    assert("episode_number"@.len() != "video_source_primary"@.len());
    assert("episode_number"@.len() != "video_source_backup"@.len());
    assert("episode_number"@.len() != "duration"@.len());
    assert("episode_number"@.len() != "download_link"@.len());
    assert("episode_number"@.len() != "size_1080p"@.len());
    assert("episode_number"@.len() != "download_bluray"@.len());
    assert("episode_number"@.len() != "size_bluray"@.len());
    assert("episode_number"@.len() != "download_720p"@.len());
    assert("episode_number"@.len() != "size_720p"@.len());
    assert("episode_number"@.len() != "download_480p"@.len());
    assert("episode_number"@.len() != "size_480p"@.len());
    assert("title"@.len() != "description"@.len());
    assert("title"@.len() != "video_source_primary"@.len());
    assert("title"@.len() != "video_source_backup"@.len());
    assert("title"@.len() != "duration"@.len());
    assert("title"@.len() != "download_link"@.len());
    assert("title"@.len() != "size_1080p"@.len());
    assert("title"@.len() != "download_bluray"@.len());
    assert("title"@.len() != "size_bluray"@.len());
    assert("title"@.len() != "download_720p"@.len());
    assert("title"@.len() != "size_720p"@.len());
    assert("title"@.len() != "download_480p"@.len());
    assert("title"@.len() != "size_480p"@.len());
    assert("description"@.len() != "video_source_primary"@.len());
    assert("description"@.len() != "video_source_backup"@.len());
    assert("description"@.len() != "duration"@.len());
    assert("description"@.len() != "download_link"@.len());
    assert("description"@.len() != "size_1080p"@.len());
    assert("description"@.len() != "download_bluray"@.len());
    assert("description"@[0] != "size_bluray"@[0]);
    assert("description"@.len() != "download_720p"@.len());
    assert("description"@.len() != "size_720p"@.len());
    assert("description"@.len() != "download_480p"@.len());
    assert("description"@.len() != "size_480p"@.len());
    assert("video_source_primary"@.len() != "video_source_backup"@.len());
    assert("video_source_primary"@.len() != "duration"@.len());
    assert("video_source_primary"@.len() != "download_link"@.len());
    assert("video_source_primary"@.len() != "size_1080p"@.len());
    assert("video_source_primary"@.len() != "download_bluray"@.len());
    assert("video_source_primary"@.len() != "size_bluray"@.len());
    assert("video_source_primary"@.len() != "download_720p"@.len());
    assert("video_source_primary"@.len() != "size_720p"@.len());
    assert("video_source_primary"@.len() != "download_480p"@.len());
    assert("video_source_primary"@.len() != "size_480p"@.len());
    assert("video_source_backup"@.len() != "duration"@.len());
    assert("video_source_backup"@.len() != "download_link"@.len());
    assert("video_source_backup"@.len() != "size_1080p"@.len());
    assert("video_source_backup"@.len() != "download_bluray"@.len());
    assert("video_source_backup"@.len() != "size_bluray"@.len());
    assert("video_source_backup"@.len() != "download_720p"@.len());
    assert("video_source_backup"@.len() != "size_720p"@.len());
    assert("video_source_backup"@.len() != "download_480p"@.len());
    assert("video_source_backup"@.len() != "size_480p"@.len());
    assert("duration"@.len() != "download_link"@.len());
    assert("duration"@.len() != "size_1080p"@.len());
    assert("duration"@.len() != "download_bluray"@.len());
    assert("duration"@.len() != "size_bluray"@.len());
    assert("duration"@.len() != "download_720p"@.len());
    assert("duration"@.len() != "size_720p"@.len());
    assert("duration"@.len() != "download_480p"@.len());
    assert("duration"@.len() != "size_480p"@.len());
    assert("download_link"@.len() != "size_1080p"@.len());
    assert("download_link"@.len() != "download_bluray"@.len());
    assert("download_link"@.len() != "size_bluray"@.len());
    assert("download_link"@[9] != "download_720p"@[9]);
    assert("download_link"@.len() != "size_720p"@.len());
    assert("download_link"@[9] != "download_480p"@[9]);
    assert("download_link"@.len() != "size_480p"@.len());
    assert("size_1080p"@.len() != "download_bluray"@.len());
    assert("size_1080p"@.len() != "size_bluray"@.len());
    assert("size_1080p"@.len() != "download_720p"@.len());
    assert("size_1080p"@.len() != "size_720p"@.len());
    assert("size_1080p"@.len() != "download_480p"@.len());
    assert("size_1080p"@.len() != "size_480p"@.len());
    assert("download_bluray"@.len() != "size_bluray"@.len());
    assert("download_bluray"@.len() != "download_720p"@.len());
    assert("download_bluray"@.len() != "size_720p"@.len());
    assert("download_bluray"@.len() != "download_480p"@.len());
    assert("download_bluray"@.len() != "size_480p"@.len());
    assert("size_bluray"@.len() != "download_720p"@.len());
    assert("size_bluray"@.len() != "size_720p"@.len());
    assert("size_bluray"@.len() != "download_480p"@.len());
    assert("size_bluray"@.len() != "size_480p"@.len());
    assert("download_720p"@.len() != "size_720p"@.len());
    assert("download_720p"@[9] != "download_480p"@[9]);
    assert("download_720p"@.len() != "size_480p"@.len());
    assert("size_720p"@.len() != "download_480p"@.len());
    assert("size_720p"@[5] != "size_480p"@[5]);
    assert("download_480p"@.len() != "size_480p"@.len());
}

/// The name an episode thumbnail uploaded at `timestamp` is stored under.
pub open spec fn episode_thumbnail_name(timestamp: u64) -> Seq<char> {
    "ep_thumb_"@ + decimal_digits(timestamp as nat) + ".jpg"@
}

impl EpisodeDraft {
    /// A draft with no field read yet.
    pub fn new() -> (d: EpisodeDraft)
        ensures
            d.season_id is None,
            d.episode_number is None,
            d.title is None,
            d.description is None,
            d.video_source_primary is None,
            d.video_source_backup is None,
            d.duration is None,
            d.download_link is None,
            d.size_1080p is None,
            d.download_bluray is None,
            d.size_bluray is None,
            d.download_720p is None,
            d.size_720p is None,
            d.download_480p is None,
            d.size_480p is None,
            d.thumbnail is None,
    {
        EpisodeDraft {
            season_id: None,
            episode_number: None,
            title: None,
            description: None,
            video_source_primary: None,
            video_source_backup: None,
            duration: None,
            download_link: None,
            size_1080p: None,
            download_bluray: None,
            size_bluray: None,
            download_720p: None,
            size_720p: None,
            download_480p: None,
            size_480p: None,
            thumbnail: None,
        }
    }

    /// Whether `name` is a field read as text.
    pub fn is_text_field(name: &str) -> (r: bool)
        ensures
            r == is_episode_text_field(name@),
    {
        text_equals(name, "season_id")
            || text_equals(name, "episode_number")
            || text_equals(name, "title")
            || text_equals(name, "description")
            || text_equals(name, "video_source_primary")
            || text_equals(name, "video_source_backup")
            || text_equals(name, "duration")
            || text_equals(name, "download_link")
            || text_equals(name, "size_1080p")
            || text_equals(name, "download_bluray")
            || text_equals(name, "size_bluray")
            || text_equals(name, "download_720p")
            || text_equals(name, "size_720p")
            || text_equals(name, "download_480p")
            || text_equals(name, "size_480p")
    }

    /// Whether `name` is the thumbnail field, which is read as bytes.
    pub fn is_thumbnail_field(name: &str) -> (r: bool)
        ensures
            r == (name@ == "thumbnail"@),
    {
        text_equals(name, "thumbnail")
    }

    /// Records the text field `name`, read as `text`.
    pub fn record_text(&mut self, name: &str, text: Option<String>)
        ensures
            *final(self) == with_text_field(*old(self), name@, text),
    {
        if text_equals(name, "season_id") {
            self.season_id = parse_text(text);
        } else if text_equals(name, "episode_number") {
            self.episode_number = parse_text(text);
        } else if text_equals(name, "title") {
            self.title = text;
        } else if text_equals(name, "description") {
            self.description = text;
        } else if text_equals(name, "video_source_primary") {
            self.video_source_primary = text;
        } else if text_equals(name, "video_source_backup") {
            self.video_source_backup = text;
        } else if text_equals(name, "duration") {
            self.duration = parse_text(text);
        } else if text_equals(name, "download_link") {
            self.download_link = text;
        } else if text_equals(name, "size_1080p") {
            self.size_1080p = text;
        } else if text_equals(name, "download_bluray") {
            self.download_bluray = text;
        } else if text_equals(name, "size_bluray") {
            self.size_bluray = text;
        } else if text_equals(name, "download_720p") {
            self.download_720p = text;
        } else if text_equals(name, "size_720p") {
            self.size_720p = text;
        } else if text_equals(name, "download_480p") {
            self.download_480p = text;
        } else if text_equals(name, "size_480p") {
            self.size_480p = text;
        }
    }

    /// Records the thumbnail field holding `data_len` bytes, uploaded at
    /// `timestamp`: an empty upload changes nothing; otherwise the draft takes
    /// the name `ep_thumb_{timestamp}.jpg`, and the path to write the bytes to
    /// is returned.
    pub fn record_thumbnail(&mut self, data_len: usize, timestamp: u64) -> (path: Option<String>)
        ensures
            data_len == 0 ==> path is None && *final(self) == *old(self),
            data_len > 0 ==> {
                &&& final(self).thumbnail matches Some(t) && t@ == episode_thumbnail_name(timestamp)
                &&& path matches Some(p) && p@ == "public/uploads/thumbnails/"@
                    + episode_thumbnail_name(timestamp)
                &&& *final(self) == EpisodeDraft { thumbnail: final(self).thumbnail, ..*old(self) }
            },
    {
        if data_len == 0 {
            return None;
        }
        let name = String::from_str("ep_thumb_").concat(format_u64(timestamp).as_str()).concat(
            ".jpg",
        );
        let path = String::from_str("public/uploads/thumbnails/").concat(name.as_str());
        self.thumbnail = Some(name);
        Some(path)
    }
}


/// The fields of the settings form that the update reads.
#[derive(PartialEq, Eq, Structural, Debug, Clone, Copy)]
pub enum SettingsField {
    SiteName,
    Description,
    Logo,
    Favicon,
    Other,
}

/// Which settings field a multipart field name is.
pub open spec fn settings_field_of(name: Seq<char>) -> SettingsField {
    if name == "site_name"@ {
        SettingsField::SiteName
    } else if name == "description"@ {
        SettingsField::Description
    } else if name == "logo"@ {
        SettingsField::Logo
    } else if name == "favicon"@ {
        SettingsField::Favicon
    } else {
        SettingsField::Other
    }
}

/// Classifies a multipart field of the settings form by its name.
pub fn settings_field(name: &str) -> (r: SettingsField)
    ensures
        r == settings_field_of(name@),
{
    if text_equals(name, "site_name") {
        SettingsField::SiteName
    } else if text_equals(name, "description") {
        SettingsField::Description
    } else if text_equals(name, "logo") {
        SettingsField::Logo
    } else if text_equals(name, "favicon") {
        SettingsField::Favicon
    } else {
        SettingsField::Other
    }
}

/// Where an uploaded logo or favicon is saved and how the settings record it.
pub struct SettingsImageUpload {
    /// `{logo|favicon}_{timestamp}.png`.
    pub file_name: String,
    pub save_path: String,
    /// The statement that records the file name, with the file name to bind.
    pub sql: String,
}

/// The name of the image field, `logo` or `favicon`.
pub open spec fn settings_image_name(is_logo: bool) -> Seq<char> {
    if is_logo {
        "logo"@
    } else {
        "favicon"@
    }
}

/// The plan for an uploaded logo (`is_logo`) or favicon of `data_len` bytes
/// received at `timestamp`: nothing for an empty upload; else the file
/// `{field}_{timestamp}.png` in `public/uploads/settings/`, recorded in
/// `logo_path` or `favicon_path` of the settings row.
pub fn settings_image_upload(is_logo: bool, data_len: usize, timestamp: u64) -> (r: Option<
    SettingsImageUpload,
>)
    ensures
        r is None <==> data_len == 0,
        r matches Some(u) ==> {
            &&& u.file_name@ == settings_image_name(is_logo) + "_"@ + decimal_digits(
                timestamp as nat,
            ) + ".png"@
            &&& u.save_path@ == "public/uploads/settings/"@ + u.file_name@
            &&& u.sql@ == "UPDATE site_settings SET "@ + (if is_logo {
                "logo_path"@
            } else {
                "favicon_path"@
            }) + " = ?, updated_at = datetime('now') WHERE id = 1"@
        },
{
    if data_len == 0 {
        return None;
    }
    let (field, column) = if is_logo {
        ("logo", "logo_path")
    } else {
        ("favicon", "favicon_path")
    };
    let file_name = String::from_str(field).concat("_").concat(format_u64(timestamp).as_str()).concat(
        ".png",
    );
    let save_path = String::from_str("public/uploads/settings/").concat(file_name.as_str());
    let sql = String::from_str("UPDATE site_settings SET ").concat(column).concat(
        " = ?, updated_at = datetime('now') WHERE id = 1",
    );
    Some(SettingsImageUpload { file_name, save_path, sql })
}

/// The text fields of the settings form as they are read: each is kept only
/// when the form carries it.
pub struct SettingsText {
    pub site_name: Option<String>,
    pub description: Option<String>,
}

/// One update of the settings row: the statement and the value to bind.
pub struct SettingUpdate {
    pub sql: String,
    pub value: String,
}

/// The updates of the settings row for the text fields the form carried, in
/// the order site name, description.
pub open spec fn settings_text_updates(t: SettingsText) -> Seq<(Seq<char>, Seq<char>)> {
    let name_update: Seq<(Seq<char>, Seq<char>)> = match t.site_name {
        Some(v) => seq![
            (
                "UPDATE site_settings SET site_name = ?, updated_at = datetime('now') WHERE id = 1"@,
                v@,
            ),
        ],
        None => Seq::empty(),
    };
    let description_update: Seq<(Seq<char>, Seq<char>)> = match t.description {
        Some(v) => seq![
            (
                "UPDATE site_settings SET description = ?, updated_at = datetime('now') WHERE id = 1"@,
                v@,
            ),
        ],
        None => Seq::empty(),
    };
    name_update + description_update
}

impl SettingsText {
    /// Nothing read yet.
    pub fn new() -> (t: SettingsText)
        ensures
            t.site_name is None,
            t.description is None,
    {
        SettingsText { site_name: None, description: None }
    }

    /// Records a text field; a field that could not be read counts as empty.
    pub fn record(&mut self, field: SettingsField, text: Option<String>)
        ensures
            field is SiteName ==> (final(self).site_name matches Some(v) && v@
                == crate::text::text_or_empty(text)) && final(self).description
                == old(self).description,
            field is Description ==> (final(self).description matches Some(v) && v@
                == crate::text::text_or_empty(text)) && final(self).site_name
                == old(self).site_name,
            !(field is SiteName) && !(field is Description) ==> *final(self) == *old(self),
    {
        let value = match text {
            Some(t) => t,
            None => String::new(),
        };
        match field {
            SettingsField::SiteName => {
                self.site_name = Some(value);
            },
            SettingsField::Description => {
                self.description = Some(value);
            },
            _ => {},
        }
    }

    /// The updates to run once the whole form is read.
    pub fn updates(&self) -> (r: Vec<SettingUpdate>)
        ensures
            r@.map_values(|u: SettingUpdate| (u.sql@, u.value@)) == settings_text_updates(*self),
    {
        let mut r: Vec<SettingUpdate> = Vec::new();
        match &self.site_name {
            Some(v) => {
                r.push(
                    SettingUpdate {
                        sql: String::from_str(
                            "UPDATE site_settings SET site_name = ?, updated_at = datetime('now') WHERE id = 1",
                        ),
                        value: v.clone(),
                    },
                );
            },
            None => {},
        }
        match &self.description {
            Some(v) => {
                r.push(
                    SettingUpdate {
                        sql: String::from_str(
                            "UPDATE site_settings SET description = ?, updated_at = datetime('now') WHERE id = 1",
                        ),
                        value: v.clone(),
                    },
                );
            },
            None => {},
        }
        proof {
            assert(r@.map_values(|u: SettingUpdate| (u.sql@, u.value@)) =~= settings_text_updates(
                *self,
            ));
        }
        r
    }
}


/// The address of a settings image: the uploaded file when one is recorded,
/// else the bundled image at `fallback`.
pub open spec fn settings_image_url(app_url: Seq<char>, stored: Option<String>, fallback: Seq<char>) -> Seq<char> {
    match stored {
        Some(p) => app_url + "/uploads/settings/"@ + p@,
        None => app_url + fallback,
    }
}

fn settings_image_address(app_url: &str, stored: &Option<String>, fallback: &str) -> (r: String)
    ensures
        r@ == settings_image_url(app_url@, *stored, fallback@),
{
    match stored {
        Some(p) => String::from_str(app_url).concat("/uploads/settings/").concat(p.as_str()),
        None => String::from_str(app_url).concat(fallback),
    }
}

/// The logo path a settings row records, if there is a row and it has one.
pub open spec fn stored_logo(setting: Option<SiteSetting>) -> Option<String> {
    match setting {
        Some(s) => s.logo_path,
        None => None,
    }
}

/// The favicon path a settings row records, if there is a row and it has one.
pub open spec fn stored_favicon(setting: Option<SiteSetting>) -> Option<String> {
    match setting {
        Some(s) => s.favicon_path,
        None => None,
    }
}

/// The address of the site logo shown on the settings page.
pub fn logo_url(setting: &Option<SiteSetting>, app_url: &str) -> (r: String)
    ensures
        r@ == settings_image_url(app_url@, stored_logo(*setting), "/images/logo.png"@),
        setting matches Some(st) ==> st.logo_path matches Some(p) ==> r@ == app_url@
            + "/uploads/settings/"@ + p@,
        !(setting matches Some(st) && st.logo_path is Some) ==> r@ == app_url@
            + "/images/logo.png"@,
{
    let stored = match setting {
        Some(s) => &s.logo_path,
        None => &None,
    };
    settings_image_address(app_url, stored, "/images/logo.png")
}

/// The address of the site favicon shown on the settings page.
pub fn favicon_url(setting: &Option<SiteSetting>, app_url: &str) -> (r: String)
    ensures
        r@ == settings_image_url(app_url@, stored_favicon(*setting), "/images/favicon.png"@),
        setting matches Some(st) ==> st.favicon_path matches Some(p) ==> r@ == app_url@
            + "/uploads/settings/"@ + p@,
        !(setting matches Some(st) && st.favicon_path is Some) ==> r@ == app_url@
            + "/images/favicon.png"@,
{
    let stored = match setting {
        Some(s) => &s.favicon_path,
        None => &None,
    };
    settings_image_address(app_url, stored, "/images/favicon.png")
}


/// The settings page shows an uploaded logo or favicon whenever the settings
/// row records one, and the bundled image only when it records none; the
/// logo's address depends on the logo path alone and the favicon's on the
/// favicon path alone.
pub proof fn law_settings_images_show_uploads(setting: Option<SiteSetting>, app_url: Seq<char>)
    ensures
        setting matches Some(st) ==> st.logo_path matches Some(p) ==> settings_image_url(
            app_url,
            stored_logo(setting),
            "/images/logo.png"@,
        ) == app_url + "/uploads/settings/"@ + p@,
        setting matches Some(st) ==> st.favicon_path matches Some(p) ==> settings_image_url(
            app_url,
            stored_favicon(setting),
            "/images/favicon.png"@,
        ) == app_url + "/uploads/settings/"@ + p@,
        !(setting matches Some(st) && st.logo_path is Some) ==> settings_image_url(
            app_url,
            stored_logo(setting),
            "/images/logo.png"@,
        ) == app_url + "/images/logo.png"@,
        !(setting matches Some(st) && st.favicon_path is Some) ==> settings_image_url(
            app_url,
            stored_favicon(setting),
            "/images/favicon.png"@,
        ) == app_url + "/images/favicon.png"@,
{
}

} // verus!
