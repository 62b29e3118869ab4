//! The admin edit pages that are written out directly rather than through a
//! template.

use vstd::prelude::*;
use crate::models::{Episode, Series};
use crate::numbers::{decimal_text, format_i64};
use crate::text::{
    contains_text, ends_with, lemma_contains_extend, lemma_contains_filled, starts_with, str_or_empty, text_equals,
    text_or_empty,
};

verus! {

/// The admin login page.
pub const LOGIN_PAGE: &'static str = "<!DOCTYPE html><html><head><title>Admin Login</title>\n    <script src=\"https://cdn.tailwindcss.com\"></script></head>\n    <body class=\"bg-gray-100 min-h-screen flex items-center justify-center\">\n    <div class=\"bg-white p-8 rounded-xl shadow-lg w-full max-w-md\">\n    <h1 class=\"text-2xl font-bold text-center mb-6\">Admin Login</h1>\n    <form method=\"POST\" class=\"space-y-4\">\n    <div><label class=\"block text-sm font-medium mb-1\">Username</label>\n    <input type=\"text\" name=\"username\" class=\"w-full border rounded-lg px-4 py-2\" required></div>\n    <div><label class=\"block text-sm font-medium mb-1\">Password</label>\n    <input type=\"password\" name=\"password\" class=\"w-full border rounded-lg px-4 py-2\" required></div>\n    <button type=\"submit\" class=\"w-full bg-red-600 text-white py-2 rounded-lg font-bold hover:bg-red-700\">Login</button>\n    </form></div></body></html>";

/// The page shown for an id that matches no record.
pub const NOT_FOUND_PAGE: &'static str = "<h1>Not Found</h1>";

/// The player page for an episode id that matches no episode.
pub const EPISODE_NOT_FOUND_PAGE: &'static str = "<h1>Episode Not Found</h1>";

/// The season page for a slug that matches no series.
pub const SERIES_NOT_FOUND_PAGE: &'static str = "<h1>Series Not Found</h1>";

/// The season page for a season number the series does not have.
pub const SEASON_NOT_FOUND_PAGE: &'static str = "<h1>Season Not Found</h1>";

pub const EPISODE_EDIT_HEAD: &'static str = "<h1>Edit Episode</h1><form method='POST'>\n            <input name='title' value='";

pub const EPISODE_EDIT_AFTER_TITLE: &'static str = "'><input name='episode_number' value='";

pub const EPISODE_EDIT_AFTER_NUMBER: &'static str = "'>\n            <input name='video_source_primary' value='";

pub const EPISODE_EDIT_TAIL: &'static str = "'>\n            <button>Update</button></form>";

pub const SEASON_EDIT_HEAD: &'static str = "<h1>Edit Season</h1><form method='POST'><input name='title' value='";

pub const SEASON_EDIT_AFTER_TITLE: &'static str = "'><input name='season_number' value='";

pub const SEASON_EDIT_TAIL: &'static str = "'><button>Update</button></form>";

pub const SERIES_EDIT_HEAD: &'static str = "<!DOCTYPE html><html><head><title>Edit Series</title>\n            <script src=\"https://cdn.tailwindcss.com\"></script>\n            <link rel=\"stylesheet\" href=\"https://cdnjs.cloudflare.com/ajax/libs/font-awesome/6.4.2/css/all.min.css\">\n            </head><body class=\"bg-gray-50 min-h-screen\"><div class=\"max-w-2xl mx-auto p-8\">\n            <a href=\"/admin/series\" class=\"text-gray-500 hover:text-gray-700 text-sm mb-4 block\"><i class=\"fas fa-arrow-left mr-1\"></i>Back to Series</a>\n            <h1 class=\"text-2xl font-bold mb-6\">Edit: ";

pub const SERIES_EDIT_AFTER_HEADING: &'static str = "</h1>\n\n            <form method=\"POST\" class=\"bg-white p-6 rounded-xl shadow-sm space-y-4 mb-8\">\n            <div><label class=\"block text-sm font-medium text-gray-700 mb-1\">Title</label>\n            <input type=\"text\" name=\"title\" value=\"";

pub const SERIES_EDIT_AFTER_TITLE: &'static str = "\" class=\"w-full border rounded-lg px-4 py-2\" required></div>\n            <div><label class=\"block text-sm font-medium text-gray-700 mb-1\">Description</label>\n            <textarea name=\"description\" rows=\"4\" class=\"w-full border rounded-lg px-4 py-2\">";

pub const SERIES_EDIT_AFTER_DESCRIPTION: &'static str = "</textarea></div>\n            <div class=\"grid grid-cols-3 gap-4\">\n            <div><label class=\"block text-sm font-medium text-gray-700 mb-1\">Year</label>\n            <input type=\"number\" name=\"year\" value=\"";

pub const SERIES_EDIT_AFTER_YEAR: &'static str = "\" class=\"w-full border rounded-lg px-4 py-2\"></div>\n            <div><label class=\"block text-sm font-medium text-gray-700 mb-1\">Status</label>\n            <select name=\"status\" class=\"w-full border rounded-lg px-4 py-2\">\n            <option value=\"ongoing\" ";

pub const SERIES_EDIT_AFTER_ONGOING: &'static str = ">Ongoing</option>\n            <option value=\"completed\" ";

pub const SERIES_EDIT_AFTER_COMPLETED: &'static str = ">Completed</option></select></div>\n            <div><label class=\"block text-sm font-medium text-gray-700 mb-1\">Rating</label>\n            <input type=\"number\" name=\"rating\" step=\"0.1\" min=\"0\" max=\"10\" value=\"";

pub const SERIES_EDIT_AFTER_RATING: &'static str = "\" class=\"w-full border rounded-lg px-4 py-2\"></div>\n            </div>\n            <button type=\"submit\" class=\"bg-blue-600 text-white px-6 py-2 rounded-lg hover:bg-blue-700 transition font-medium\">Update Series</button>\n            </form>\n\n            <div class=\"bg-white p-6 rounded-xl shadow-sm space-y-4\">\n                <h3 class=\"text-lg font-semibold\">Images</h3>\n                <form method=\"POST\" action=\"/admin/series/";

pub const SERIES_EDIT_AFTER_ID: &'static str = "/upload\" enctype=\"multipart/form-data\" class=\"space-y-4\">\n                <div><label class=\"block text-sm font-medium text-gray-700 mb-1\">Thumbnail (poster)</label>\n                <input type=\"file\" name=\"thumbnail\" accept=\"image/*\" class=\"w-full border rounded-lg px-4 py-2\">\n                ";

pub const SERIES_EDIT_AFTER_THUMBNAIL: &'static str = "</div>\n                <div><label class=\"block text-sm font-medium text-gray-700 mb-1\">Backdrop (hero)</label>\n                <input type=\"file\" name=\"backdrop\" accept=\"image/*\" class=\"w-full border rounded-lg px-4 py-2\">\n                ";

pub const SERIES_EDIT_TAIL: &'static str = "</div>\n                <button type=\"submit\" class=\"bg-green-600 text-white px-6 py-2 rounded-lg hover:bg-green-700 transition font-medium\">Upload Images</button>\n                </form>\n            </div>\n            </div></body></html>";

pub const IMAGE_PREVIEW_HEAD: &'static str = "<img src='";

pub const IMAGE_PREVIEW_TAIL: &'static str = "' class='h-20 mt-2 rounded'>";

/// The episode edit form: title, episode number and primary video source.
pub open spec fn episode_edit_text(e: Episode) -> Seq<char> {
    EPISODE_EDIT_HEAD@ + e.title@ + EPISODE_EDIT_AFTER_TITLE@ + decimal_text(e.episode_number as int)
        + EPISODE_EDIT_AFTER_NUMBER@ + text_or_empty(e.video_source_primary) + EPISODE_EDIT_TAIL@
}

/// The edit page for an episode, or the not-found page when there is none.
pub fn episode_edit_page(episode: &Option<Episode>) -> (page: String)
    ensures
        page@ == match *episode {
            Some(e) => episode_edit_text(e),
            None => NOT_FOUND_PAGE@,
        },
{
    match episode {
        Some(e) => {
            let mut page = String::from_str(EPISODE_EDIT_HEAD);
            page.append(e.title.as_str());
            page.append(EPISODE_EDIT_AFTER_TITLE);
            let number = format_i64(e.episode_number);
            page.append(number.as_str());
            page.append(EPISODE_EDIT_AFTER_NUMBER);
            page.append(str_or_empty(&e.video_source_primary));
            page.append(EPISODE_EDIT_TAIL);
            page
        },
        None => String::from_str(NOT_FOUND_PAGE),
    }
}

/// The episode edit form shows the episode's primary video source, and only
/// that: the page holds the primary source's input filled with it, and two
/// episodes with the same title, number and primary source get the same page,
/// whatever their other fields hold.
pub proof fn law_episode_edit_shows_primary_source(e: Episode, other: Episode)
    ensures
        contains_text(
            episode_edit_text(e),
            "<input name='video_source_primary' value='"@ + text_or_empty(e.video_source_primary)
                + "'>"@,
        ),
        other.title == e.title && other.episode_number == e.episode_number
            && other.video_source_primary == e.video_source_primary ==> episode_edit_text(other)
            == episode_edit_text(e),
{
    reveal_strlit("'>\n            <input name='video_source_primary' value='");
    reveal_strlit("<input name='video_source_primary' value='");
    reveal_strlit("'>\n            <button>Update</button></form>");
    reveal_strlit("'>");
    let marker = "<input name='video_source_primary' value='"@;
    let v = text_or_empty(e.video_source_primary);
    let before = EPISODE_EDIT_HEAD@ + e.title@ + EPISODE_EDIT_AFTER_TITLE@ + decimal_text(
        e.episode_number as int,
    );
    let gap = "'>\n            "@;
    reveal_strlit("'>\n            ");
    assert(EPISODE_EDIT_AFTER_NUMBER@ =~= gap + marker);
    let target = marker + v + "'>"@;
    let page = episode_edit_text(e);
    let at = before.len() + gap.len();
    let rest = EPISODE_EDIT_TAIL@.subrange(2, EPISODE_EDIT_TAIL@.len() as int);
    assert(page =~= before + gap + target + rest);
    assert(page.subrange(at as int, at + target.len() as int) =~= target);
}

/// What the fixed pieces of the episode edit form end and begin with.
proof fn lemma_episode_edit_template()
    ensures
        ends_with(EPISODE_EDIT_HEAD@, "<input name='title' value='"@),
        starts_with(EPISODE_EDIT_AFTER_TITLE@, "'>"@),
        ends_with(EPISODE_EDIT_AFTER_TITLE@, "<input name='episode_number' value='"@),
        starts_with(EPISODE_EDIT_AFTER_NUMBER@, "'>"@),
{
    reveal_strlit("<h1>Edit Episode</h1><form method='POST'>\n            <input name='title' value='");
    reveal_strlit("'><input name='episode_number' value='");
    reveal_strlit("'>\n            <input name='video_source_primary' value='");
    reveal_strlit("'>");
    reveal_strlit("<input name='episode_number' value='");
    reveal_strlit("<input name='title' value='");
    assert(EPISODE_EDIT_HEAD@.subrange(EPISODE_EDIT_HEAD@.len() - 27, EPISODE_EDIT_HEAD@.len() as int) =~= "<input name='title' value='"@);
    assert(EPISODE_EDIT_AFTER_TITLE@.subrange(0, 2) =~= "'>"@);
    assert(EPISODE_EDIT_AFTER_TITLE@.subrange(EPISODE_EDIT_AFTER_TITLE@.len() - 36, EPISODE_EDIT_AFTER_TITLE@.len() as int) =~= "<input name='episode_number' value='"@);
    assert(EPISODE_EDIT_AFTER_NUMBER@.subrange(0, 2) =~= "'>"@);
}

/// The episode edit form is filled with the episode: its title input holds
/// the title and its number input the episode number in decimal.
pub proof fn law_episode_edit_fills_title_and_number(e: Episode)
    ensures
        contains_text(
            episode_edit_text(e),
            "<input name='title' value='"@ + e.title@ + "'>"@,
        ),
        contains_text(
            episode_edit_text(e),
            "<input name='episode_number' value='"@ + decimal_text(e.episode_number as int) + "'>"@,
        ),
{
    lemma_episode_edit_template();
    assert(contains_text(episode_edit_text(e), "<input name='title' value='"@ + e.title@ + "'>"@)) by {
        assert(Seq::<char>::empty() + EPISODE_EDIT_HEAD@ =~= EPISODE_EDIT_HEAD@);
        lemma_contains_filled(
            Seq::<char>::empty(),
            EPISODE_EDIT_HEAD@,
            e.title@,
            EPISODE_EDIT_AFTER_TITLE@,
            "<input name='title' value='"@,
            "'>"@,
        );
        lemma_contains_extend(
            EPISODE_EDIT_HEAD@ +
            e.title@ +
            EPISODE_EDIT_AFTER_TITLE@,
            decimal_text(e.episode_number as int),
            "<input name='title' value='"@ + e.title@ + "'>"@,
        );
        lemma_contains_extend(
            EPISODE_EDIT_HEAD@ +
            e.title@ +
            EPISODE_EDIT_AFTER_TITLE@ +
            decimal_text(e.episode_number as int),
            EPISODE_EDIT_AFTER_NUMBER@,
            "<input name='title' value='"@ + e.title@ + "'>"@,
        );
        lemma_contains_extend(
            EPISODE_EDIT_HEAD@ +
            e.title@ +
            EPISODE_EDIT_AFTER_TITLE@ +
            decimal_text(e.episode_number as int) +
            EPISODE_EDIT_AFTER_NUMBER@,
            text_or_empty(e.video_source_primary),
            "<input name='title' value='"@ + e.title@ + "'>"@,
        );
        lemma_contains_extend(
            EPISODE_EDIT_HEAD@ +
            e.title@ +
            EPISODE_EDIT_AFTER_TITLE@ +
            decimal_text(e.episode_number as int) +
            EPISODE_EDIT_AFTER_NUMBER@ +
            text_or_empty(e.video_source_primary),
            EPISODE_EDIT_TAIL@,
            "<input name='title' value='"@ + e.title@ + "'>"@,
        );
    }
    assert(contains_text(episode_edit_text(e), "<input name='episode_number' value='"@ + decimal_text(e.episode_number as int) + "'>"@)) by {
        lemma_contains_filled(
            EPISODE_EDIT_HEAD@ +
            e.title@,
            EPISODE_EDIT_AFTER_TITLE@,
            decimal_text(e.episode_number as int),
            EPISODE_EDIT_AFTER_NUMBER@,
            "<input name='episode_number' value='"@,
            "'>"@,
        );
        lemma_contains_extend(
            EPISODE_EDIT_HEAD@ +
            e.title@ +
            EPISODE_EDIT_AFTER_TITLE@ +
            decimal_text(e.episode_number as int) +
            EPISODE_EDIT_AFTER_NUMBER@,
            text_or_empty(e.video_source_primary),
            "<input name='episode_number' value='"@ + decimal_text(e.episode_number as int) + "'>"@,
        );
        lemma_contains_extend(
            EPISODE_EDIT_HEAD@ +
            e.title@ +
            EPISODE_EDIT_AFTER_TITLE@ +
            decimal_text(e.episode_number as int) +
            EPISODE_EDIT_AFTER_NUMBER@ +
            text_or_empty(e.video_source_primary),
            EPISODE_EDIT_TAIL@,
            "<input name='episode_number' value='"@ + decimal_text(e.episode_number as int) + "'>"@,
        );
    }
}

/// The season edit form: title (empty when there is none) and season number.
pub open spec fn season_edit_text(title: Option<String>, season_number: i64) -> Seq<char> {
    SEASON_EDIT_HEAD@ + text_or_empty(title) + SEASON_EDIT_AFTER_TITLE@ + decimal_text(
        season_number as int,
    ) + SEASON_EDIT_TAIL@
}

/// The edit page for a season given its title and number, or the not-found
/// page when there is no such season.
pub fn season_edit_page(season: &Option<(Option<String>, i64)>) -> (page: String)
    ensures
        page@ == match *season {
            Some((title, number)) => season_edit_text(title, number),
            None => NOT_FOUND_PAGE@,
        },
{
    match season {
        Some((title, number)) => {
            let mut page = String::from_str(SEASON_EDIT_HEAD);
            page.append(str_or_empty(title));
            page.append(SEASON_EDIT_AFTER_TITLE);
            let n = format_i64(*number);
            page.append(n.as_str());
            page.append(SEASON_EDIT_TAIL);
            page
        },
        None => String::from_str(NOT_FOUND_PAGE),
    }
}

/// What the fixed pieces of the season edit form end and begin with.
proof fn lemma_season_edit_template()
    ensures
        ends_with(SEASON_EDIT_HEAD@, "<input name='title' value='"@),
        starts_with(SEASON_EDIT_AFTER_TITLE@, "'>"@),
        ends_with(SEASON_EDIT_AFTER_TITLE@, "<input name='season_number' value='"@),
        starts_with(SEASON_EDIT_TAIL@, "'>"@),
{
    reveal_strlit("<h1>Edit Season</h1><form method='POST'><input name='title' value='");
    reveal_strlit("'><input name='season_number' value='");
    reveal_strlit("'><button>Update</button></form>");
    reveal_strlit("'>");
    reveal_strlit("<input name='season_number' value='");
    reveal_strlit("<input name='title' value='");
    assert(SEASON_EDIT_HEAD@.subrange(SEASON_EDIT_HEAD@.len() - 27, SEASON_EDIT_HEAD@.len() as int) =~= "<input name='title' value='"@);
    assert(SEASON_EDIT_AFTER_TITLE@.subrange(0, 2) =~= "'>"@);
    assert(SEASON_EDIT_AFTER_TITLE@.subrange(SEASON_EDIT_AFTER_TITLE@.len() - 35, SEASON_EDIT_AFTER_TITLE@.len() as int) =~= "<input name='season_number' value='"@);
    assert(SEASON_EDIT_TAIL@.subrange(0, 2) =~= "'>"@);
}

/// The season edit form is filled with the season: its title input holds the
/// title (empty without one) and its number input the season number.
pub proof fn law_season_edit_fills_fields(title: Option<String>, season_number: i64)
    ensures
        contains_text(
            season_edit_text(title, season_number),
            "<input name='title' value='"@ + text_or_empty(title) + "'>"@,
        ),
        contains_text(
            season_edit_text(title, season_number),
            "<input name='season_number' value='"@ + decimal_text(season_number as int) + "'>"@,
        ),
{
    lemma_season_edit_template();
    assert(contains_text(season_edit_text(title, season_number), "<input name='title' value='"@ + text_or_empty(title) + "'>"@)) by {
        assert(Seq::<char>::empty() + SEASON_EDIT_HEAD@ =~= SEASON_EDIT_HEAD@);
        lemma_contains_filled(
            Seq::<char>::empty(),
            SEASON_EDIT_HEAD@,
            text_or_empty(title),
            SEASON_EDIT_AFTER_TITLE@,
            "<input name='title' value='"@,
            "'>"@,
        );
        lemma_contains_extend(
            SEASON_EDIT_HEAD@ +
            text_or_empty(title) +
            SEASON_EDIT_AFTER_TITLE@,
            decimal_text(season_number as int),
            "<input name='title' value='"@ + text_or_empty(title) + "'>"@,
        );
        lemma_contains_extend(
            SEASON_EDIT_HEAD@ +
            text_or_empty(title) +
            SEASON_EDIT_AFTER_TITLE@ +
            decimal_text(season_number as int),
            SEASON_EDIT_TAIL@,
            "<input name='title' value='"@ + text_or_empty(title) + "'>"@,
        );
    }
    assert(contains_text(season_edit_text(title, season_number), "<input name='season_number' value='"@ + decimal_text(season_number as int) + "'>"@)) by {
        lemma_contains_filled(
            SEASON_EDIT_HEAD@ +
            text_or_empty(title),
            SEASON_EDIT_AFTER_TITLE@,
            decimal_text(season_number as int),
            SEASON_EDIT_TAIL@,
            "<input name='season_number' value='"@,
            "'>"@,
        );
    }
}

/// `selected` when the series' status is `value`, else nothing.
pub open spec fn selected_if(status: Option<String>, value: Seq<char>) -> Seq<char> {
    if status matches Some(st) && st@ == value {
        "selected"@
    } else {
        Seq::<char>::empty()
    }
}

/// A preview image of an upload in `dir` (such as `/uploads/thumbnails/`),
/// or nothing when the file name is empty.
pub open spec fn image_preview(app_url: Seq<char>, dir: Seq<char>, file: Seq<char>) -> Seq<char> {
    if file.len() == 0 {
        Seq::<char>::empty()
    } else {
        IMAGE_PREVIEW_HEAD@ + app_url + dir + file + IMAGE_PREVIEW_TAIL@
    }
}

/// The year shown for a series, 0 when it has none.
pub open spec fn series_year_text(s: Series) -> Seq<char> {
    decimal_text(
        match s.year {
            Some(y) => y as int,
            None => 0,
        },
    )
}

/// The series edit page: the details form (title, description, year or 0,
/// status, rating) and the image upload form with previews of the current
/// thumbnail and backdrop.
pub open spec fn series_edit_text(s: Series, rating: Seq<char>, app_url: Seq<char>) -> Seq<char> {
    SERIES_EDIT_HEAD@ + s.title@ + SERIES_EDIT_AFTER_HEADING@ + s.title@ + SERIES_EDIT_AFTER_TITLE@
        + text_or_empty(s.description) + SERIES_EDIT_AFTER_DESCRIPTION@ + decimal_text(
        match s.year {
            Some(y) => y as int,
            None => 0,
        },
    ) + SERIES_EDIT_AFTER_YEAR@ + selected_if(s.status, "ongoing"@) + SERIES_EDIT_AFTER_ONGOING@
        + selected_if(s.status, "completed"@) + SERIES_EDIT_AFTER_COMPLETED@ + rating
        + SERIES_EDIT_AFTER_RATING@ + decimal_text(s.id as int) + SERIES_EDIT_AFTER_ID@
        + image_preview(app_url, "/uploads/thumbnails/"@, text_or_empty(s.thumbnail))
        + SERIES_EDIT_AFTER_THUMBNAIL@ + image_preview(
        app_url,
        "/uploads/backdrops/"@,
        text_or_empty(s.backdrop),
    ) + SERIES_EDIT_TAIL@
}

fn selected_text(status: &Option<String>, value: &str) -> (r: &'static str)
    ensures
        r@ == selected_if(*status, value@),
{
    let chosen = match status {
        Some(st) => text_equals(st.as_str(), value),
        None => false,
    };
    if chosen {
        "selected"
    } else {
        proof {
            reveal_strlit("");
        }
        ""
    }
}

fn append_image_preview(page: &mut String, app_url: &str, dir: &str, file: &str)
    ensures
        final(page)@ == old(page)@ + image_preview(app_url@, dir@, file@),
{
    if file.unicode_len() == 0 {
        proof {
            assert(old(page)@ + Seq::<char>::empty() =~= old(page)@);
        }
    } else {
        let ghost start = page@;
        page.append(IMAGE_PREVIEW_HEAD);
        page.append(app_url);
        page.append(dir);
        page.append(file);
        page.append(IMAGE_PREVIEW_TAIL);
        proof {
            assert(page@ =~= start + (IMAGE_PREVIEW_HEAD@ + app_url@ + dir@ + file@
                + IMAGE_PREVIEW_TAIL@));
        }
    }
}

/// The edit page for a series, or the not-found page when there is none.
/// `rating` is the text of the series' rating (8.5 when it has none), which
/// the caller formats.
pub fn series_edit_page(series: &Option<Series>, rating: &str, app_url: &str) -> (page: String)
    ensures
        page@ == match *series {
            Some(s) => series_edit_text(s, rating@, app_url@),
            None => NOT_FOUND_PAGE@,
        },
{
    match series {
        Some(s) => {
            let mut page = String::from_str(SERIES_EDIT_HEAD);
            page.append(s.title.as_str());
            page.append(SERIES_EDIT_AFTER_HEADING);
            page.append(s.title.as_str());
            page.append(SERIES_EDIT_AFTER_TITLE);
            page.append(str_or_empty(&s.description));
            page.append(SERIES_EDIT_AFTER_DESCRIPTION);
            let year = match s.year {
                Some(y) => y,
                None => 0,
            };
            let year_text = format_i64(year);
            page.append(year_text.as_str());
            page.append(SERIES_EDIT_AFTER_YEAR);
            page.append(selected_text(&s.status, "ongoing"));
            page.append(SERIES_EDIT_AFTER_ONGOING);
            page.append(selected_text(&s.status, "completed"));
            page.append(SERIES_EDIT_AFTER_COMPLETED);
            page.append(rating);
            page.append(SERIES_EDIT_AFTER_RATING);
            let id_text = format_i64(s.id);
            page.append(id_text.as_str());
            page.append(SERIES_EDIT_AFTER_ID);
            append_image_preview(&mut page, app_url, "/uploads/thumbnails/", str_or_empty(&s.thumbnail));
            page.append(SERIES_EDIT_AFTER_THUMBNAIL);
            append_image_preview(&mut page, app_url, "/uploads/backdrops/", str_or_empty(&s.backdrop));
            page.append(SERIES_EDIT_TAIL);
            page
        },
        None => String::from_str(NOT_FOUND_PAGE),
    }
}

/// The page a season address answers without a template: the series
/// not-found page when the slug matches no series, the season not-found page
/// when the series has no such season, and `None` (render the season) when
/// both were found.
pub fn season_lookup_page(series_found: bool, season_found: bool) -> (r: Option<&'static str>)
    ensures
        !series_found ==> r == Some(SERIES_NOT_FOUND_PAGE),
        series_found && !season_found ==> r == Some(SEASON_NOT_FOUND_PAGE),
        series_found && season_found ==> r is None,
{
    if !series_found {
        Some(SERIES_NOT_FOUND_PAGE)
    } else if !season_found {
        Some(SEASON_NOT_FOUND_PAGE)
    } else {
        None
    }
}

/// What the fixed pieces of the series edit page end and begin with.
proof fn lemma_series_edit_template()
    ensures
        ends_with(SERIES_EDIT_HEAD@, "Edit: "@),
        starts_with(SERIES_EDIT_AFTER_HEADING@, "</h1>"@),
        ends_with(SERIES_EDIT_AFTER_HEADING@, "<input type=\"text\" name=\"title\" value=\""@),
        starts_with(SERIES_EDIT_AFTER_TITLE@, "\""@),
        ends_with(SERIES_EDIT_AFTER_TITLE@, "<textarea name=\"description\" rows=\"4\" class=\"w-full border rounded-lg px-4 py-2\">"@),
        starts_with(SERIES_EDIT_AFTER_DESCRIPTION@, "</textarea>"@),
        ends_with(SERIES_EDIT_AFTER_DESCRIPTION@, "<input type=\"number\" name=\"year\" value=\""@),
        starts_with(SERIES_EDIT_AFTER_YEAR@, "\""@),
        ends_with(SERIES_EDIT_AFTER_COMPLETED@, "max=\"10\" value=\""@),
        starts_with(SERIES_EDIT_AFTER_RATING@, "\""@),
        ends_with(SERIES_EDIT_AFTER_RATING@, "action=\"/admin/series/"@),
        starts_with(SERIES_EDIT_AFTER_ID@, "/upload\""@),
{
    reveal_strlit("<!DOCTYPE html><html><head><title>Edit Series</title>\n            <script src=\"https://cdn.tailwindcss.com\"></script>\n            <link rel=\"stylesheet\" href=\"https://cdnjs.cloudflare.com/ajax/libs/font-awesome/6.4.2/css/all.min.css\">\n            </head><body class=\"bg-gray-50 min-h-screen\"><div class=\"max-w-2xl mx-auto p-8\">\n            <a href=\"/admin/series\" class=\"text-gray-500 hover:text-gray-700 text-sm mb-4 block\"><i class=\"fas fa-arrow-left mr-1\"></i>Back to Series</a>\n            <h1 class=\"text-2xl font-bold mb-6\">Edit: ");
    reveal_strlit("</h1>\n\n            <form method=\"POST\" class=\"bg-white p-6 rounded-xl shadow-sm space-y-4 mb-8\">\n            <div><label class=\"block text-sm font-medium text-gray-700 mb-1\">Title</label>\n            <input type=\"text\" name=\"title\" value=\"");
    reveal_strlit("\" class=\"w-full border rounded-lg px-4 py-2\" required></div>\n            <div><label class=\"block text-sm font-medium text-gray-700 mb-1\">Description</label>\n            <textarea name=\"description\" rows=\"4\" class=\"w-full border rounded-lg px-4 py-2\">");
    reveal_strlit("</textarea></div>\n            <div class=\"grid grid-cols-3 gap-4\">\n            <div><label class=\"block text-sm font-medium text-gray-700 mb-1\">Year</label>\n            <input type=\"number\" name=\"year\" value=\"");
    reveal_strlit("\" class=\"w-full border rounded-lg px-4 py-2\"></div>\n            <div><label class=\"block text-sm font-medium text-gray-700 mb-1\">Status</label>\n            <select name=\"status\" class=\"w-full border rounded-lg px-4 py-2\">\n            <option value=\"ongoing\" ");
    reveal_strlit(">Completed</option></select></div>\n            <div><label class=\"block text-sm font-medium text-gray-700 mb-1\">Rating</label>\n            <input type=\"number\" name=\"rating\" step=\"0.1\" min=\"0\" max=\"10\" value=\"");
    reveal_strlit("\" class=\"w-full border rounded-lg px-4 py-2\"></div>\n            </div>\n            <button type=\"submit\" class=\"bg-blue-600 text-white px-6 py-2 rounded-lg hover:bg-blue-700 transition font-medium\">Update Series</button>\n            </form>\n\n            <div class=\"bg-white p-6 rounded-xl shadow-sm space-y-4\">\n                <h3 class=\"text-lg font-semibold\">Images</h3>\n                <form method=\"POST\" action=\"/admin/series/");
    reveal_strlit("/upload\" enctype=\"multipart/form-data\" class=\"space-y-4\">\n                <div><label class=\"block text-sm font-medium text-gray-700 mb-1\">Thumbnail (poster)</label>\n                <input type=\"file\" name=\"thumbnail\" accept=\"image/*\" class=\"w-full border rounded-lg px-4 py-2\">\n                ");
    reveal_strlit("\"");
    reveal_strlit("/upload\"");
    reveal_strlit("</h1>");
    reveal_strlit("</textarea>");
    reveal_strlit("<input type=\"number\" name=\"year\" value=\"");
    reveal_strlit("<input type=\"text\" name=\"title\" value=\"");
    reveal_strlit("<textarea name=\"description\" rows=\"4\" class=\"w-full border rounded-lg px-4 py-2\">");
    reveal_strlit("Edit: ");
    reveal_strlit("action=\"/admin/series/");
    reveal_strlit("max=\"10\" value=\"");
    assert(SERIES_EDIT_HEAD@.subrange(SERIES_EDIT_HEAD@.len() - 6, SERIES_EDIT_HEAD@.len() as int) =~= "Edit: "@);
    assert(SERIES_EDIT_AFTER_HEADING@.subrange(0, 5) =~= "</h1>"@);
    assert(SERIES_EDIT_AFTER_HEADING@.subrange(SERIES_EDIT_AFTER_HEADING@.len() - 39, SERIES_EDIT_AFTER_HEADING@.len() as int) =~= "<input type=\"text\" name=\"title\" value=\""@);
    assert(SERIES_EDIT_AFTER_TITLE@.subrange(0, 1) =~= "\""@);
    assert(SERIES_EDIT_AFTER_TITLE@.subrange(SERIES_EDIT_AFTER_TITLE@.len() - 81, SERIES_EDIT_AFTER_TITLE@.len() as int) =~= "<textarea name=\"description\" rows=\"4\" class=\"w-full border rounded-lg px-4 py-2\">"@);
    assert(SERIES_EDIT_AFTER_DESCRIPTION@.subrange(0, 11) =~= "</textarea>"@);
    assert(SERIES_EDIT_AFTER_DESCRIPTION@.subrange(SERIES_EDIT_AFTER_DESCRIPTION@.len() - 40, SERIES_EDIT_AFTER_DESCRIPTION@.len() as int) =~= "<input type=\"number\" name=\"year\" value=\""@);
    assert(SERIES_EDIT_AFTER_YEAR@.subrange(0, 1) =~= "\""@);
    assert(SERIES_EDIT_AFTER_COMPLETED@.subrange(SERIES_EDIT_AFTER_COMPLETED@.len() - 16, SERIES_EDIT_AFTER_COMPLETED@.len() as int) =~= "max=\"10\" value=\""@);
    assert(SERIES_EDIT_AFTER_RATING@.subrange(0, 1) =~= "\""@);
    assert(SERIES_EDIT_AFTER_RATING@.subrange(SERIES_EDIT_AFTER_RATING@.len() - 22, SERIES_EDIT_AFTER_RATING@.len() as int) =~= "action=\"/admin/series/"@);
    assert(SERIES_EDIT_AFTER_ID@.subrange(0, 8) =~= "/upload\""@);
}

/// The series edit page is filled with the series: the heading and the title
/// input hold the title, the description box the description, the year input
/// the year (0 without one), the rating input the given rating, and the image
/// form posts to the series' own upload address.
pub proof fn law_series_edit_fills_fields(s: Series, rating: Seq<char>, app_url: Seq<char>)
    ensures
        contains_text(
            series_edit_text(s, rating, app_url),
            "Edit: "@ + s.title@ + "</h1>"@,
        ),
        contains_text(
            series_edit_text(s, rating, app_url),
            "<input type=\"text\" name=\"title\" value=\""@ + s.title@ + "\""@,
        ),
        contains_text(
            series_edit_text(s, rating, app_url),
            "<textarea name=\"description\" rows=\"4\" class=\"w-full border rounded-lg px-4 py-2\">"@ + text_or_empty(s.description) + "</textarea>"@,
        ),
        contains_text(
            series_edit_text(s, rating, app_url),
            "<input type=\"number\" name=\"year\" value=\""@ + series_year_text(s) + "\""@,
        ),
        contains_text(
            series_edit_text(s, rating, app_url),
            "max=\"10\" value=\""@ + rating + "\""@,
        ),
        contains_text(
            series_edit_text(s, rating, app_url),
            "action=\"/admin/series/"@ + decimal_text(s.id as int) + "/upload\""@,
        ),
{
    lemma_series_edit_template();
    assert(contains_text(series_edit_text(s, rating, app_url), "Edit: "@ + s.title@ + "</h1>"@)) by {
        assert(Seq::<char>::empty() + SERIES_EDIT_HEAD@ =~= SERIES_EDIT_HEAD@);
        lemma_contains_filled(
            Seq::<char>::empty(),
            SERIES_EDIT_HEAD@,
            s.title@,
            SERIES_EDIT_AFTER_HEADING@,
            "Edit: "@,
            "</h1>"@,
        );
        lemma_contains_extend(
            SERIES_EDIT_HEAD@ +
            s.title@ +
            SERIES_EDIT_AFTER_HEADING@,
            s.title@,
            "Edit: "@ + s.title@ + "</h1>"@,
        );
        lemma_contains_extend(
            SERIES_EDIT_HEAD@ +
            s.title@ +
            SERIES_EDIT_AFTER_HEADING@ +
            s.title@,
            SERIES_EDIT_AFTER_TITLE@,
            "Edit: "@ + s.title@ + "</h1>"@,
        );
        lemma_contains_extend(
            SERIES_EDIT_HEAD@ +
            s.title@ +
            SERIES_EDIT_AFTER_HEADING@ +
            s.title@ +
            SERIES_EDIT_AFTER_TITLE@,
            text_or_empty(s.description),
            "Edit: "@ + s.title@ + "</h1>"@,
        );
        lemma_contains_extend(
            SERIES_EDIT_HEAD@ +
            s.title@ +
            SERIES_EDIT_AFTER_HEADING@ +
            s.title@ +
            SERIES_EDIT_AFTER_TITLE@ +
            text_or_empty(s.description),
            SERIES_EDIT_AFTER_DESCRIPTION@,
            "Edit: "@ + s.title@ + "</h1>"@,
        );
        lemma_contains_extend(
            SERIES_EDIT_HEAD@ +
            s.title@ +
            SERIES_EDIT_AFTER_HEADING@ +
            s.title@ +
            SERIES_EDIT_AFTER_TITLE@ +
            text_or_empty(s.description) +
            SERIES_EDIT_AFTER_DESCRIPTION@,
            series_year_text(s),
            "Edit: "@ + s.title@ + "</h1>"@,
        );
        lemma_contains_extend(
            SERIES_EDIT_HEAD@ +
            s.title@ +
            SERIES_EDIT_AFTER_HEADING@ +
            s.title@ +
            SERIES_EDIT_AFTER_TITLE@ +
            text_or_empty(s.description) +
            SERIES_EDIT_AFTER_DESCRIPTION@ +
            series_year_text(s),
            SERIES_EDIT_AFTER_YEAR@,
            "Edit: "@ + s.title@ + "</h1>"@,
        );
        lemma_contains_extend(
            SERIES_EDIT_HEAD@ +
            s.title@ +
            SERIES_EDIT_AFTER_HEADING@ +
            s.title@ +
            SERIES_EDIT_AFTER_TITLE@ +
            text_or_empty(s.description) +
            SERIES_EDIT_AFTER_DESCRIPTION@ +
            series_year_text(s) +
            SERIES_EDIT_AFTER_YEAR@,
            selected_if(s.status, "ongoing"@),
            "Edit: "@ + s.title@ + "</h1>"@,
        );
        lemma_contains_extend(
            SERIES_EDIT_HEAD@ +
            s.title@ +
            SERIES_EDIT_AFTER_HEADING@ +
            s.title@ +
            SERIES_EDIT_AFTER_TITLE@ +
            text_or_empty(s.description) +
            SERIES_EDIT_AFTER_DESCRIPTION@ +
            series_year_text(s) +
            SERIES_EDIT_AFTER_YEAR@ +
            selected_if(s.status, "ongoing"@),
            SERIES_EDIT_AFTER_ONGOING@,
            "Edit: "@ + s.title@ + "</h1>"@,
        );
        lemma_contains_extend(
            SERIES_EDIT_HEAD@ +
            s.title@ +
            SERIES_EDIT_AFTER_HEADING@ +
            s.title@ +
            SERIES_EDIT_AFTER_TITLE@ +
            text_or_empty(s.description) +
            SERIES_EDIT_AFTER_DESCRIPTION@ +
            series_year_text(s) +
            SERIES_EDIT_AFTER_YEAR@ +
            selected_if(s.status, "ongoing"@) +
            SERIES_EDIT_AFTER_ONGOING@,
            selected_if(s.status, "completed"@),
            "Edit: "@ + s.title@ + "</h1>"@,
        );
        lemma_contains_extend(
            SERIES_EDIT_HEAD@ +
            s.title@ +
            SERIES_EDIT_AFTER_HEADING@ +
            s.title@ +
            SERIES_EDIT_AFTER_TITLE@ +
            text_or_empty(s.description) +
            SERIES_EDIT_AFTER_DESCRIPTION@ +
            series_year_text(s) +
            SERIES_EDIT_AFTER_YEAR@ +
            selected_if(s.status, "ongoing"@) +
            SERIES_EDIT_AFTER_ONGOING@ +
            selected_if(s.status, "completed"@),
            SERIES_EDIT_AFTER_COMPLETED@,
            "Edit: "@ + s.title@ + "</h1>"@,
        );
        lemma_contains_extend(
            SERIES_EDIT_HEAD@ +
            s.title@ +
            SERIES_EDIT_AFTER_HEADING@ +
            s.title@ +
            SERIES_EDIT_AFTER_TITLE@ +
            text_or_empty(s.description) +
            SERIES_EDIT_AFTER_DESCRIPTION@ +
            series_year_text(s) +
            SERIES_EDIT_AFTER_YEAR@ +
            selected_if(s.status, "ongoing"@) +
            SERIES_EDIT_AFTER_ONGOING@ +
            selected_if(s.status, "completed"@) +
            SERIES_EDIT_AFTER_COMPLETED@,
            rating,
            "Edit: "@ + s.title@ + "</h1>"@,
        );
        lemma_contains_extend(
            SERIES_EDIT_HEAD@ +
            s.title@ +
            SERIES_EDIT_AFTER_HEADING@ +
            s.title@ +
            SERIES_EDIT_AFTER_TITLE@ +
            text_or_empty(s.description) +
            SERIES_EDIT_AFTER_DESCRIPTION@ +
            series_year_text(s) +
            SERIES_EDIT_AFTER_YEAR@ +
            selected_if(s.status, "ongoing"@) +
            SERIES_EDIT_AFTER_ONGOING@ +
            selected_if(s.status, "completed"@) +
            SERIES_EDIT_AFTER_COMPLETED@ +
            rating,
            SERIES_EDIT_AFTER_RATING@,
            "Edit: "@ + s.title@ + "</h1>"@,
        );
        lemma_contains_extend(
            SERIES_EDIT_HEAD@ +
            s.title@ +
            SERIES_EDIT_AFTER_HEADING@ +
            s.title@ +
            SERIES_EDIT_AFTER_TITLE@ +
            text_or_empty(s.description) +
            SERIES_EDIT_AFTER_DESCRIPTION@ +
            series_year_text(s) +
            SERIES_EDIT_AFTER_YEAR@ +
            selected_if(s.status, "ongoing"@) +
            SERIES_EDIT_AFTER_ONGOING@ +
            selected_if(s.status, "completed"@) +
            SERIES_EDIT_AFTER_COMPLETED@ +
            rating +
            SERIES_EDIT_AFTER_RATING@,
            decimal_text(s.id as int),
            "Edit: "@ + s.title@ + "</h1>"@,
        );
        lemma_contains_extend(
            SERIES_EDIT_HEAD@ +
            s.title@ +
            SERIES_EDIT_AFTER_HEADING@ +
            s.title@ +
            SERIES_EDIT_AFTER_TITLE@ +
            text_or_empty(s.description) +
            SERIES_EDIT_AFTER_DESCRIPTION@ +
            series_year_text(s) +
            SERIES_EDIT_AFTER_YEAR@ +
            selected_if(s.status, "ongoing"@) +
            SERIES_EDIT_AFTER_ONGOING@ +
            selected_if(s.status, "completed"@) +
            SERIES_EDIT_AFTER_COMPLETED@ +
            rating +
            SERIES_EDIT_AFTER_RATING@ +
            decimal_text(s.id as int),
            SERIES_EDIT_AFTER_ID@,
            "Edit: "@ + s.title@ + "</h1>"@,
        );
        lemma_contains_extend(
            SERIES_EDIT_HEAD@ +
            s.title@ +
            SERIES_EDIT_AFTER_HEADING@ +
            s.title@ +
            SERIES_EDIT_AFTER_TITLE@ +
            text_or_empty(s.description) +
            SERIES_EDIT_AFTER_DESCRIPTION@ +
            series_year_text(s) +
            SERIES_EDIT_AFTER_YEAR@ +
            selected_if(s.status, "ongoing"@) +
            SERIES_EDIT_AFTER_ONGOING@ +
            selected_if(s.status, "completed"@) +
            SERIES_EDIT_AFTER_COMPLETED@ +
            rating +
            SERIES_EDIT_AFTER_RATING@ +
            decimal_text(s.id as int) +
            SERIES_EDIT_AFTER_ID@,
            image_preview(app_url, "/uploads/thumbnails/"@, text_or_empty(s.thumbnail)),
            "Edit: "@ + s.title@ + "</h1>"@,
        );
        lemma_contains_extend(
            SERIES_EDIT_HEAD@ +
            s.title@ +
            SERIES_EDIT_AFTER_HEADING@ +
            s.title@ +
            SERIES_EDIT_AFTER_TITLE@ +
            text_or_empty(s.description) +
            SERIES_EDIT_AFTER_DESCRIPTION@ +
            series_year_text(s) +
            SERIES_EDIT_AFTER_YEAR@ +
            selected_if(s.status, "ongoing"@) +
            SERIES_EDIT_AFTER_ONGOING@ +
            selected_if(s.status, "completed"@) +
            SERIES_EDIT_AFTER_COMPLETED@ +
            rating +
            SERIES_EDIT_AFTER_RATING@ +
            decimal_text(s.id as int) +
            SERIES_EDIT_AFTER_ID@ +
            image_preview(app_url, "/uploads/thumbnails/"@, text_or_empty(s.thumbnail)),
            SERIES_EDIT_AFTER_THUMBNAIL@,
            "Edit: "@ + s.title@ + "</h1>"@,
        );
        lemma_contains_extend(
            SERIES_EDIT_HEAD@ +
            s.title@ +
            SERIES_EDIT_AFTER_HEADING@ +
            s.title@ +
            SERIES_EDIT_AFTER_TITLE@ +
            text_or_empty(s.description) +
            SERIES_EDIT_AFTER_DESCRIPTION@ +
            series_year_text(s) +
            SERIES_EDIT_AFTER_YEAR@ +
            selected_if(s.status, "ongoing"@) +
            SERIES_EDIT_AFTER_ONGOING@ +
            selected_if(s.status, "completed"@) +
            SERIES_EDIT_AFTER_COMPLETED@ +
            rating +
            SERIES_EDIT_AFTER_RATING@ +
            decimal_text(s.id as int) +
            SERIES_EDIT_AFTER_ID@ +
            image_preview(app_url, "/uploads/thumbnails/"@, text_or_empty(s.thumbnail)) +
            SERIES_EDIT_AFTER_THUMBNAIL@,
            image_preview(app_url, "/uploads/backdrops/"@, text_or_empty(s.backdrop)),
            "Edit: "@ + s.title@ + "</h1>"@,
        );
        lemma_contains_extend(
            SERIES_EDIT_HEAD@ +
            s.title@ +
            SERIES_EDIT_AFTER_HEADING@ +
            s.title@ +
            SERIES_EDIT_AFTER_TITLE@ +
            text_or_empty(s.description) +
            SERIES_EDIT_AFTER_DESCRIPTION@ +
            series_year_text(s) +
            SERIES_EDIT_AFTER_YEAR@ +
            selected_if(s.status, "ongoing"@) +
            SERIES_EDIT_AFTER_ONGOING@ +
            selected_if(s.status, "completed"@) +
            SERIES_EDIT_AFTER_COMPLETED@ +
            rating +
            SERIES_EDIT_AFTER_RATING@ +
            decimal_text(s.id as int) +
            SERIES_EDIT_AFTER_ID@ +
            image_preview(app_url, "/uploads/thumbnails/"@, text_or_empty(s.thumbnail)) +
            SERIES_EDIT_AFTER_THUMBNAIL@ +
            image_preview(app_url, "/uploads/backdrops/"@, text_or_empty(s.backdrop)),
            SERIES_EDIT_TAIL@,
            "Edit: "@ + s.title@ + "</h1>"@,
        );
    }
    assert(contains_text(series_edit_text(s, rating, app_url), "<input type=\"text\" name=\"title\" value=\""@ + s.title@ + "\""@)) by {
        lemma_contains_filled(
            SERIES_EDIT_HEAD@ +
            s.title@,
            SERIES_EDIT_AFTER_HEADING@,
            s.title@,
            SERIES_EDIT_AFTER_TITLE@,
            "<input type=\"text\" name=\"title\" value=\""@,
            "\""@,
        );
        lemma_contains_extend(
            SERIES_EDIT_HEAD@ +
            s.title@ +
            SERIES_EDIT_AFTER_HEADING@ +
            s.title@ +
            SERIES_EDIT_AFTER_TITLE@,
            text_or_empty(s.description),
            "<input type=\"text\" name=\"title\" value=\""@ + s.title@ + "\""@,
        );
        lemma_contains_extend(
            SERIES_EDIT_HEAD@ +
            s.title@ +
            SERIES_EDIT_AFTER_HEADING@ +
            s.title@ +
            SERIES_EDIT_AFTER_TITLE@ +
            text_or_empty(s.description),
            SERIES_EDIT_AFTER_DESCRIPTION@,
            "<input type=\"text\" name=\"title\" value=\""@ + s.title@ + "\""@,
        );
        lemma_contains_extend(
            SERIES_EDIT_HEAD@ +
            s.title@ +
            SERIES_EDIT_AFTER_HEADING@ +
            s.title@ +
            SERIES_EDIT_AFTER_TITLE@ +
            text_or_empty(s.description) +
            SERIES_EDIT_AFTER_DESCRIPTION@,
            series_year_text(s),
            "<input type=\"text\" name=\"title\" value=\""@ + s.title@ + "\""@,
        );
        lemma_contains_extend(
            SERIES_EDIT_HEAD@ +
            s.title@ +
            SERIES_EDIT_AFTER_HEADING@ +
            s.title@ +
            SERIES_EDIT_AFTER_TITLE@ +
            text_or_empty(s.description) +
            SERIES_EDIT_AFTER_DESCRIPTION@ +
            series_year_text(s),
            SERIES_EDIT_AFTER_YEAR@,
            "<input type=\"text\" name=\"title\" value=\""@ + s.title@ + "\""@,
        );
        lemma_contains_extend(
            SERIES_EDIT_HEAD@ +
            s.title@ +
            SERIES_EDIT_AFTER_HEADING@ +
            s.title@ +
            SERIES_EDIT_AFTER_TITLE@ +
            text_or_empty(s.description) +
            SERIES_EDIT_AFTER_DESCRIPTION@ +
            series_year_text(s) +
            SERIES_EDIT_AFTER_YEAR@,
            selected_if(s.status, "ongoing"@),
            "<input type=\"text\" name=\"title\" value=\""@ + s.title@ + "\""@,
        );
        lemma_contains_extend(
            SERIES_EDIT_HEAD@ +
            s.title@ +
            SERIES_EDIT_AFTER_HEADING@ +
            s.title@ +
            SERIES_EDIT_AFTER_TITLE@ +
            text_or_empty(s.description) +
            SERIES_EDIT_AFTER_DESCRIPTION@ +
            series_year_text(s) +
            SERIES_EDIT_AFTER_YEAR@ +
            selected_if(s.status, "ongoing"@),
            SERIES_EDIT_AFTER_ONGOING@,
            "<input type=\"text\" name=\"title\" value=\""@ + s.title@ + "\""@,
        );
        lemma_contains_extend(
            SERIES_EDIT_HEAD@ +
            s.title@ +
            SERIES_EDIT_AFTER_HEADING@ +
            s.title@ +
            SERIES_EDIT_AFTER_TITLE@ +
            text_or_empty(s.description) +
            SERIES_EDIT_AFTER_DESCRIPTION@ +
            series_year_text(s) +
            SERIES_EDIT_AFTER_YEAR@ +
            selected_if(s.status, "ongoing"@) +
            SERIES_EDIT_AFTER_ONGOING@,
            selected_if(s.status, "completed"@),
            "<input type=\"text\" name=\"title\" value=\""@ + s.title@ + "\""@,
        );
        lemma_contains_extend(
            SERIES_EDIT_HEAD@ +
            s.title@ +
            SERIES_EDIT_AFTER_HEADING@ +
            s.title@ +
            SERIES_EDIT_AFTER_TITLE@ +
            text_or_empty(s.description) +
            SERIES_EDIT_AFTER_DESCRIPTION@ +
            series_year_text(s) +
            SERIES_EDIT_AFTER_YEAR@ +
            selected_if(s.status, "ongoing"@) +
            SERIES_EDIT_AFTER_ONGOING@ +
            selected_if(s.status, "completed"@),
            SERIES_EDIT_AFTER_COMPLETED@,
            "<input type=\"text\" name=\"title\" value=\""@ + s.title@ + "\""@,
        );
        lemma_contains_extend(
            SERIES_EDIT_HEAD@ +
            s.title@ +
            SERIES_EDIT_AFTER_HEADING@ +
            s.title@ +
            SERIES_EDIT_AFTER_TITLE@ +
            text_or_empty(s.description) +
            SERIES_EDIT_AFTER_DESCRIPTION@ +
            series_year_text(s) +
            SERIES_EDIT_AFTER_YEAR@ +
            selected_if(s.status, "ongoing"@) +
            SERIES_EDIT_AFTER_ONGOING@ +
            selected_if(s.status, "completed"@) +
            SERIES_EDIT_AFTER_COMPLETED@,
            rating,
            "<input type=\"text\" name=\"title\" value=\""@ + s.title@ + "\""@,
        );
        lemma_contains_extend(
            SERIES_EDIT_HEAD@ +
            s.title@ +
            SERIES_EDIT_AFTER_HEADING@ +
            s.title@ +
            SERIES_EDIT_AFTER_TITLE@ +
            text_or_empty(s.description) +
            SERIES_EDIT_AFTER_DESCRIPTION@ +
            series_year_text(s) +
            SERIES_EDIT_AFTER_YEAR@ +
            selected_if(s.status, "ongoing"@) +
            SERIES_EDIT_AFTER_ONGOING@ +
            selected_if(s.status, "completed"@) +
            SERIES_EDIT_AFTER_COMPLETED@ +
            rating,
            SERIES_EDIT_AFTER_RATING@,
            "<input type=\"text\" name=\"title\" value=\""@ + s.title@ + "\""@,
        );
        lemma_contains_extend(
            SERIES_EDIT_HEAD@ +
            s.title@ +
            SERIES_EDIT_AFTER_HEADING@ +
            s.title@ +
            SERIES_EDIT_AFTER_TITLE@ +
            text_or_empty(s.description) +
            SERIES_EDIT_AFTER_DESCRIPTION@ +
            series_year_text(s) +
            SERIES_EDIT_AFTER_YEAR@ +
            selected_if(s.status, "ongoing"@) +
            SERIES_EDIT_AFTER_ONGOING@ +
            selected_if(s.status, "completed"@) +
            SERIES_EDIT_AFTER_COMPLETED@ +
            rating +
            SERIES_EDIT_AFTER_RATING@,
            decimal_text(s.id as int),
            "<input type=\"text\" name=\"title\" value=\""@ + s.title@ + "\""@,
        );
        lemma_contains_extend(
            SERIES_EDIT_HEAD@ +
            s.title@ +
            SERIES_EDIT_AFTER_HEADING@ +
            s.title@ +
            SERIES_EDIT_AFTER_TITLE@ +
            text_or_empty(s.description) +
            SERIES_EDIT_AFTER_DESCRIPTION@ +
            series_year_text(s) +
            SERIES_EDIT_AFTER_YEAR@ +
            selected_if(s.status, "ongoing"@) +
            SERIES_EDIT_AFTER_ONGOING@ +
            selected_if(s.status, "completed"@) +
            SERIES_EDIT_AFTER_COMPLETED@ +
            rating +
            SERIES_EDIT_AFTER_RATING@ +
            decimal_text(s.id as int),
            SERIES_EDIT_AFTER_ID@,
            "<input type=\"text\" name=\"title\" value=\""@ + s.title@ + "\""@,
        );
        lemma_contains_extend(
            SERIES_EDIT_HEAD@ +
            s.title@ +
            SERIES_EDIT_AFTER_HEADING@ +
            s.title@ +
            SERIES_EDIT_AFTER_TITLE@ +
            text_or_empty(s.description) +
            SERIES_EDIT_AFTER_DESCRIPTION@ +
            series_year_text(s) +
            SERIES_EDIT_AFTER_YEAR@ +
            selected_if(s.status, "ongoing"@) +
            SERIES_EDIT_AFTER_ONGOING@ +
            selected_if(s.status, "completed"@) +
            SERIES_EDIT_AFTER_COMPLETED@ +
            rating +
            SERIES_EDIT_AFTER_RATING@ +
            decimal_text(s.id as int) +
            SERIES_EDIT_AFTER_ID@,
            image_preview(app_url, "/uploads/thumbnails/"@, text_or_empty(s.thumbnail)),
            "<input type=\"text\" name=\"title\" value=\""@ + s.title@ + "\""@,
        );
        lemma_contains_extend(
            SERIES_EDIT_HEAD@ +
            s.title@ +
            SERIES_EDIT_AFTER_HEADING@ +
            s.title@ +
            SERIES_EDIT_AFTER_TITLE@ +
            text_or_empty(s.description) +
            SERIES_EDIT_AFTER_DESCRIPTION@ +
            series_year_text(s) +
            SERIES_EDIT_AFTER_YEAR@ +
            selected_if(s.status, "ongoing"@) +
            SERIES_EDIT_AFTER_ONGOING@ +
            selected_if(s.status, "completed"@) +
            SERIES_EDIT_AFTER_COMPLETED@ +
            rating +
            SERIES_EDIT_AFTER_RATING@ +
            decimal_text(s.id as int) +
            SERIES_EDIT_AFTER_ID@ +
            image_preview(app_url, "/uploads/thumbnails/"@, text_or_empty(s.thumbnail)),
            SERIES_EDIT_AFTER_THUMBNAIL@,
            "<input type=\"text\" name=\"title\" value=\""@ + s.title@ + "\""@,
        );
        lemma_contains_extend(
            SERIES_EDIT_HEAD@ +
            s.title@ +
            SERIES_EDIT_AFTER_HEADING@ +
            s.title@ +
            SERIES_EDIT_AFTER_TITLE@ +
            text_or_empty(s.description) +
            SERIES_EDIT_AFTER_DESCRIPTION@ +
            series_year_text(s) +
            SERIES_EDIT_AFTER_YEAR@ +
            selected_if(s.status, "ongoing"@) +
            SERIES_EDIT_AFTER_ONGOING@ +
            selected_if(s.status, "completed"@) +
            SERIES_EDIT_AFTER_COMPLETED@ +
            rating +
            SERIES_EDIT_AFTER_RATING@ +
            decimal_text(s.id as int) +
            SERIES_EDIT_AFTER_ID@ +
            image_preview(app_url, "/uploads/thumbnails/"@, text_or_empty(s.thumbnail)) +
            SERIES_EDIT_AFTER_THUMBNAIL@,
            image_preview(app_url, "/uploads/backdrops/"@, text_or_empty(s.backdrop)),
            "<input type=\"text\" name=\"title\" value=\""@ + s.title@ + "\""@,
        );
        lemma_contains_extend(
            SERIES_EDIT_HEAD@ +
            s.title@ +
            SERIES_EDIT_AFTER_HEADING@ +
            s.title@ +
            SERIES_EDIT_AFTER_TITLE@ +
            text_or_empty(s.description) +
            SERIES_EDIT_AFTER_DESCRIPTION@ +
            series_year_text(s) +
            SERIES_EDIT_AFTER_YEAR@ +
            selected_if(s.status, "ongoing"@) +
            SERIES_EDIT_AFTER_ONGOING@ +
            selected_if(s.status, "completed"@) +
            SERIES_EDIT_AFTER_COMPLETED@ +
            rating +
            SERIES_EDIT_AFTER_RATING@ +
            decimal_text(s.id as int) +
            SERIES_EDIT_AFTER_ID@ +
            image_preview(app_url, "/uploads/thumbnails/"@, text_or_empty(s.thumbnail)) +
            SERIES_EDIT_AFTER_THUMBNAIL@ +
            image_preview(app_url, "/uploads/backdrops/"@, text_or_empty(s.backdrop)),
            SERIES_EDIT_TAIL@,
            "<input type=\"text\" name=\"title\" value=\""@ + s.title@ + "\""@,
        );
    }
    assert(contains_text(series_edit_text(s, rating, app_url), "<textarea name=\"description\" rows=\"4\" class=\"w-full border rounded-lg px-4 py-2\">"@ + text_or_empty(s.description) + "</textarea>"@)) by {
        lemma_contains_filled(
            SERIES_EDIT_HEAD@ +
            s.title@ +
            SERIES_EDIT_AFTER_HEADING@ +
            s.title@,
            SERIES_EDIT_AFTER_TITLE@,
            text_or_empty(s.description),
            SERIES_EDIT_AFTER_DESCRIPTION@,
            "<textarea name=\"description\" rows=\"4\" class=\"w-full border rounded-lg px-4 py-2\">"@,
            "</textarea>"@,
        );
        lemma_contains_extend(
            SERIES_EDIT_HEAD@ +
            s.title@ +
            SERIES_EDIT_AFTER_HEADING@ +
            s.title@ +
            SERIES_EDIT_AFTER_TITLE@ +
            text_or_empty(s.description) +
            SERIES_EDIT_AFTER_DESCRIPTION@,
            series_year_text(s),
            "<textarea name=\"description\" rows=\"4\" class=\"w-full border rounded-lg px-4 py-2\">"@ + text_or_empty(s.description) + "</textarea>"@,
        );
        lemma_contains_extend(
            SERIES_EDIT_HEAD@ +
            s.title@ +
            SERIES_EDIT_AFTER_HEADING@ +
            s.title@ +
            SERIES_EDIT_AFTER_TITLE@ +
            text_or_empty(s.description) +
            SERIES_EDIT_AFTER_DESCRIPTION@ +
            series_year_text(s),
            SERIES_EDIT_AFTER_YEAR@,
            "<textarea name=\"description\" rows=\"4\" class=\"w-full border rounded-lg px-4 py-2\">"@ + text_or_empty(s.description) + "</textarea>"@,
        );
        lemma_contains_extend(
            SERIES_EDIT_HEAD@ +
            s.title@ +
            SERIES_EDIT_AFTER_HEADING@ +
            s.title@ +
            SERIES_EDIT_AFTER_TITLE@ +
            text_or_empty(s.description) +
            SERIES_EDIT_AFTER_DESCRIPTION@ +
            series_year_text(s) +
            SERIES_EDIT_AFTER_YEAR@,
            selected_if(s.status, "ongoing"@),
            "<textarea name=\"description\" rows=\"4\" class=\"w-full border rounded-lg px-4 py-2\">"@ + text_or_empty(s.description) + "</textarea>"@,
        );
        lemma_contains_extend(
            SERIES_EDIT_HEAD@ +
            s.title@ +
            SERIES_EDIT_AFTER_HEADING@ +
            s.title@ +
            SERIES_EDIT_AFTER_TITLE@ +
            text_or_empty(s.description) +
            SERIES_EDIT_AFTER_DESCRIPTION@ +
            series_year_text(s) +
            SERIES_EDIT_AFTER_YEAR@ +
            selected_if(s.status, "ongoing"@),
            SERIES_EDIT_AFTER_ONGOING@,
            "<textarea name=\"description\" rows=\"4\" class=\"w-full border rounded-lg px-4 py-2\">"@ + text_or_empty(s.description) + "</textarea>"@,
        );
        lemma_contains_extend(
            SERIES_EDIT_HEAD@ +
            s.title@ +
            SERIES_EDIT_AFTER_HEADING@ +
            s.title@ +
            SERIES_EDIT_AFTER_TITLE@ +
            text_or_empty(s.description) +
            SERIES_EDIT_AFTER_DESCRIPTION@ +
            series_year_text(s) +
            SERIES_EDIT_AFTER_YEAR@ +
            selected_if(s.status, "ongoing"@) +
            SERIES_EDIT_AFTER_ONGOING@,
            selected_if(s.status, "completed"@),
            "<textarea name=\"description\" rows=\"4\" class=\"w-full border rounded-lg px-4 py-2\">"@ + text_or_empty(s.description) + "</textarea>"@,
        );
        lemma_contains_extend(
            SERIES_EDIT_HEAD@ +
            s.title@ +
            SERIES_EDIT_AFTER_HEADING@ +
            s.title@ +
            SERIES_EDIT_AFTER_TITLE@ +
            text_or_empty(s.description) +
            SERIES_EDIT_AFTER_DESCRIPTION@ +
            series_year_text(s) +
            SERIES_EDIT_AFTER_YEAR@ +
            selected_if(s.status, "ongoing"@) +
            SERIES_EDIT_AFTER_ONGOING@ +
            selected_if(s.status, "completed"@),
            SERIES_EDIT_AFTER_COMPLETED@,
            "<textarea name=\"description\" rows=\"4\" class=\"w-full border rounded-lg px-4 py-2\">"@ + text_or_empty(s.description) + "</textarea>"@,
        );
        lemma_contains_extend(
            SERIES_EDIT_HEAD@ +
            s.title@ +
            SERIES_EDIT_AFTER_HEADING@ +
            s.title@ +
            SERIES_EDIT_AFTER_TITLE@ +
            text_or_empty(s.description) +
            SERIES_EDIT_AFTER_DESCRIPTION@ +
            series_year_text(s) +
            SERIES_EDIT_AFTER_YEAR@ +
            selected_if(s.status, "ongoing"@) +
            SERIES_EDIT_AFTER_ONGOING@ +
            selected_if(s.status, "completed"@) +
            SERIES_EDIT_AFTER_COMPLETED@,
            rating,
            "<textarea name=\"description\" rows=\"4\" class=\"w-full border rounded-lg px-4 py-2\">"@ + text_or_empty(s.description) + "</textarea>"@,
        );
        lemma_contains_extend(
            SERIES_EDIT_HEAD@ +
            s.title@ +
            SERIES_EDIT_AFTER_HEADING@ +
            s.title@ +
            SERIES_EDIT_AFTER_TITLE@ +
            text_or_empty(s.description) +
            SERIES_EDIT_AFTER_DESCRIPTION@ +
            series_year_text(s) +
            SERIES_EDIT_AFTER_YEAR@ +
            selected_if(s.status, "ongoing"@) +
            SERIES_EDIT_AFTER_ONGOING@ +
            selected_if(s.status, "completed"@) +
            SERIES_EDIT_AFTER_COMPLETED@ +
            rating,
            SERIES_EDIT_AFTER_RATING@,
            "<textarea name=\"description\" rows=\"4\" class=\"w-full border rounded-lg px-4 py-2\">"@ + text_or_empty(s.description) + "</textarea>"@,
        );
        lemma_contains_extend(
            SERIES_EDIT_HEAD@ +
            s.title@ +
            SERIES_EDIT_AFTER_HEADING@ +
            s.title@ +
            SERIES_EDIT_AFTER_TITLE@ +
            text_or_empty(s.description) +
            SERIES_EDIT_AFTER_DESCRIPTION@ +
            series_year_text(s) +
            SERIES_EDIT_AFTER_YEAR@ +
            selected_if(s.status, "ongoing"@) +
            SERIES_EDIT_AFTER_ONGOING@ +
            selected_if(s.status, "completed"@) +
            SERIES_EDIT_AFTER_COMPLETED@ +
            rating +
            SERIES_EDIT_AFTER_RATING@,
            decimal_text(s.id as int),
            "<textarea name=\"description\" rows=\"4\" class=\"w-full border rounded-lg px-4 py-2\">"@ + text_or_empty(s.description) + "</textarea>"@,
        );
        lemma_contains_extend(
            SERIES_EDIT_HEAD@ +
            s.title@ +
            SERIES_EDIT_AFTER_HEADING@ +
            s.title@ +
            SERIES_EDIT_AFTER_TITLE@ +
            text_or_empty(s.description) +
            SERIES_EDIT_AFTER_DESCRIPTION@ +
            series_year_text(s) +
            SERIES_EDIT_AFTER_YEAR@ +
            selected_if(s.status, "ongoing"@) +
            SERIES_EDIT_AFTER_ONGOING@ +
            selected_if(s.status, "completed"@) +
            SERIES_EDIT_AFTER_COMPLETED@ +
            rating +
            SERIES_EDIT_AFTER_RATING@ +
            decimal_text(s.id as int),
            SERIES_EDIT_AFTER_ID@,
            "<textarea name=\"description\" rows=\"4\" class=\"w-full border rounded-lg px-4 py-2\">"@ + text_or_empty(s.description) + "</textarea>"@,
        );
        lemma_contains_extend(
            SERIES_EDIT_HEAD@ +
            s.title@ +
            SERIES_EDIT_AFTER_HEADING@ +
            s.title@ +
            SERIES_EDIT_AFTER_TITLE@ +
            text_or_empty(s.description) +
            SERIES_EDIT_AFTER_DESCRIPTION@ +
            series_year_text(s) +
            SERIES_EDIT_AFTER_YEAR@ +
            selected_if(s.status, "ongoing"@) +
            SERIES_EDIT_AFTER_ONGOING@ +
            selected_if(s.status, "completed"@) +
            SERIES_EDIT_AFTER_COMPLETED@ +
            rating +
            SERIES_EDIT_AFTER_RATING@ +
            decimal_text(s.id as int) +
            SERIES_EDIT_AFTER_ID@,
            image_preview(app_url, "/uploads/thumbnails/"@, text_or_empty(s.thumbnail)),
            "<textarea name=\"description\" rows=\"4\" class=\"w-full border rounded-lg px-4 py-2\">"@ + text_or_empty(s.description) + "</textarea>"@,
        );
        lemma_contains_extend(
            SERIES_EDIT_HEAD@ +
            s.title@ +
            SERIES_EDIT_AFTER_HEADING@ +
            s.title@ +
            SERIES_EDIT_AFTER_TITLE@ +
            text_or_empty(s.description) +
            SERIES_EDIT_AFTER_DESCRIPTION@ +
            series_year_text(s) +
            SERIES_EDIT_AFTER_YEAR@ +
            selected_if(s.status, "ongoing"@) +
            SERIES_EDIT_AFTER_ONGOING@ +
            selected_if(s.status, "completed"@) +
            SERIES_EDIT_AFTER_COMPLETED@ +
            rating +
            SERIES_EDIT_AFTER_RATING@ +
            decimal_text(s.id as int) +
            SERIES_EDIT_AFTER_ID@ +
            image_preview(app_url, "/uploads/thumbnails/"@, text_or_empty(s.thumbnail)),
            SERIES_EDIT_AFTER_THUMBNAIL@,
            "<textarea name=\"description\" rows=\"4\" class=\"w-full border rounded-lg px-4 py-2\">"@ + text_or_empty(s.description) + "</textarea>"@,
        );
        lemma_contains_extend(
            SERIES_EDIT_HEAD@ +
            s.title@ +
            SERIES_EDIT_AFTER_HEADING@ +
            s.title@ +
            SERIES_EDIT_AFTER_TITLE@ +
            text_or_empty(s.description) +
            SERIES_EDIT_AFTER_DESCRIPTION@ +
            series_year_text(s) +
            SERIES_EDIT_AFTER_YEAR@ +
            selected_if(s.status, "ongoing"@) +
            SERIES_EDIT_AFTER_ONGOING@ +
            selected_if(s.status, "completed"@) +
            SERIES_EDIT_AFTER_COMPLETED@ +
            rating +
            SERIES_EDIT_AFTER_RATING@ +
            decimal_text(s.id as int) +
            SERIES_EDIT_AFTER_ID@ +
            image_preview(app_url, "/uploads/thumbnails/"@, text_or_empty(s.thumbnail)) +
            SERIES_EDIT_AFTER_THUMBNAIL@,
            image_preview(app_url, "/uploads/backdrops/"@, text_or_empty(s.backdrop)),
            "<textarea name=\"description\" rows=\"4\" class=\"w-full border rounded-lg px-4 py-2\">"@ + text_or_empty(s.description) + "</textarea>"@,
        );
        lemma_contains_extend(
            SERIES_EDIT_HEAD@ +
            s.title@ +
            SERIES_EDIT_AFTER_HEADING@ +
            s.title@ +
            SERIES_EDIT_AFTER_TITLE@ +
            text_or_empty(s.description) +
            SERIES_EDIT_AFTER_DESCRIPTION@ +
            series_year_text(s) +
            SERIES_EDIT_AFTER_YEAR@ +
            selected_if(s.status, "ongoing"@) +
            SERIES_EDIT_AFTER_ONGOING@ +
            selected_if(s.status, "completed"@) +
            SERIES_EDIT_AFTER_COMPLETED@ +
            rating +
            SERIES_EDIT_AFTER_RATING@ +
            decimal_text(s.id as int) +
            SERIES_EDIT_AFTER_ID@ +
            image_preview(app_url, "/uploads/thumbnails/"@, text_or_empty(s.thumbnail)) +
            SERIES_EDIT_AFTER_THUMBNAIL@ +
            image_preview(app_url, "/uploads/backdrops/"@, text_or_empty(s.backdrop)),
            SERIES_EDIT_TAIL@,
            "<textarea name=\"description\" rows=\"4\" class=\"w-full border rounded-lg px-4 py-2\">"@ + text_or_empty(s.description) + "</textarea>"@,
        );
    }
    assert(contains_text(series_edit_text(s, rating, app_url), "<input type=\"number\" name=\"year\" value=\""@ + series_year_text(s) + "\""@)) by {
        lemma_contains_filled(
            SERIES_EDIT_HEAD@ +
            s.title@ +
            SERIES_EDIT_AFTER_HEADING@ +
            s.title@ +
            SERIES_EDIT_AFTER_TITLE@ +
            text_or_empty(s.description),
            SERIES_EDIT_AFTER_DESCRIPTION@,
            series_year_text(s),
            SERIES_EDIT_AFTER_YEAR@,
            "<input type=\"number\" name=\"year\" value=\""@,
            "\""@,
        );
        lemma_contains_extend(
            SERIES_EDIT_HEAD@ +
            s.title@ +
            SERIES_EDIT_AFTER_HEADING@ +
            s.title@ +
            SERIES_EDIT_AFTER_TITLE@ +
            text_or_empty(s.description) +
            SERIES_EDIT_AFTER_DESCRIPTION@ +
            series_year_text(s) +
            SERIES_EDIT_AFTER_YEAR@,
            selected_if(s.status, "ongoing"@),
            "<input type=\"number\" name=\"year\" value=\""@ + series_year_text(s) + "\""@,
        );
        lemma_contains_extend(
            SERIES_EDIT_HEAD@ +
            s.title@ +
            SERIES_EDIT_AFTER_HEADING@ +
            s.title@ +
            SERIES_EDIT_AFTER_TITLE@ +
            text_or_empty(s.description) +
            SERIES_EDIT_AFTER_DESCRIPTION@ +
            series_year_text(s) +
            SERIES_EDIT_AFTER_YEAR@ +
            selected_if(s.status, "ongoing"@),
            SERIES_EDIT_AFTER_ONGOING@,
            "<input type=\"number\" name=\"year\" value=\""@ + series_year_text(s) + "\""@,
        );
        lemma_contains_extend(
            SERIES_EDIT_HEAD@ +
            s.title@ +
            SERIES_EDIT_AFTER_HEADING@ +
            s.title@ +
            SERIES_EDIT_AFTER_TITLE@ +
            text_or_empty(s.description) +
            SERIES_EDIT_AFTER_DESCRIPTION@ +
            series_year_text(s) +
            SERIES_EDIT_AFTER_YEAR@ +
            selected_if(s.status, "ongoing"@) +
            SERIES_EDIT_AFTER_ONGOING@,
            selected_if(s.status, "completed"@),
            "<input type=\"number\" name=\"year\" value=\""@ + series_year_text(s) + "\""@,
        );
        lemma_contains_extend(
            SERIES_EDIT_HEAD@ +
            s.title@ +
            SERIES_EDIT_AFTER_HEADING@ +
            s.title@ +
            SERIES_EDIT_AFTER_TITLE@ +
            text_or_empty(s.description) +
            SERIES_EDIT_AFTER_DESCRIPTION@ +
            series_year_text(s) +
            SERIES_EDIT_AFTER_YEAR@ +
            selected_if(s.status, "ongoing"@) +
            SERIES_EDIT_AFTER_ONGOING@ +
            selected_if(s.status, "completed"@),
            SERIES_EDIT_AFTER_COMPLETED@,
            "<input type=\"number\" name=\"year\" value=\""@ + series_year_text(s) + "\""@,
        );
        lemma_contains_extend(
            SERIES_EDIT_HEAD@ +
            s.title@ +
            SERIES_EDIT_AFTER_HEADING@ +
            s.title@ +
            SERIES_EDIT_AFTER_TITLE@ +
            text_or_empty(s.description) +
            SERIES_EDIT_AFTER_DESCRIPTION@ +
            series_year_text(s) +
            SERIES_EDIT_AFTER_YEAR@ +
            selected_if(s.status, "ongoing"@) +
            SERIES_EDIT_AFTER_ONGOING@ +
            selected_if(s.status, "completed"@) +
            SERIES_EDIT_AFTER_COMPLETED@,
            rating,
            "<input type=\"number\" name=\"year\" value=\""@ + series_year_text(s) + "\""@,
        );
        lemma_contains_extend(
            SERIES_EDIT_HEAD@ +
            s.title@ +
            SERIES_EDIT_AFTER_HEADING@ +
            s.title@ +
            SERIES_EDIT_AFTER_TITLE@ +
            text_or_empty(s.description) +
            SERIES_EDIT_AFTER_DESCRIPTION@ +
            series_year_text(s) +
            SERIES_EDIT_AFTER_YEAR@ +
            selected_if(s.status, "ongoing"@) +
            SERIES_EDIT_AFTER_ONGOING@ +
            selected_if(s.status, "completed"@) +
            SERIES_EDIT_AFTER_COMPLETED@ +
            rating,
            SERIES_EDIT_AFTER_RATING@,
            "<input type=\"number\" name=\"year\" value=\""@ + series_year_text(s) + "\""@,
        );
        lemma_contains_extend(
            SERIES_EDIT_HEAD@ +
            s.title@ +
            SERIES_EDIT_AFTER_HEADING@ +
            s.title@ +
            SERIES_EDIT_AFTER_TITLE@ +
            text_or_empty(s.description) +
            SERIES_EDIT_AFTER_DESCRIPTION@ +
            series_year_text(s) +
            SERIES_EDIT_AFTER_YEAR@ +
            selected_if(s.status, "ongoing"@) +
            SERIES_EDIT_AFTER_ONGOING@ +
            selected_if(s.status, "completed"@) +
            SERIES_EDIT_AFTER_COMPLETED@ +
            rating +
            SERIES_EDIT_AFTER_RATING@,
            decimal_text(s.id as int),
            "<input type=\"number\" name=\"year\" value=\""@ + series_year_text(s) + "\""@,
        );
        lemma_contains_extend(
            SERIES_EDIT_HEAD@ +
            s.title@ +
            SERIES_EDIT_AFTER_HEADING@ +
            s.title@ +
            SERIES_EDIT_AFTER_TITLE@ +
            text_or_empty(s.description) +
            SERIES_EDIT_AFTER_DESCRIPTION@ +
            series_year_text(s) +
            SERIES_EDIT_AFTER_YEAR@ +
            selected_if(s.status, "ongoing"@) +
            SERIES_EDIT_AFTER_ONGOING@ +
            selected_if(s.status, "completed"@) +
            SERIES_EDIT_AFTER_COMPLETED@ +
            rating +
            SERIES_EDIT_AFTER_RATING@ +
            decimal_text(s.id as int),
            SERIES_EDIT_AFTER_ID@,
            "<input type=\"number\" name=\"year\" value=\""@ + series_year_text(s) + "\""@,
        );
        lemma_contains_extend(
            SERIES_EDIT_HEAD@ +
            s.title@ +
            SERIES_EDIT_AFTER_HEADING@ +
            s.title@ +
            SERIES_EDIT_AFTER_TITLE@ +
            text_or_empty(s.description) +
            SERIES_EDIT_AFTER_DESCRIPTION@ +
            series_year_text(s) +
            SERIES_EDIT_AFTER_YEAR@ +
            selected_if(s.status, "ongoing"@) +
            SERIES_EDIT_AFTER_ONGOING@ +
            selected_if(s.status, "completed"@) +
            SERIES_EDIT_AFTER_COMPLETED@ +
            rating +
            SERIES_EDIT_AFTER_RATING@ +
            decimal_text(s.id as int) +
            SERIES_EDIT_AFTER_ID@,
            image_preview(app_url, "/uploads/thumbnails/"@, text_or_empty(s.thumbnail)),
            "<input type=\"number\" name=\"year\" value=\""@ + series_year_text(s) + "\""@,
        );
        lemma_contains_extend(
            SERIES_EDIT_HEAD@ +
            s.title@ +
            SERIES_EDIT_AFTER_HEADING@ +
            s.title@ +
            SERIES_EDIT_AFTER_TITLE@ +
            text_or_empty(s.description) +
            SERIES_EDIT_AFTER_DESCRIPTION@ +
            series_year_text(s) +
            SERIES_EDIT_AFTER_YEAR@ +
            selected_if(s.status, "ongoing"@) +
            SERIES_EDIT_AFTER_ONGOING@ +
            selected_if(s.status, "completed"@) +
            SERIES_EDIT_AFTER_COMPLETED@ +
            rating +
            SERIES_EDIT_AFTER_RATING@ +
            decimal_text(s.id as int) +
            SERIES_EDIT_AFTER_ID@ +
            image_preview(app_url, "/uploads/thumbnails/"@, text_or_empty(s.thumbnail)),
            SERIES_EDIT_AFTER_THUMBNAIL@,
            "<input type=\"number\" name=\"year\" value=\""@ + series_year_text(s) + "\""@,
        );
        lemma_contains_extend(
            SERIES_EDIT_HEAD@ +
            s.title@ +
            SERIES_EDIT_AFTER_HEADING@ +
            s.title@ +
            SERIES_EDIT_AFTER_TITLE@ +
            text_or_empty(s.description) +
            SERIES_EDIT_AFTER_DESCRIPTION@ +
            series_year_text(s) +
            SERIES_EDIT_AFTER_YEAR@ +
            selected_if(s.status, "ongoing"@) +
            SERIES_EDIT_AFTER_ONGOING@ +
            selected_if(s.status, "completed"@) +
            SERIES_EDIT_AFTER_COMPLETED@ +
            rating +
            SERIES_EDIT_AFTER_RATING@ +
            decimal_text(s.id as int) +
            SERIES_EDIT_AFTER_ID@ +
            image_preview(app_url, "/uploads/thumbnails/"@, text_or_empty(s.thumbnail)) +
            SERIES_EDIT_AFTER_THUMBNAIL@,
            image_preview(app_url, "/uploads/backdrops/"@, text_or_empty(s.backdrop)),
            "<input type=\"number\" name=\"year\" value=\""@ + series_year_text(s) + "\""@,
        );
        lemma_contains_extend(
            SERIES_EDIT_HEAD@ +
            s.title@ +
            SERIES_EDIT_AFTER_HEADING@ +
            s.title@ +
            SERIES_EDIT_AFTER_TITLE@ +
            text_or_empty(s.description) +
            SERIES_EDIT_AFTER_DESCRIPTION@ +
            series_year_text(s) +
            SERIES_EDIT_AFTER_YEAR@ +
            selected_if(s.status, "ongoing"@) +
            SERIES_EDIT_AFTER_ONGOING@ +
            selected_if(s.status, "completed"@) +
            SERIES_EDIT_AFTER_COMPLETED@ +
            rating +
            SERIES_EDIT_AFTER_RATING@ +
            decimal_text(s.id as int) +
            SERIES_EDIT_AFTER_ID@ +
            image_preview(app_url, "/uploads/thumbnails/"@, text_or_empty(s.thumbnail)) +
            SERIES_EDIT_AFTER_THUMBNAIL@ +
            image_preview(app_url, "/uploads/backdrops/"@, text_or_empty(s.backdrop)),
            SERIES_EDIT_TAIL@,
            "<input type=\"number\" name=\"year\" value=\""@ + series_year_text(s) + "\""@,
        );
    }
    assert(contains_text(series_edit_text(s, rating, app_url), "max=\"10\" value=\""@ + rating + "\""@)) by {
        lemma_contains_filled(
            SERIES_EDIT_HEAD@ +
            s.title@ +
            SERIES_EDIT_AFTER_HEADING@ +
            s.title@ +
            SERIES_EDIT_AFTER_TITLE@ +
            text_or_empty(s.description) +
            SERIES_EDIT_AFTER_DESCRIPTION@ +
            series_year_text(s) +
            SERIES_EDIT_AFTER_YEAR@ +
            selected_if(s.status, "ongoing"@) +
            SERIES_EDIT_AFTER_ONGOING@ +
            selected_if(s.status, "completed"@),
            SERIES_EDIT_AFTER_COMPLETED@,
            rating,
            SERIES_EDIT_AFTER_RATING@,
            "max=\"10\" value=\""@,
            "\""@,
        );
        lemma_contains_extend(
            SERIES_EDIT_HEAD@ +
            s.title@ +
            SERIES_EDIT_AFTER_HEADING@ +
            s.title@ +
            SERIES_EDIT_AFTER_TITLE@ +
            text_or_empty(s.description) +
            SERIES_EDIT_AFTER_DESCRIPTION@ +
            series_year_text(s) +
            SERIES_EDIT_AFTER_YEAR@ +
            selected_if(s.status, "ongoing"@) +
            SERIES_EDIT_AFTER_ONGOING@ +
            selected_if(s.status, "completed"@) +
            SERIES_EDIT_AFTER_COMPLETED@ +
            rating +
            SERIES_EDIT_AFTER_RATING@,
            decimal_text(s.id as int),
            "max=\"10\" value=\""@ + rating + "\""@,
        );
        lemma_contains_extend(
            SERIES_EDIT_HEAD@ +
            s.title@ +
            SERIES_EDIT_AFTER_HEADING@ +
            s.title@ +
            SERIES_EDIT_AFTER_TITLE@ +
            text_or_empty(s.description) +
            SERIES_EDIT_AFTER_DESCRIPTION@ +
            series_year_text(s) +
            SERIES_EDIT_AFTER_YEAR@ +
            selected_if(s.status, "ongoing"@) +
            SERIES_EDIT_AFTER_ONGOING@ +
            selected_if(s.status, "completed"@) +
            SERIES_EDIT_AFTER_COMPLETED@ +
            rating +
            SERIES_EDIT_AFTER_RATING@ +
            decimal_text(s.id as int),
            SERIES_EDIT_AFTER_ID@,
            "max=\"10\" value=\""@ + rating + "\""@,
        );
        lemma_contains_extend(
            SERIES_EDIT_HEAD@ +
            s.title@ +
            SERIES_EDIT_AFTER_HEADING@ +
            s.title@ +
            SERIES_EDIT_AFTER_TITLE@ +
            text_or_empty(s.description) +
            SERIES_EDIT_AFTER_DESCRIPTION@ +
            series_year_text(s) +
            SERIES_EDIT_AFTER_YEAR@ +
            selected_if(s.status, "ongoing"@) +
            SERIES_EDIT_AFTER_ONGOING@ +
            selected_if(s.status, "completed"@) +
            SERIES_EDIT_AFTER_COMPLETED@ +
            rating +
            SERIES_EDIT_AFTER_RATING@ +
            decimal_text(s.id as int) +
            SERIES_EDIT_AFTER_ID@,
            image_preview(app_url, "/uploads/thumbnails/"@, text_or_empty(s.thumbnail)),
            "max=\"10\" value=\""@ + rating + "\""@,
        );
        lemma_contains_extend(
            SERIES_EDIT_HEAD@ +
            s.title@ +
            SERIES_EDIT_AFTER_HEADING@ +
            s.title@ +
            SERIES_EDIT_AFTER_TITLE@ +
            text_or_empty(s.description) +
            SERIES_EDIT_AFTER_DESCRIPTION@ +
            series_year_text(s) +
            SERIES_EDIT_AFTER_YEAR@ +
            selected_if(s.status, "ongoing"@) +
            SERIES_EDIT_AFTER_ONGOING@ +
            selected_if(s.status, "completed"@) +
            SERIES_EDIT_AFTER_COMPLETED@ +
            rating +
            SERIES_EDIT_AFTER_RATING@ +
            decimal_text(s.id as int) +
            SERIES_EDIT_AFTER_ID@ +
            image_preview(app_url, "/uploads/thumbnails/"@, text_or_empty(s.thumbnail)),
            SERIES_EDIT_AFTER_THUMBNAIL@,
            "max=\"10\" value=\""@ + rating + "\""@,
        );
        lemma_contains_extend(
            SERIES_EDIT_HEAD@ +
            s.title@ +
            SERIES_EDIT_AFTER_HEADING@ +
            s.title@ +
            SERIES_EDIT_AFTER_TITLE@ +
            text_or_empty(s.description) +
            SERIES_EDIT_AFTER_DESCRIPTION@ +
            series_year_text(s) +
            SERIES_EDIT_AFTER_YEAR@ +
            selected_if(s.status, "ongoing"@) +
            SERIES_EDIT_AFTER_ONGOING@ +
            selected_if(s.status, "completed"@) +
            SERIES_EDIT_AFTER_COMPLETED@ +
            rating +
            SERIES_EDIT_AFTER_RATING@ +
            decimal_text(s.id as int) +
            SERIES_EDIT_AFTER_ID@ +
            image_preview(app_url, "/uploads/thumbnails/"@, text_or_empty(s.thumbnail)) +
            SERIES_EDIT_AFTER_THUMBNAIL@,
            image_preview(app_url, "/uploads/backdrops/"@, text_or_empty(s.backdrop)),
            "max=\"10\" value=\""@ + rating + "\""@,
        );
        lemma_contains_extend(
            SERIES_EDIT_HEAD@ +
            s.title@ +
            SERIES_EDIT_AFTER_HEADING@ +
            s.title@ +
            SERIES_EDIT_AFTER_TITLE@ +
            text_or_empty(s.description) +
            SERIES_EDIT_AFTER_DESCRIPTION@ +
            series_year_text(s) +
            SERIES_EDIT_AFTER_YEAR@ +
            selected_if(s.status, "ongoing"@) +
            SERIES_EDIT_AFTER_ONGOING@ +
            selected_if(s.status, "completed"@) +
            SERIES_EDIT_AFTER_COMPLETED@ +
            rating +
            SERIES_EDIT_AFTER_RATING@ +
            decimal_text(s.id as int) +
            SERIES_EDIT_AFTER_ID@ +
            image_preview(app_url, "/uploads/thumbnails/"@, text_or_empty(s.thumbnail)) +
            SERIES_EDIT_AFTER_THUMBNAIL@ +
            image_preview(app_url, "/uploads/backdrops/"@, text_or_empty(s.backdrop)),
            SERIES_EDIT_TAIL@,
            "max=\"10\" value=\""@ + rating + "\""@,
        );
    }
    assert(contains_text(series_edit_text(s, rating, app_url), "action=\"/admin/series/"@ + decimal_text(s.id as int) + "/upload\""@)) by {
        lemma_contains_filled(
            SERIES_EDIT_HEAD@ +
            s.title@ +
            SERIES_EDIT_AFTER_HEADING@ +
            s.title@ +
            SERIES_EDIT_AFTER_TITLE@ +
            text_or_empty(s.description) +
            SERIES_EDIT_AFTER_DESCRIPTION@ +
            series_year_text(s) +
            SERIES_EDIT_AFTER_YEAR@ +
            selected_if(s.status, "ongoing"@) +
            SERIES_EDIT_AFTER_ONGOING@ +
            selected_if(s.status, "completed"@) +
            SERIES_EDIT_AFTER_COMPLETED@ +
            rating,
            SERIES_EDIT_AFTER_RATING@,
            decimal_text(s.id as int),
            SERIES_EDIT_AFTER_ID@,
            "action=\"/admin/series/"@,
            "/upload\""@,
        );
        lemma_contains_extend(
            SERIES_EDIT_HEAD@ +
            s.title@ +
            SERIES_EDIT_AFTER_HEADING@ +
            s.title@ +
            SERIES_EDIT_AFTER_TITLE@ +
            text_or_empty(s.description) +
            SERIES_EDIT_AFTER_DESCRIPTION@ +
            series_year_text(s) +
            SERIES_EDIT_AFTER_YEAR@ +
            selected_if(s.status, "ongoing"@) +
            SERIES_EDIT_AFTER_ONGOING@ +
            selected_if(s.status, "completed"@) +
            SERIES_EDIT_AFTER_COMPLETED@ +
            rating +
            SERIES_EDIT_AFTER_RATING@ +
            decimal_text(s.id as int) +
            SERIES_EDIT_AFTER_ID@,
            image_preview(app_url, "/uploads/thumbnails/"@, text_or_empty(s.thumbnail)),
            "action=\"/admin/series/"@ + decimal_text(s.id as int) + "/upload\""@,
        );
        lemma_contains_extend(
            SERIES_EDIT_HEAD@ +
            s.title@ +
            SERIES_EDIT_AFTER_HEADING@ +
            s.title@ +
            SERIES_EDIT_AFTER_TITLE@ +
            text_or_empty(s.description) +
            SERIES_EDIT_AFTER_DESCRIPTION@ +
            series_year_text(s) +
            SERIES_EDIT_AFTER_YEAR@ +
            selected_if(s.status, "ongoing"@) +
            SERIES_EDIT_AFTER_ONGOING@ +
            selected_if(s.status, "completed"@) +
            SERIES_EDIT_AFTER_COMPLETED@ +
            rating +
            SERIES_EDIT_AFTER_RATING@ +
            decimal_text(s.id as int) +
            SERIES_EDIT_AFTER_ID@ +
            image_preview(app_url, "/uploads/thumbnails/"@, text_or_empty(s.thumbnail)),
            SERIES_EDIT_AFTER_THUMBNAIL@,
            "action=\"/admin/series/"@ + decimal_text(s.id as int) + "/upload\""@,
        );
        lemma_contains_extend(
            SERIES_EDIT_HEAD@ +
            s.title@ +
            SERIES_EDIT_AFTER_HEADING@ +
            s.title@ +
            SERIES_EDIT_AFTER_TITLE@ +
            text_or_empty(s.description) +
            SERIES_EDIT_AFTER_DESCRIPTION@ +
            series_year_text(s) +
            SERIES_EDIT_AFTER_YEAR@ +
            selected_if(s.status, "ongoing"@) +
            SERIES_EDIT_AFTER_ONGOING@ +
            selected_if(s.status, "completed"@) +
            SERIES_EDIT_AFTER_COMPLETED@ +
            rating +
            SERIES_EDIT_AFTER_RATING@ +
            decimal_text(s.id as int) +
            SERIES_EDIT_AFTER_ID@ +
            image_preview(app_url, "/uploads/thumbnails/"@, text_or_empty(s.thumbnail)) +
            SERIES_EDIT_AFTER_THUMBNAIL@,
            image_preview(app_url, "/uploads/backdrops/"@, text_or_empty(s.backdrop)),
            "action=\"/admin/series/"@ + decimal_text(s.id as int) + "/upload\""@,
        );
        lemma_contains_extend(
            SERIES_EDIT_HEAD@ +
            s.title@ +
            SERIES_EDIT_AFTER_HEADING@ +
            s.title@ +
            SERIES_EDIT_AFTER_TITLE@ +
            text_or_empty(s.description) +
            SERIES_EDIT_AFTER_DESCRIPTION@ +
            series_year_text(s) +
            SERIES_EDIT_AFTER_YEAR@ +
            selected_if(s.status, "ongoing"@) +
            SERIES_EDIT_AFTER_ONGOING@ +
            selected_if(s.status, "completed"@) +
            SERIES_EDIT_AFTER_COMPLETED@ +
            rating +
            SERIES_EDIT_AFTER_RATING@ +
            decimal_text(s.id as int) +
            SERIES_EDIT_AFTER_ID@ +
            image_preview(app_url, "/uploads/thumbnails/"@, text_or_empty(s.thumbnail)) +
            SERIES_EDIT_AFTER_THUMBNAIL@ +
            image_preview(app_url, "/uploads/backdrops/"@, text_or_empty(s.backdrop)),
            SERIES_EDIT_TAIL@,
            "action=\"/admin/series/"@ + decimal_text(s.id as int) + "/upload\""@,
        );
    }
}

} // verus!
