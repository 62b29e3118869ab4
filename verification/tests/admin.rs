use turkish_times::admin::{
    favicon_url, file_extension, logo_url, make_slug, new_series, series_edit_path,
    series_image_upload, series_status, settings_field, settings_image_upload, slug_from_lowercase,
    EpisodeDraft, SettingsField, SettingsText,
};
use turkish_times::models::{Episode, Series, SiteSetting};
use turkish_times::pages::{
    episode_edit_page, season_edit_page, season_lookup_page, series_edit_page, NOT_FOUND_PAGE,
    SEASON_NOT_FOUND_PAGE, SERIES_NOT_FOUND_PAGE,
};

#[test]
fn slugs() {
    assert_eq!(make_slug("The Ottoman Empire"), "the-ottoman-empire");
    assert_eq!(make_slug("Diriliş: Ertuğrul's Story"), "diriliş-ertuğruls-story");
    assert_eq!(make_slug("ÇALIKUŞU"), "çalikuşu");
    assert_eq!(make_slug(""), "");
    assert_eq!(slug_from_lowercase("a b:c'd"), "a-bcd");
}

#[test]
fn new_series_defaults() {
    let n = new_series(&Some("Kurulus Osman".into()), &None, &None);
    assert_eq!(n.title, "Kurulus Osman");
    assert_eq!(n.slug, "kurulus-osman");
    assert_eq!(n.status, "ongoing");
    assert!(!n.featured);
    let n = new_series(&None, &Some("completed".into()), &Some("on".into()));
    assert_eq!(n.title, "");
    assert_eq!(n.slug, "");
    assert_eq!(n.status, "completed");
    assert!(n.featured);
    assert_eq!(series_status(&None), "ongoing");
}

#[test]
fn extensions() {
    assert_eq!(file_extension("poster.final.jpg"), "jpg");
    assert_eq!(file_extension("poster"), "poster");
    assert_eq!(file_extension("poster."), "");
    assert_eq!(file_extension(".png"), "png");
}

#[test]
fn image_uploads() {
    assert!(series_image_upload(5, "thumbnail", "a.jpg", 0).is_none());
    assert!(series_image_upload(5, "thumbnail", "", 10).is_none());
    let t = series_image_upload(5, "thumbnail", "poster.jpeg", 10).unwrap();
    assert_eq!(t.saved_name, "5_thumbnail.jpeg");
    assert_eq!(t.save_path, "public/uploads/thumbnails/5_thumbnail.jpeg");
    assert_eq!(t.sql, "UPDATE series SET thumbnail = ?, updated_at = datetime('now') WHERE id = ?");
    let b = series_image_upload(12, "backdrop", "hero.png", 3).unwrap();
    assert_eq!(b.saved_name, "12_backdrop.png");
    assert_eq!(b.save_path, "public/uploads/backdrops/12_backdrop.png");
    assert_eq!(b.sql, "UPDATE series SET backdrop = ?, updated_at = datetime('now') WHERE id = ?");
    let o = series_image_upload(1, "poster", "x", 1).unwrap();
    assert_eq!(o.saved_name, "1_poster.x");
    assert_eq!(o.save_path, "public/uploads/thumbnails/1_poster.x");
    assert_eq!(series_edit_path(12), "/admin/series/12/edit");
}

#[test]
fn episode_draft_reads_fields() {
    let mut d = EpisodeDraft::new();
    assert!(EpisodeDraft::is_text_field("season_id"));
    assert!(EpisodeDraft::is_text_field("size_480p"));
    assert!(!EpisodeDraft::is_text_field("thumbnail"));
    assert!(!EpisodeDraft::is_text_field("views"));
    assert!(EpisodeDraft::is_thumbnail_field("thumbnail"));
    d.record_text("season_id", Some("3".into()));
    d.record_text("episode_number", Some("x".into()));
    d.record_text("duration", Some("-45".into()));
    d.record_text("title", Some("Bölüm 1".into()));
    d.record_text("download_720p", None);
    d.record_text("views", Some("99".into()));
    assert_eq!(d.season_id, Some(3));
    assert_eq!(d.episode_number, None);
    assert_eq!(d.duration, Some(-45));
    assert_eq!(d.title.as_deref(), Some("Bölüm 1"));
    assert_eq!(d.download_720p, None);
    d.record_text("title", Some("Bölüm 2".into()));
    assert_eq!(d.title.as_deref(), Some("Bölüm 2"));
    assert_eq!(d.record_thumbnail(0, 100), None);
    assert_eq!(d.thumbnail, None);
    assert_eq!(d.record_thumbnail(10, 1700000000), Some("public/uploads/thumbnails/ep_thumb_1700000000.jpg".to_string()));
    assert_eq!(d.thumbnail.as_deref(), Some("ep_thumb_1700000000.jpg"));
}

#[test]
fn settings_form() {
    assert_eq!(settings_field("site_name"), SettingsField::SiteName);
    assert_eq!(settings_field("description"), SettingsField::Description);
    assert_eq!(settings_field("logo"), SettingsField::Logo);
    assert_eq!(settings_field("favicon"), SettingsField::Favicon);
    assert_eq!(settings_field("other"), SettingsField::Other);
    assert!(settings_image_upload(true, 0, 5).is_none());
    let l = settings_image_upload(true, 8, 1700000001).unwrap();
    assert_eq!(l.file_name, "logo_1700000001.png");
    assert_eq!(l.save_path, "public/uploads/settings/logo_1700000001.png");
    assert_eq!(l.sql, "UPDATE site_settings SET logo_path = ?, updated_at = datetime('now') WHERE id = 1");
    let f = settings_image_upload(false, 8, 2).unwrap();
    assert_eq!(f.file_name, "favicon_2.png");
    assert_eq!(f.sql, "UPDATE site_settings SET favicon_path = ?, updated_at = datetime('now') WHERE id = 1");

    let mut t = SettingsText::new();
    assert!(t.updates().is_empty());
    t.record(SettingsField::Description, None);
    t.record(SettingsField::Logo, Some("ignored".into()));
    let u = t.updates();
    assert_eq!(u.len(), 1);
    assert_eq!(u[0].sql, "UPDATE site_settings SET description = ?, updated_at = datetime('now') WHERE id = 1");
    assert_eq!(u[0].value, "");
    t.record(SettingsField::SiteName, Some("Turkish Times".into()));
    let u = t.updates();
    assert_eq!(u.len(), 2);
    assert_eq!(u[0].sql, "UPDATE site_settings SET site_name = ?, updated_at = datetime('now') WHERE id = 1");
    assert_eq!(u[0].value, "Turkish Times");
}

#[test]
fn settings_image_urls() {
    assert_eq!(logo_url(&None, "http://a"), "http://a/images/logo.png");
    assert_eq!(favicon_url(&None, "http://a"), "http://a/images/favicon.png");
    let s = SiteSetting {
        id: 1,
        site_name: None,
        logo_path: Some("logo_1.png".into()),
        favicon_path: None,
        description: None,
        created_at: None,
        updated_at: None,
    };
    assert_eq!(logo_url(&Some(s.clone()), "http://a"), "http://a/uploads/settings/logo_1.png");
    assert_eq!(favicon_url(&Some(s), "http://a"), "http://a/images/favicon.png");
}

#[test]
fn episode_and_season_edit_pages() {
    assert_eq!(episode_edit_page(&None), NOT_FOUND_PAGE);
    assert_eq!(NOT_FOUND_PAGE, "<h1>Not Found</h1>");
    let e = Episode { title: "Pilot".into(), episode_number: 3, ..Episode::default() };
    let expected = format!("<h1>Edit Episode</h1><form method='POST'>
            <input name='title' value='{}'><input name='episode_number' value='{}'>
            <input name='video_source_primary' value='{}'>
            <button>Update</button></form>", "Pilot", 3, "");
    assert_eq!(episode_edit_page(&Some(e)), expected);
    assert_eq!(season_edit_page(&None), NOT_FOUND_PAGE);
    assert_eq!(
        season_edit_page(&Some((Some("Sezon 2".into()), 2))),
        "<h1>Edit Season</h1><form method='POST'><input name='title' value='Sezon 2'><input name='season_number' value='2'><button>Update</button></form>"
    );
    assert_eq!(
        season_edit_page(&Some((None, -1))),
        "<h1>Edit Season</h1><form method='POST'><input name='title' value=''><input name='season_number' value='-1'><button>Update</button></form>"
    );
}

#[test]
fn series_edit_page_fills_the_form() {
    assert_eq!(series_edit_page(&None, "8.5", "http://a"), NOT_FOUND_PAGE);
    let s = Series {
        id: 9,
        title: "Yargı".into(),
        status: Some("completed".into()),
        thumbnail: Some("9_thumbnail.jpg".into()),
        backdrop: Some(String::new()),
        ..Series::default()
    };
    let page = series_edit_page(&Some(s), "8.5", "http://a");
    assert!(page.starts_with("<!DOCTYPE html><html><head><title>Edit Series</title>"));
    assert!(page.contains("<h1 class=\"text-2xl font-bold mb-6\">Edit: Yargı</h1>"));
    assert!(page.contains("name=\"title\" value=\"Yargı\""));
    assert!(page.contains("name=\"year\" value=\"0\""));
    assert!(page.contains("<option value=\"ongoing\" >Ongoing</option>"));
    assert!(page.contains("<option value=\"completed\" selected>Completed</option>"));
    assert!(page.contains("value=\"8.5\""));
    assert!(page.contains("action=\"/admin/series/9/upload\""));
    assert!(page.contains("<img src='http://a/uploads/thumbnails/9_thumbnail.jpg' class='h-20 mt-2 rounded'>"));
    assert!(!page.contains("uploads/backdrops/"));
    assert!(page.ends_with("</div></body></html>"));
}

#[test]
fn series_edit_page_matches_the_form_template() {
    let s = Series {
        id: 31,
        title: "Kuruluş Osman".into(),
        description: Some("Osman Bey".into()),
        year: Some(2019),
        status: Some("ongoing".into()),
        thumbnail: Some("31_thumbnail.jpg".into()),
        backdrop: Some("31_backdrop.png".into()),
        ..Series::default()
    };
    let app_url = "https://tt.example";
    let thumb = "31_thumbnail.jpg";
    let back = "31_backdrop.png";
    let expected = format!(r#"<!DOCTYPE html><html><head><title>Edit Series</title>
            <script src="https://cdn.tailwindcss.com"></script>
            <link rel="stylesheet" href="https://cdnjs.cloudflare.com/ajax/libs/font-awesome/6.4.2/css/all.min.css">
            </head><body class="bg-gray-50 min-h-screen"><div class="max-w-2xl mx-auto p-8">
            <a href="/admin/series" class="text-gray-500 hover:text-gray-700 text-sm mb-4 block"><i class="fas fa-arrow-left mr-1"></i>Back to Series</a>
            <h1 class="text-2xl font-bold mb-6">Edit: {title}</h1>

            <form method="POST" class="bg-white p-6 rounded-xl shadow-sm space-y-4 mb-8">
            <div><label class="block text-sm font-medium text-gray-700 mb-1">Title</label>
            <input type="text" name="title" value="{title}" class="w-full border rounded-lg px-4 py-2" required></div>
            <div><label class="block text-sm font-medium text-gray-700 mb-1">Description</label>
            <textarea name="description" rows="4" class="w-full border rounded-lg px-4 py-2">{desc}</textarea></div>
            <div class="grid grid-cols-3 gap-4">
            <div><label class="block text-sm font-medium text-gray-700 mb-1">Year</label>
            <input type="number" name="year" value="{year}" class="w-full border rounded-lg px-4 py-2"></div>
            <div><label class="block text-sm font-medium text-gray-700 mb-1">Status</label>
            <select name="status" class="w-full border rounded-lg px-4 py-2">
            <option value="ongoing" {sel_o}>Ongoing</option>
            <option value="completed" {sel_c}>Completed</option></select></div>
            <div><label class="block text-sm font-medium text-gray-700 mb-1">Rating</label>
            <input type="number" name="rating" step="0.1" min="0" max="10" value="{rating}" class="w-full border rounded-lg px-4 py-2"></div>
            </div>
            <button type="submit" class="bg-blue-600 text-white px-6 py-2 rounded-lg hover:bg-blue-700 transition font-medium">Update Series</button>
            </form>

            <div class="bg-white p-6 rounded-xl shadow-sm space-y-4">
                <h3 class="text-lg font-semibold">Images</h3>
                <form method="POST" action="/admin/series/{id}/upload" enctype="multipart/form-data" class="space-y-4">
                <div><label class="block text-sm font-medium text-gray-700 mb-1">Thumbnail (poster)</label>
                <input type="file" name="thumbnail" accept="image/*" class="w-full border rounded-lg px-4 py-2">
                {thumb_html}</div>
                <div><label class="block text-sm font-medium text-gray-700 mb-1">Backdrop (hero)</label>
                <input type="file" name="backdrop" accept="image/*" class="w-full border rounded-lg px-4 py-2">
                {back_html}</div>
                <button type="submit" class="bg-green-600 text-white px-6 py-2 rounded-lg hover:bg-green-700 transition font-medium">Upload Images</button>
                </form>
            </div>
            </div></body></html>"#,
        title = "Kuruluş Osman", id = 31,
        desc = "Osman Bey",
        year = 2019,
        rating = 7.5,
        sel_o = "selected",
        sel_c = "",
        thumb_html = format!("<img src='{0}/uploads/thumbnails/{1}' class='h-20 mt-2 rounded'>", app_url, thumb),
        back_html = format!("<img src='{0}/uploads/backdrops/{1}' class='h-20 mt-2 rounded'>", app_url, back),
    );
    assert_eq!(series_edit_page(&Some(s), &7.5f64.to_string(), app_url), expected);
}

#[test]
fn season_lookup_pages() {
    assert_eq!(season_lookup_page(false, false), Some(SERIES_NOT_FOUND_PAGE));
    assert_eq!(SERIES_NOT_FOUND_PAGE, "<h1>Series Not Found</h1>");
    assert_eq!(season_lookup_page(true, false), Some(SEASON_NOT_FOUND_PAGE));
    assert_eq!(SEASON_NOT_FOUND_PAGE, "<h1>Season Not Found</h1>");
    assert_eq!(season_lookup_page(true, true), None);
}
