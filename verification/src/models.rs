//! The records the site stores: series, seasons, episodes, subtitles, admins
//! and the site settings.

use vstd::prelude::*;
use crate::genres::{genres_of, parse_string_list};

verus! {

/// An administrator account; `password` holds the bcrypt hash.
#[derive(Clone, Debug)]
pub struct Admin {
    pub id: i64,
    pub username: String,
    pub password: String,
    pub name: Option<String>,
    pub email: Option<String>,
    pub created_at: Option<String>,
    pub updated_at: Option<String>,
}

/// An episode of a season, with its video sources and download links.
#[derive(Clone, Debug, Default)]
pub struct Episode {
    pub id: i64,
    pub season_id: i64,
    pub episode_number: i64,
    pub title: String,
    pub description: Option<String>,
    pub thumbnail: Option<String>,
    pub video_source_primary: Option<String>,
    pub video_source_backup: Option<String>,
    pub download_link: Option<String>,
    pub size_1080p: Option<String>,
    pub download_bluray: Option<String>,
    pub size_bluray: Option<String>,
    pub download_720p: Option<String>,
    pub size_720p: Option<String>,
    pub download_480p: Option<String>,
    pub size_480p: Option<String>,
    pub duration: Option<i64>,
    pub views: Option<i64>,
    pub created_at: Option<String>,
    pub updated_at: Option<String>,
}

/// A season of a series.
#[derive(Clone, Debug, Default)]
pub struct Season {
    pub id: i64,
    pub series_id: i64,
    pub season_number: i64,
    pub title: Option<String>,
    pub description: Option<String>,
    pub trailer_url: Option<String>,
    pub created_at: Option<String>,
    pub updated_at: Option<String>,
}

/// A series. The stored rating is a floating-point number and is kept by the
/// application layer; every field that the library reads is here.
#[derive(Clone, Debug, Default)]
pub struct Series {
    pub id: i64,
    pub title: String,
    pub slug: String,
    pub description: Option<String>,
    pub year: Option<i64>,
    pub thumbnail: Option<String>,
    pub backdrop: Option<String>,
    pub trailer_url: Option<String>,
    /// A JSON array of genre names, as stored.
    pub genres: Option<String>,
    pub status: Option<String>,
    pub views: Option<i64>,
    pub featured: Option<bool>,
    pub created_at: Option<String>,
    pub updated_at: Option<String>,
}

/// The singleton row of site-wide settings.
#[derive(Clone, Debug)]
pub struct SiteSetting {
    pub id: i64,
    pub site_name: Option<String>,
    pub logo_path: Option<String>,
    pub favicon_path: Option<String>,
    pub description: Option<String>,
    pub created_at: Option<String>,
    pub updated_at: Option<String>,
}

/// A subtitle track of an episode.
#[derive(Clone, Debug, Default)]
pub struct Subtitle {
    pub id: i64,
    pub episode_id: i64,
    pub language: Option<String>,
    pub label: Option<String>,
    pub file_path: Option<String>,
    pub is_default: Option<bool>,
    pub created_at: Option<String>,
    pub updated_at: Option<String>,
}

/// `app_url`, then `dir`, then `file`: the public address of an upload.
pub open spec fn upload_url(app_url: Seq<char>, dir: Seq<char>, file: Seq<char>) -> Seq<char> {
    app_url + dir + file
}

/// The address of an optional upload, or the empty string without one.
pub open spec fn optional_upload_url(app_url: Seq<char>, dir: Seq<char>, file: Option<String>) -> Seq<
    char,
> {
    match file {
        Some(f) => upload_url(app_url, dir, f@),
        None => Seq::<char>::empty(),
    }
}

fn optional_upload(app_url: &str, dir: &str, file: &Option<String>) -> (r: String)
    ensures
        r@ == optional_upload_url(app_url@, dir@, *file),
{
    match file {
        Some(f) => {
            let base = String::from_str(app_url);
            base.concat(dir).concat(f.as_str())
        },
        None => String::new(),
    }
}

impl Series {
    /// The genre names that `genres` lists, or none when it is absent or not
    /// a JSON array of strings.
    pub fn genre_list(&self) -> (r: Vec<String>)
        ensures
            r.deep_view() == genres_of(self.genres),
    {
        match &self.genres {
            Some(g) => match parse_string_list(g.as_str()) {
                Some(list) => list,
                None => Vec::new(),
            },
            None => Vec::new(),
        }
    }

    /// `{app_url}/uploads/thumbnails/{thumbnail}`, or the empty string when the
    /// series has no thumbnail.
    pub fn thumbnail_url(&self, app_url: &str) -> (r: String)
        ensures
            r@ == optional_upload_url(app_url@, "/uploads/thumbnails/"@, self.thumbnail),
    {
        optional_upload(app_url, "/uploads/thumbnails/", &self.thumbnail)
    }

    /// `{app_url}/uploads/backdrops/{backdrop}`, or the empty string when the
    /// series has no backdrop.
    pub fn backdrop_url(&self, app_url: &str) -> (r: String)
        ensures
            r@ == optional_upload_url(app_url@, "/uploads/backdrops/"@, self.backdrop),
    {
        optional_upload(app_url, "/uploads/backdrops/", &self.backdrop)
    }
}

} // verus!
