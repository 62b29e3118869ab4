//! The site's configuration and its defaults.

use vstd::prelude::*;

verus! {

/// Where the database is, the site's public address and the session secret.
pub struct Config {
    pub database_url: String,
    pub app_url: String,
    pub session_secret: String,
}

/// `value`, or `default` when it is absent.
pub open spec fn or_default(value: Option<String>, default: Seq<char>) -> Seq<char> {
    match value {
        Some(v) => v@,
        None => default,
    }
}

fn value_or(value: Option<String>, default: &str) -> (r: String)
    ensures
        r@ == or_default(value, default@),
{
    match value {
        Some(v) => v,
        None => String::from_str(default),
    }
}

impl Config {
    /// The configuration from the values of `DATABASE_URL`, `APP_URL` and
    /// `SESSION_SECRET` (each `None` when the variable is unset or unreadable),
    /// with the built-in default for each that is missing.
    pub fn from_values(
        database_url: Option<String>,
        app_url: Option<String>,
        session_secret: Option<String>,
    ) -> (c: Config)
        ensures
            c.database_url@ == or_default(database_url, "sqlite:data/database.sqlite"@),
            c.app_url@ == or_default(app_url, "http://localhost:8000"@),
            c.session_secret@ == or_default(session_secret, "change-this-secret-key-in-production"@),
    {
        Config {
            database_url: value_or(database_url, "sqlite:data/database.sqlite"),
            app_url: value_or(app_url, "http://localhost:8000"),
            session_secret: value_or(session_secret, "change-this-secret-key-in-production"),
        }
    }

    /// The file that a `sqlite:` database URL names (the URL without that
    /// prefix), which must exist before the pool connects; `None` for any other
    /// URL.
    pub fn sqlite_file(&self) -> (r: Option<String>)
        ensures
            r is Some <==> crate::text::starts_with(self.database_url@, "sqlite:"@),
            r matches Some(p) ==> self.database_url@ == "sqlite:"@ + p@,
    {
        let url = self.database_url.as_str();
        let prefix = "sqlite:";
        let n = url.unicode_len();
        let plen = prefix.unicode_len();
        if crate::text::starts_with_at(url, 0, n, prefix) {
            let rest = url.substring_char(plen, n);
            proof {
                assert(url@.subrange(0, n as int) =~= url@);
                assert(url@ =~= prefix@ + rest@);
            }
            Some(String::from_str(rest))
        } else {
            proof {
                assert(url@.subrange(0, n as int) =~= url@);
            }
            None
        }
    }
}

} // verus!
