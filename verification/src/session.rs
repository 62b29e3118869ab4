//! The admin session: the check that guards the admin pages, and what login
//! and logout answer.

use vstd::prelude::*;
use crate::models::Admin;
use crate::numbers::{
    decimal_digits, decimal_text, digit_char, format_i64, is_ascii_digit, lemma_decimal_digits_denote,
};
use crate::text::{
    char_is_whitespace, is_whitespace, split_on, starts_with, starts_with_at, trim, trim_end,
    trim_start,
};

verus! {

/// The name of the session cookie followed by `=`.
pub open spec fn session_prefix() -> Seq<char> {
    seq!['a', 'd', 'm', 'i', 'n', '_', 'i', 'd', '=']
}

/// A piece of a `Cookie` header that, trimmed, begins with `admin_id=`.
pub open spec fn opens_session(piece: Seq<char>) -> bool {
    starts_with(trim(piece), session_prefix())
}

/// A `Cookie` header one of whose `;`-separated pieces opens a session.
pub open spec fn header_has_session(header: Seq<char>) -> bool {
    let pieces = split_on(header, ';');
    exists|i: int| 0 <= i < pieces.len() && opens_session(#[trigger] pieces[i])
}

proof fn lemma_trim_start_skips(s: Seq<char>, a: int, lo: int, b: int)
    requires
        0 <= a <= lo <= b <= s.len(),
        forall|k: int| a <= k < lo ==> is_whitespace(#[trigger] s[k]),
        lo == b || !is_whitespace(s[lo]),
    ensures
        trim_start(s.subrange(a, b)) == s.subrange(lo, b),
    decreases lo - a,
{
    let sub = s.subrange(a, b);
    if a < lo {
        assert(sub.drop_first() =~= s.subrange(a + 1, b));
        assert(is_whitespace(sub[0]));
        lemma_trim_start_skips(s, a + 1, lo, b);
    } else if lo < b {
        assert(sub[0] == s[lo]);
    } else {
        assert(sub.len() == 0);
    }
}

proof fn lemma_trim_end_is_prefix(t: Seq<char>)
    ensures
        trim_end(t).len() <= t.len(),
        trim_end(t) =~= t.subrange(0, trim_end(t).len() as int),
        forall|j: int| 0 <= j < t.len() && !is_whitespace(#[trigger] t[j]) ==> j < trim_end(t).len(),
    decreases t.len(),
{
    if t.len() > 0 && is_whitespace(t.last()) {
        let u = t.drop_last();
        lemma_trim_end_is_prefix(u);
        assert forall|j: int| 0 <= j < t.len() && !is_whitespace(#[trigger] t[j]) implies j
            < trim_end(t).len() by {
            assert(j != t.len() - 1);
            assert(u[j] == t[j]);
        }
    }
}

proof fn lemma_session_prefix_survives_trim_end(t: Seq<char>)
    ensures
        starts_with(trim_end(t), session_prefix()) == starts_with(t, session_prefix()),
{
    let p = session_prefix();
    lemma_trim_end_is_prefix(t);
    let e = trim_end(t);
    if starts_with(t, p) {
        assert(t[8] == p[8]);
        assert(!is_whitespace(t[8]));
        assert(e.subrange(0, 9) =~= t.subrange(0, 9));
    }
    if starts_with(e, p) {
        assert(t.subrange(0, 9) =~= e.subrange(0, 9));
    }
}

/// Whether the piece of `header` from `from` to `to` opens a session.
fn piece_opens_session(header: &str, from: usize, to: usize) -> (r: bool)
    requires
        from <= to <= header@.len(),
    ensures
        r == opens_session(header@.subrange(from as int, to as int)),
{
    let mut lo = from;
    while lo < to
        invariant
            from <= lo <= to <= header@.len(),
            forall|k: int| from <= k < lo ==> is_whitespace(#[trigger] header@[k]),
        ensures
            lo == to || !is_whitespace(header@[lo as int]),
        decreases to - lo,
    {
        if !char_is_whitespace(header.get_char(lo)) {
            break;
        }
        lo = lo + 1;
    }
    let prefix = "admin_id=";
    proof {
        reveal_strlit("admin_id=");
        assert(prefix@ =~= session_prefix());
        lemma_trim_start_skips(header@, from as int, lo as int, to as int);
        lemma_session_prefix_survives_trim_end(header@.subrange(lo as int, to as int));
    }
    starts_with_at(header, lo, to, prefix)
}

/// The check that guards every admin page: whether the `Cookie` header
/// carries a piece that, trimmed, begins with `admin_id=`. The value after
/// the `=` is not looked at.
pub fn has_admin_session(cookie_header: &str) -> (r: bool)
    ensures
        r == header_has_session(cookie_header@),
{
    let n = cookie_header.unicode_len();
    let mut start: usize = 0;
    let mut found = false;
    let mut i: usize = 0;
    proof {
        assert(cookie_header@.subrange(0, 0) =~= Seq::<char>::empty());
    }
    while i < n
        invariant
            n == cookie_header@.len(),
            start <= i <= n,
            split_on(cookie_header@.subrange(0, i as int), ';').len() > 0,
            split_on(cookie_header@.subrange(0, i as int), ';').last() == cookie_header@.subrange(
                start as int,
                i as int,
            ),
            found == exists|j: int|
                0 <= j < split_on(cookie_header@.subrange(0, i as int), ';').len() - 1
                    && opens_session(
                    #[trigger] split_on(cookie_header@.subrange(0, i as int), ';')[j],
                ),
        decreases n - i,
    {
        let ghost before = split_on(cookie_header@.subrange(0, i as int), ';');
        let c = cookie_header.get_char(i);
        let ghost taken = cookie_header@.subrange(0, i + 1);
        proof {
            assert(taken.drop_last() =~= cookie_header@.subrange(0, i as int));
            assert(taken.last() == c);
        }
        if c == ';' {
            let last_opens = piece_opens_session(cookie_header, start, i);
            proof {
                let after = split_on(taken, ';');
                assert(after == before.push(Seq::<char>::empty()));
                if last_opens {
                    assert(after[before.len() - 1] == before.last());
                }
                if found {
                    let j = choose|j: int|
                        0 <= j < before.len() - 1 && opens_session(#[trigger] before[j]);
                    assert(after[j] == before[j]);
                }
                assert forall|j: int|
                    0 <= j < after.len() - 1 && opens_session(#[trigger] after[j]) implies (found
                    || last_opens) by {
                    if j < before.len() - 1 {
                        assert(after[j] == before[j]);
                    } else {
                        assert(after[j] == before.last());
                    }
                }
                assert(cookie_header@.subrange(i + 1, i + 1) =~= Seq::<char>::empty());
            }
            found = found || last_opens;
            start = i + 1;
        } else {
            proof {
                let after = split_on(taken, ';');
                assert(after == before.update(before.len() - 1, before.last().push(c)));
                assert(before.last().push(c) =~= cookie_header@.subrange(start as int, i + 1));
                if found {
                    let j = choose|j: int|
                        0 <= j < before.len() - 1 && opens_session(#[trigger] before[j]);
                    assert(after[j] == before[j]);
                }
                assert forall|j: int|
                    0 <= j < after.len() - 1 && opens_session(#[trigger] after[j]) implies found by {
                    assert(after[j] == before[j]);
                }
            }
        }
        i = i + 1;
    }
    let last_opens = piece_opens_session(cookie_header, start, n);
    proof {
        let pieces = split_on(cookie_header@, ';');
        assert(cookie_header@.subrange(0, n as int) =~= cookie_header@);
        if last_opens {
            assert(opens_session(pieces[pieces.len() - 1]));
        }
        if found {
            let j = choose|j: int| 0 <= j < pieces.len() - 1 && opens_session(#[trigger] pieces[j]);
            assert(opens_session(pieces[j]));
        }
        assert forall|j: int| 0 <= j < pieces.len() && opens_session(#[trigger] pieces[j]) implies (
        found || last_opens) by {
            if j == pieces.len() - 1 {
            }
        }
    }
    found || last_opens
}


/// What `bcrypt::verify(password, hash).ok()` gives: whether `password`
/// hashes to `hash` under the salt and cost `hash` carries, or `None` when
/// `hash` is not a well-formed bcrypt hash.
pub uninterp spec fn bcrypt_verify_outcome(password: Seq<char>, hash: Seq<char>) -> Option<bool>;

/// Checks `password` against the bcrypt `hash` with `bcrypt::verify`; the
/// result (with any error as `None`) is named by `bcrypt_verify_outcome`, and
/// no more is claimed of it.
#[verifier::external_body]
fn bcrypt_verify(password: &str, hash: &str) -> (r: Option<bool>)
    ensures
        r == bcrypt_verify_outcome(password@, hash@),
{
    bcrypt::verify(password, hash).ok()
}

/// The two decimal digits of a bcrypt cost, as bcrypt writes it (`{:02}`).
pub open spec fn cost_digits(cost: u32) -> Seq<char> {
    seq![digit_char((cost / 10) as int), digit_char((cost % 10) as int)]
}

/// Hashes `password` with `bcrypt::hash` at the given cost, under a salt drawn
/// from the operating system; `None` when the cost is outside 4 to 31 or
/// drawing the salt fails. The salt, and so the hash past its prefix, is
/// random and left unsaid; what is claimed is what the crate's source shows of
/// every hash it returns: it is 60 characters long, begins with `$2b$`, the
/// cost as two digits and `$`, and `bcrypt::verify` accepts `password`
/// against it.
#[verifier::external_body]
fn bcrypt_hash(password: &str, cost: u32) -> (r: Option<String>)
    ensures
        r matches Some(h) ==> {
            &&& 4 <= cost <= 31
            &&& h@.len() == 60
            &&& h@.subrange(0, 7) == "$2b$"@ + cost_digits(cost) + "$"@
            &&& bcrypt_verify_outcome(password@, h@) == Some(true)
        },
{
    bcrypt::hash(password, cost).ok()
}

/// The answer to a login or logout: the `Set-Cookie` header value and where
/// the browser is sent.
pub struct AuthResponse {
    pub set_cookie: String,
    pub redirect_to: String,
}

/// The `Set-Cookie` value that opens a session for the admin `id`.
pub open spec fn session_cookie(id: int) -> Seq<char> {
    "admin_id="@ + decimal_text(id) + "; Path=/; HttpOnly; SameSite=Lax"@
}

/// The `Set-Cookie` value that removes the session cookie.
pub open spec fn cleared_session_cookie() -> Seq<char> {
    "admin_id=; Path=/; Max-Age=0"@
}

/// The login form's password matches the stored hash of the admin found by
/// its user name.
pub open spec fn login_accepted(admin: Option<Admin>, password: Seq<char>) -> bool {
    match admin {
        Some(a) => bcrypt_verify_outcome(password, a.password@) == Some(true),
        None => false,
    }
}

/// What logout answers: the session cookie is removed and the browser is sent
/// to the login page.
pub fn logout_response() -> (r: AuthResponse)
    ensures
        r.set_cookie@ == cleared_session_cookie(),
        r.redirect_to@ == "/admin/login"@,
{
    AuthResponse {
        set_cookie: String::from_str("admin_id=; Path=/; Max-Age=0"),
        redirect_to: String::from_str("/admin/login"),
    }
}

/// What login answers, given the admin found by the submitted user name (if
/// any) and the submitted password: a session cookie for that admin and the
/// dashboard when the password verifies, else what logout answers. A hash
/// that bcrypt cannot read counts as a wrong password.
pub fn login_response(admin: &Option<Admin>, password: &str) -> (r: AuthResponse)
    ensures
        login_accepted(*admin, password@) ==> r.set_cookie@ == session_cookie(
            admin.unwrap().id as int,
        ) && r.redirect_to@ == "/admin/dashboard"@,
        !login_accepted(*admin, password@) ==> r.set_cookie@ == cleared_session_cookie()
            && r.redirect_to@ == "/admin/login"@,
{
    match admin {
        Some(a) => match bcrypt_verify(password, a.password.as_str()) {
            Some(true) => {
                let id_text = format_i64(a.id);
                let cookie = String::from_str("admin_id=").concat(id_text.as_str()).concat(
                    "; Path=/; HttpOnly; SameSite=Lax",
                );
                AuthResponse { set_cookie: cookie, redirect_to: String::from_str("/admin/dashboard") }
            },
            _ => logout_response(),
        },
        None => logout_response(),
    }
}


proof fn lemma_split_without_separator(s: Seq<char>, sep: char)
    requires
        !s.contains(sep),
    ensures
        split_on(s, sep) == seq![s],
    decreases s.len(),
{
    if s.len() == 0 {
        assert(s =~= Seq::<char>::empty());
        assert(split_on(s, sep) =~= seq![s]);
    } else {
        let prev = s.drop_last();
        assert(!prev.contains(sep)) by {
            if prev.contains(sep) {
                let k = choose|k: int| 0 <= k < prev.len() && prev[k] == sep;
                assert(s[k] == sep);
            }
        }
        lemma_split_without_separator(prev, sep);
        assert(s[s.len() - 1] != sep);
        assert(prev.push(s.last()) =~= s);
        assert(split_on(s, sep) =~= seq![s]);
    }
}

proof fn lemma_split_first_piece_kept(s: Seq<char>, t: Seq<char>, sep: char)
    requires
        split_on(s, sep).len() >= 2,
    ensures
        split_on(s + t, sep).len() >= 2,
        split_on(s + t, sep)[0] == split_on(s, sep)[0],
    decreases t.len(),
{
    if t.len() > 0 {
        lemma_split_first_piece_kept(s, t.drop_last(), sep);
        assert((s + t).drop_last() =~= s + t.drop_last());
    } else {
        assert(s + t =~= s);
    }
}

/// The `name=value` pair of the session cookie, which is what a browser sends
/// back in its `Cookie` header.
pub open spec fn session_cookie_pair(id: int) -> Seq<char> {
    split_on(session_cookie(id), ';')[0]
}

/// The session cookie that a successful login sets is one that the admin check
/// accepts: the pair a browser sends back is `admin_id=<id>`, and a `Cookie`
/// header made of it opens a session.
pub proof fn law_login_cookie_opens_session(id: i64)
    ensures
        session_cookie_pair(id as int) == "admin_id="@ + decimal_text(id as int),
        header_has_session(session_cookie_pair(id as int)),
{
    reveal_strlit("admin_id=");
    reveal_strlit("; Path=/; HttpOnly; SameSite=Lax");
    let num = decimal_text(id as int);
    let magnitude: int = if id < 0 {
        -(id as int)
    } else {
        id as int
    };
    let digits = decimal_digits(magnitude as nat);
    lemma_decimal_digits_denote(magnitude as nat);
    let pair = "admin_id="@ + num;
    assert(!pair.contains(';')) by {
        if pair.contains(';') {
            let k = choose|k: int| 0 <= k < pair.len() && pair[k] == ';';
            if k >= 9 {
                if id < 0 {
                    if k > 9 {
                        assert(num[k - 9] == digits[k - 10]);
                        assert(is_ascii_digit(digits[k - 10]));
                    }
                } else {
                    assert(num[k - 9] == digits[k - 9]);
                    assert(is_ascii_digit(digits[k - 9]));
                }
            }
        }
    }
    lemma_split_without_separator(pair, ';');
    let with_sep = pair.push(';');
    assert(split_on(with_sep, ';') == split_on(pair, ';').push(Seq::<char>::empty())) by {
        assert(with_sep.drop_last() =~= pair);
    }
    let rest = "; Path=/; HttpOnly; SameSite=Lax"@.drop_first();
    assert(session_cookie(id as int) =~= with_sep + rest);
    lemma_split_first_piece_kept(with_sep, rest, ';');
    assert(session_cookie_pair(id as int) == pair);
    // the one piece of the pair, trimmed, starts with the session prefix
    assert(!is_whitespace(pair[0]));
    assert(trim_start(pair) == pair);
    lemma_session_prefix_survives_trim_end(pair);
    assert(pair.subrange(0, 9) =~= session_prefix());
    assert(split_on(pair, ';')[0] == pair);
}


/// The account created when the site starts with no admin at all.
pub struct NewAdmin {
    pub username: String,
    pub password_hash: String,
    pub name: String,
    pub email: String,
}

/// The bcrypt cost of the default admin's password hash.
pub const DEFAULT_ADMIN_COST: u32 = 12;

/// The default account: user `admin`, password `admin123`, whose hash is empty
/// only when hashing failed and otherwise a bcrypt hash of cost 12 (it begins
/// with `$2b$12$`) that verifies `admin123`.
pub open spec fn is_default_admin(a: NewAdmin) -> bool {
    &&& a.username@ == "admin"@
    &&& a.name@ == "Administrator"@
    &&& a.email@ == "admin@turkishtimes.com"@
    &&& (a.password_hash@ == Seq::<char>::empty() || {
        &&& a.password_hash@.len() == 60
        &&& a.password_hash@.subrange(0, 7) == "$2b$12$"@
        &&& bcrypt_verify_outcome("admin123"@, a.password_hash@) == Some(true)
    })
}

/// The account to create at start-up: the default one exactly when there are
/// no admins yet. Its password hash is empty when hashing failed.
pub fn default_admin(admin_count: i64) -> (r: Option<NewAdmin>)
    ensures
        r is Some <==> admin_count == 0,
        r matches Some(a) ==> is_default_admin(a),
{
    if admin_count != 0 {
        return None;
    }
    let hash = match bcrypt_hash("admin123", DEFAULT_ADMIN_COST) {
        Some(h) => h,
        None => String::new(),
    };
    proof {
        reveal_strlit("$2b$");
        reveal_strlit("$");
        reveal_strlit("$2b$12$");
        assert("$2b$"@ + cost_digits(DEFAULT_ADMIN_COST) + "$"@ =~= "$2b$12$"@);
    }
    Some(
        NewAdmin {
            username: String::from_str("admin"),
            password_hash: hash,
            name: String::from_str("Administrator"),
            email: String::from_str("admin@turkishtimes.com"),
        },
    )
}

/// The default account can log in: once stored (with whatever id and
/// timestamps), the password `admin123` is accepted for it, unless hashing had
/// failed and left its hash empty.
pub proof fn law_default_admin_logs_in(seed: NewAdmin, stored: Admin)
    requires
        is_default_admin(seed),
        seed.password_hash@ != Seq::<char>::empty(),
        stored.username@ == seed.username@,
        stored.password@ == seed.password_hash@,
    ensures
        login_accepted(Some(stored), "admin123"@),
{
}

} // verus!
