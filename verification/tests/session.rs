use turkish_times::models::Admin;
use turkish_times::session::{default_admin, has_admin_session, login_response, logout_response};

fn admin_with_hash(id: i64, hash: &str) -> Admin {
    Admin {
        id,
        username: "admin".to_string(),
        password: hash.to_string(),
        name: None,
        email: None,
        created_at: None,
        updated_at: None,
    }
}

#[test]
fn session_cookie_is_recognised() {
    assert!(has_admin_session("admin_id=5"));
    assert!(has_admin_session("theme=dark; admin_id=12"));
    assert!(has_admin_session("theme=dark;admin_id=12;lang=tr"));
    assert!(has_admin_session("  admin_id=3  "));
    assert!(has_admin_session("\u{3000}admin_id=3"));
    assert!(has_admin_session("admin_id="));
}

#[test]
fn missing_session_is_refused() {
    assert!(!has_admin_session(""));
    assert!(!has_admin_session("theme=dark"));
    assert!(!has_admin_session("xadmin_id=1"));
    assert!(!has_admin_session("admin_id"));
    assert!(!has_admin_session("admin_id =1"));
    assert!(!has_admin_session("a;b;c"));
    assert!(!has_admin_session("Admin_id=1"));
}

#[test]
fn logout_clears_the_cookie() {
    let r = logout_response();
    assert_eq!(r.set_cookie, "admin_id=; Path=/; Max-Age=0");
    assert_eq!(r.redirect_to, "/admin/login");
}

#[test]
fn default_admin_only_when_none_exists() {
    assert!(default_admin(1).is_none());
    assert!(default_admin(-1).is_none());
    let seed = default_admin(0).expect("created");
    assert_eq!(seed.username, "admin");
    assert_eq!(seed.name, "Administrator");
    assert_eq!(seed.email, "admin@turkishtimes.com");
    assert_eq!(seed.password_hash.len(), 60);
    assert!(seed.password_hash.starts_with("$2b$12$"));
}

#[test]
fn default_admin_logs_in_and_the_cookie_opens_a_session() {
    let seed = default_admin(0).expect("created");
    let stored = Some(admin_with_hash(7, &seed.password_hash));
    let ok = login_response(&stored, "admin123");
    assert_eq!(ok.set_cookie, "admin_id=7; Path=/; HttpOnly; SameSite=Lax");
    assert_eq!(ok.redirect_to, "/admin/dashboard");
    let pair = ok.set_cookie.split(';').next().unwrap();
    assert!(has_admin_session(pair));

    let wrong = login_response(&stored, "admin124");
    assert_eq!(wrong.set_cookie, "admin_id=; Path=/; Max-Age=0");
    assert_eq!(wrong.redirect_to, "/admin/login");
}

#[test]
fn login_fails_without_admin_or_with_unreadable_hash() {
    let none = login_response(&None, "admin123");
    assert_eq!(none.set_cookie, "admin_id=; Path=/; Max-Age=0");
    assert_eq!(none.redirect_to, "/admin/login");
    let broken = login_response(&Some(admin_with_hash(3, "not a hash")), "admin123");
    assert_eq!(broken.set_cookie, "admin_id=; Path=/; Max-Age=0");
    assert_eq!(broken.redirect_to, "/admin/login");
}

#[test]
fn login_accepts_a_known_hash() {
    // a cost-4 bcrypt hash of "password"
    let hash = "$2a$04$UuTkLRZZ6QofpDOlMz32MuuxEHA43WOemOYHPz6.SjsVsyO1tDU96";
    let ok = login_response(&Some(admin_with_hash(-2, hash)), "password");
    assert_eq!(ok.set_cookie, "admin_id=-2; Path=/; HttpOnly; SameSite=Lax");
    assert_eq!(ok.redirect_to, "/admin/dashboard");
}
