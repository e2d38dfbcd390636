use iron_login::config::Config;
use iron_login::cookies::Cookie;
use iron_login::http::{Request, Response};
use iron_login::login::Login;
use iron_login::manager::LoginManager;
use iron_login::users::{HandleUser, TokenUser};
use iron_login::User;

fn session_cookie(value: &str) -> Cookie {
    Cookie {
        name: "logged_in_user".to_string(),
        value: value.to_string(),
        path: None,
        http_only: false,
    }
}

fn request_with(cookies: Vec<Cookie>) -> Request {
    Request::new(Some(Config::defaults()), cookies)
}

#[test]
fn defaults_name_path_and_flag() {
    let config = Config::defaults();
    assert_eq!(config.cookie_base.name, "logged_in_user");
    assert_eq!(config.cookie_base.value, "");
    assert_eq!(config.cookie_base.path, Some("/".to_string()));
    assert!(config.cookie_base.http_only);
}

#[test]
fn manager_holds_key_and_defaults() {
    let manager = LoginManager::new(b"correct horse battery staple".to_vec());
    assert_eq!(manager.signing_key(), &b"correct horse battery staple".to_vec());
    assert_eq!(manager.config.cookie_base.name, "logged_in_user");
    assert_eq!(manager.config.cookie_base.path, Some("/".to_string()));
    assert!(manager.config.cookie_base.http_only);
}

#[test]
fn no_cookie_means_no_user() {
    let mut request = request_with(vec![]);
    let login = TokenUser::get_login(&mut request);
    assert!(login.get_user().is_none());

    // This layer emits nothing on its own: a response no write-intent was
    // applied to carries no cookie.
    let response = Response::new();
    assert!(response.cookies.is_empty());
}

#[test]
fn empty_cookie_value_means_no_user() {
    let mut request = request_with(vec![session_cookie("")]);
    let login = TokenUser::get_login(&mut request);
    assert!(login.get_user().is_none());
}

#[test]
fn recognized_cookie_value_resolves_the_user() {
    let mut request = request_with(vec![session_cookie("alice")]);
    let login = TokenUser::get_login(&mut request);
    let user = login.get_user().expect("alice should be logged in");
    assert_eq!(user.user_id, "alice");
}

#[test]
fn unrecognized_cookie_value_means_no_user_not_an_error() {
    // "carol" is no @-prefixed handle, so the lookup finds no match: the
    // request simply appears logged out.
    let mut request = request_with(vec![session_cookie("carol")]);
    let login = HandleUser::get_login(&mut request);
    assert!(login.get_user().is_none());
}

#[test]
fn unrelated_cookies_are_ignored() {
    let other = Cookie {
        name: "theme".to_string(),
        value: "dark".to_string(),
        path: None,
        http_only: false,
    };
    let mut request = request_with(vec![other, session_cookie("alice")]);
    let login = TokenUser::get_login(&mut request);
    let user = login.get_user().expect("alice should be logged in");
    assert_eq!(user.user_id, "alice");
}

#[test]
fn log_in_writes_the_identity_cookie() {
    let mut request = request_with(vec![]);
    let login = TokenUser::get_login(&mut request);
    let bob = TokenUser { user_id: "bob".to_string() };

    let mut response = Response::new();
    login.log_in(bob).modify(&mut response);

    assert_eq!(response.cookies.len(), 1);
    let written = &response.cookies[0];
    assert_eq!(written.name, "logged_in_user");
    assert_eq!(written.value, "bob");
    assert_eq!(written.path, Some("/".to_string()));
    assert!(written.http_only);
}

#[test]
fn log_out_writes_the_empty_cookie() {
    let mut request = request_with(vec![session_cookie("alice")]);
    let login = TokenUser::get_login(&mut request);

    let mut response = Response::new();
    login.log_out().modify(&mut response);

    assert_eq!(response.cookies.len(), 1);
    let written = &response.cookies[0];
    assert_eq!(written.name, "logged_in_user");
    assert_eq!(written.value, "");
    assert_eq!(written.path, Some("/".to_string()));
    assert!(written.http_only);
}

#[test]
fn logging_out_twice_writes_what_logging_out_once_does() {
    let mut once = Response::new();
    let mut twice = Response::new();

    let mut request = request_with(vec![session_cookie("alice")]);
    let login = Login::<TokenUser>::from_request(&mut request);
    login.log_out().modify(&mut once);

    let mut request = request_with(vec![session_cookie("alice")]);
    let login = Login::<TokenUser>::from_request(&mut request);
    login.log_out().modify(&mut twice);
    let mut request = request_with(vec![session_cookie("alice")]);
    let login = Login::<TokenUser>::from_request(&mut request);
    login.log_out().modify(&mut twice);

    assert_eq!(once.cookies.len(), twice.cookies.len());
    for (a, b) in once.cookies.iter().zip(twice.cookies.iter()) {
        assert_eq!(a.name, b.name);
        assert_eq!(a.value, b.value);
        assert_eq!(a.path, b.path);
        assert_eq!(a.http_only, b.http_only);
    }
}

#[test]
fn login_round_trips_through_the_cookie() {
    // Log bob in, and let the next request carry the response's cookies.
    let mut request = request_with(vec![]);
    let login = TokenUser::get_login(&mut request);
    let bob = TokenUser { user_id: "bob".to_string() };
    let mut response = Response::new();
    login.log_in(bob).modify(&mut response);

    let mut next = request_with(response.cookies);
    let login = TokenUser::get_login(&mut next);
    let user = login.get_user().expect("bob should still be logged in");
    assert_eq!(user.user_id, "bob");
}

#[test]
fn handle_round_trips_through_the_cookie() {
    let mut request = request_with(vec![]);
    let login = HandleUser::get_login(&mut request);
    let ada = HandleUser { handle: "@ada".to_string() };
    let mut response = Response::new();
    login.log_in(ada).modify(&mut response);

    let mut next = request_with(response.cookies);
    let login = HandleUser::get_login(&mut next);
    let user = login.get_user().expect("@ada should still be logged in");
    assert_eq!(user.handle, "@ada");
}

#[test]
fn a_second_write_overwrites_the_session_cookie() {
    let mut response = Response::new();

    let mut request = request_with(vec![]);
    let login = TokenUser::get_login(&mut request);
    login.log_in(TokenUser { user_id: "bob".to_string() }).modify(&mut response);

    let mut request = request_with(vec![]);
    let login = TokenUser::get_login(&mut request);
    login.log_in(TokenUser { user_id: "eve".to_string() }).modify(&mut response);

    assert_eq!(response.cookies.len(), 1);
    assert_eq!(response.cookies[0].value, "eve");
}

#[test]
fn writing_the_session_cookie_keeps_other_cookies() {
    let mut response = Response::new();
    response.set_cookie(Cookie {
        name: "theme".to_string(),
        value: "dark".to_string(),
        path: None,
        http_only: false,
    });

    let mut request = request_with(vec![]);
    let login = TokenUser::get_login(&mut request);
    login.log_in(TokenUser { user_id: "bob".to_string() }).modify(&mut response);

    assert_eq!(response.cookies.len(), 2);
    assert_eq!(response.cookies[0].name, "theme");
    assert_eq!(response.cookies[0].value, "dark");
    assert_eq!(response.cookies[1].name, "logged_in_user");
    assert_eq!(response.cookies[1].value, "bob");
}

#[test]
fn get_cookie_finds_the_first_match() {
    let request = request_with(vec![
        session_cookie("first"),
        session_cookie("second"),
    ]);
    let found = request.get_cookie(&"logged_in_user".to_string()).expect("cookie is present");
    assert_eq!(found.value, "first");
    assert!(request.get_cookie(&"absent".to_string()).is_none());
}
