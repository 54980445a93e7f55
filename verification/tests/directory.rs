use mas_handlers::directory::Client;
use mas_handlers::directory::Directory;
use mas_handlers::directory::Session;
use mas_handlers::iana::OAuthClientAuthenticationMethod;
use mas_handlers::oidc::GrantType;

fn session(id: u64, user: u64) -> Session {
    Session {
        id,
        user,
        created_at: 100,
        last_active_at: 150,
        finished_at: None,
        client: None,
    }
}

fn client(client_id: &str, post_logout: &[&str]) -> Client {
    Client {
        client_id: client_id.to_string(),
        redirect_uris: vec!["https://acme.example/callback".to_string()],
        post_logout_redirect_uris: post_logout.iter().map(|uri| uri.to_string()).collect(),
        token_endpoint_auth_method: OAuthClientAuthenticationMethod::ClientSecretBasic,
        grant_types: vec![GrantType::AuthorizationCode],
    }
}

#[test]
fn a_new_directory_is_empty() {
    let directory = Directory::new();
    assert_eq!(directory.session(0), None);
    assert_eq!(directory.session(7), None);
    assert_eq!(directory.client(&"acme".to_string()), None);
}

#[test]
fn a_session_is_found_under_its_identifier() {
    let mut directory = Directory::new();
    assert!(directory.add_session(session(7, 1)));
    assert!(directory.add_session(session(8, 2)));
    assert_eq!(directory.session(7), Some(&session(7, 1)));
    assert_eq!(directory.session(8), Some(&session(8, 2)));
    assert_eq!(directory.session(9), None);
}

#[test]
fn a_second_session_with_the_same_identifier_is_refused() {
    let mut directory = Directory::new();
    assert!(directory.add_session(session(7, 1)));
    assert!(!directory.add_session(session(7, 2)));
    assert_eq!(directory.session(7), Some(&session(7, 1)));
}

#[test]
fn a_client_is_found_under_its_identifier() {
    let mut directory = Directory::new();
    assert!(directory.add_client(client("acme", &["https://acme.example/bye"])));
    assert!(directory.add_client(client("globex", &[])));
    assert!(!directory.add_client(client("acme", &[])));
    let found = directory.client(&"acme".to_string());
    assert_eq!(found, Some(&client("acme", &["https://acme.example/bye"])));
    assert_eq!(directory.client(&"acm".to_string()), None);
    assert_eq!(directory.client(&"ACME".to_string()), None);
}

#[test]
fn finishing_marks_the_session_once() {
    let mut directory = Directory::new();
    directory.add_session(session(7, 1));
    directory.add_session(session(8, 1));
    assert!(directory.finish_session(7, 200));
    let finished = directory.session(7).cloned();
    assert_eq!(
        finished,
        Some(Session { finished_at: Some(200), ..session(7, 1) })
    );
    assert!(!finished.unwrap().is_active());
    assert_eq!(directory.session(8), Some(&session(8, 1)));
    assert!(!directory.finish_session(7, 300));
    assert_eq!(directory.session(7).unwrap().finished_at, Some(200));
    assert!(!directory.finish_session(9, 300));
}

#[test]
fn a_session_is_active_until_finished() {
    assert!(session(1, 1).is_active());
    assert!(!Session { finished_at: Some(0), ..session(1, 1) }.is_active());
}

#[test]
fn post_logout_redirects_match_exactly() {
    let acme = client("acme", &["https://acme.example/bye", "https://acme.example/out?x=1"]);
    assert!(acme.accepts_post_logout_redirect(&"https://acme.example/bye".to_string()));
    assert!(acme.accepts_post_logout_redirect(&"https://acme.example/out?x=1".to_string()));
    assert!(!acme.accepts_post_logout_redirect(&"https://acme.example/bye/".to_string()));
    assert!(!acme.accepts_post_logout_redirect(&"https://acme.example/by".to_string()));
    assert!(!acme.accepts_post_logout_redirect(&"https://acme.example/bye?x=1".to_string()));
    assert!(!acme.accepts_post_logout_redirect(&"https://ACME.example/bye".to_string()));
    assert!(!acme.accepts_post_logout_redirect(&"https://acme.example/callback".to_string()));
    assert!(!acme.accepts_post_logout_redirect(&String::new()));
    assert!(!client("globex", &[]).accepts_post_logout_redirect(&"https://acme.example/bye".to_string()));
}
