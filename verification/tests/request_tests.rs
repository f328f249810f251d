use rust_rest_api::auth::auth_check;
use rust_rest_api::context::CtxApp;

#[test]
fn languages_without_header_default_to_id() {
    let ctx = CtxApp::from_accept_language(None);
    assert_eq!(ctx.accept_languages, vec!["id".to_string()]);
    assert_eq!(ctx.user_id, "Anonymous");
}

#[test]
fn languages_from_header_keep_tags_and_primary_subtags() {
    let ctx = CtxApp::from_accept_language(Some("en-US,en;q=0.9, id;q=0.8"));
    assert_eq!(ctx.accept_languages, vec!["en-US", "en", "id"]);
    let ctx = CtxApp::from_accept_language(Some(" fr-CA ; q=1 "));
    assert_eq!(ctx.accept_languages, vec!["fr-CA", "fr"]);
}

#[test]
fn empty_header_gives_empty_language() {
    let ctx = CtxApp::from_accept_language(Some(""));
    assert_eq!(ctx.accept_languages, vec![""]);
}

#[test]
fn auth_accepts_only_the_bearer_token() {
    assert_eq!(auth_check(Some("Bearer s9999")).ok(), Some("s9999".to_string()));
    assert_eq!(auth_check(Some("Bearer  s9999 ")).ok(), Some(" s9999 ".to_string()));
}

#[test]
fn auth_refusals() {
    assert_eq!(auth_check(None).err().unwrap().error, "missing_token");
    assert_eq!(auth_check(Some("Basic s9999")).err().unwrap().error, "invalid_type_token");
    assert_eq!(auth_check(Some("Bearer  ")).err().unwrap().error, "missing_token");
    let refused = auth_check(Some("Bearer abc")).err().unwrap();
    assert_eq!(refused.error, "invalid_token");
    assert_eq!(refused.status_code(), 401);
}
