use river::pages::{provider_status, validate_account_deletion, AuthProviders, HomePageData};
use river::user::{User, UserAuth};

fn auth(user_auth_id: i64, identity_type: i64, identifier: &str) -> UserAuth {
    UserAuth { user_auth_id, user_id: 1, identifier: identifier.to_string(), identity_type, created_at: 0 }
}

#[test]
fn providers_are_the_first_identity_of_each() {
    let auths = vec![auth(1, 1, "fb-1"), auth(2, 0, "gh-1"), auth(3, 1, "fb-2"), auth(4, 2, "tw-1")];
    let providers = AuthProviders::from_auths(&auths);
    assert_eq!(providers.github, Some(auth(2, 0, "gh-1")));
    assert_eq!(providers.facebook, Some(auth(1, 1, "fb-1")));
}

#[test]
fn no_identity_means_no_provider() {
    let providers = AuthProviders::from_auths(&[auth(4, 2, "tw-1")]);
    assert_eq!(providers.github, None);
    assert_eq!(providers.facebook, None);
    let home = HomePageData::default();
    assert!(home.user.is_none());
    assert!(home.account.delete_preview.is_none());
}

#[test]
fn provider_status_lines() {
    assert_eq!(provider_status(&Some("fake-github-user".to_string())), "connected: fake-github-user");
    assert_eq!(provider_status(&None), "not connected");
}

#[test]
fn only_administrators_are_admins() {
    let admin = User { user_id: 1, nickname: "admin".to_string(), role: 0, created_at: 0 };
    let someone = User { user_id: 2, nickname: "someone".to_string(), role: 1, created_at: 0 };
    assert!(admin.is_admin());
    assert!(!someone.is_admin());
    assert_eq!(someone.id(), 2);
    assert!(someone.session_auth_hash().is_empty());
}

#[test]
fn deletion_form_needs_the_nickname() {
    assert_eq!(validate_account_deletion("   ", true), Err("ニックネームを入力してください。".to_string()));
    assert_eq!(validate_account_deletion("", false), Err("ニックネームを入力してください。".to_string()));
}

#[test]
fn deletion_form_needs_the_acknowledgement() {
    assert_eq!(validate_account_deletion("user1", false), Err("削除の確認にチェックを入れてください。".to_string()));
}

#[test]
fn deletion_form_sends_the_trimmed_nickname() {
    let request = validate_account_deletion("  user1 \n", true).unwrap();
    assert_eq!(request.nickname_confirm, "user1");
    assert!(request.confirm_delete);
}
