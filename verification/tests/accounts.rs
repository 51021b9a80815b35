use river::accounts::{decide_link, decide_login, LinkDecision, LinkError, LoginDecision};
use river::user::UserAuth;

fn auth(user_id: i64, identity_type: i64, identifier: &str) -> UserAuth {
    UserAuth {
        user_auth_id: user_id * 10 + identity_type,
        user_id,
        identifier: identifier.to_string(),
        identity_type,
        created_at: 0,
    }
}

#[test]
fn new_identity_signs_up() {
    assert_eq!(decide_login(&vec![]), LoginDecision::SignUp);
}

#[test]
fn known_identity_signs_in_to_its_account() {
    let found = vec![auth(3, 0, "github_id_2")];
    assert_eq!(decide_login(&found), LoginDecision::SignIn(3));
}

#[test]
fn sign_in_takes_the_first_identity_listed() {
    let found = vec![auth(5, 1, "facebook_id_2"), auth(6, 1, "facebook_id_2")];
    assert_eq!(decide_login(&found), LoginDecision::SignIn(5));
}

#[test]
fn linking_an_identity_already_linked_to_the_account_changes_nothing() {
    let found = vec![auth(1, 1, "facebook_id_1")];
    assert_eq!(decide_link(1, &found, true), LinkDecision::AlreadyLinked);
    assert_eq!(decide_link(1, &found, false), LinkDecision::AlreadyLinked);
}

#[test]
fn linking_an_identity_of_another_account_is_refused() {
    let found = vec![auth(1, 0, "github_id_1")];
    let decision = decide_link(2, &found, false);
    assert_eq!(decision, LinkDecision::Refuse(LinkError::LinkedToAnotherAccount));
    assert!(LinkError::LinkedToAnotherAccount
        .message()
        .contains("この認証情報は別のアカウントに連携済みです"));
}

#[test]
fn linking_a_second_identity_of_a_provider_is_refused() {
    let decision = decide_link(1, &vec![], true);
    assert_eq!(decision, LinkDecision::Refuse(LinkError::ProviderAlreadyLinked));
    assert!(LinkError::ProviderAlreadyLinked
        .message()
        .contains("このアカウントには同じログイン方法が既に連携済みです"));
}

#[test]
fn linking_a_new_identity_of_a_free_provider_records_it() {
    assert_eq!(decide_link(1, &vec![], false), LinkDecision::Link);
}
