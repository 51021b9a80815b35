//! What the account pages show: the linked logins, the deletion form and the
//! data the pages are built from.

use vstd::prelude::*;
use crate::api::delete_me;
use crate::river::RiverWaypoint;
use crate::text::{trim_white_space, trimmed};
use crate::user::{AccessLog, User, UserAuth, UserDeletePreview, IDENTITY_FACEBOOK, IDENTITY_GITHUB, ROLE_ADMIN};

verus! {

/// The first identity of the provider in the list, if any.
pub open spec fn first_of_provider(auths: Seq<UserAuth>, identity_type: i64) -> Option<UserAuth>
    decreases auths.len(),
{
    if auths.len() == 0 {
        None
    } else if auths[0].identity_type == identity_type {
        Some(auths[0])
    } else {
        first_of_provider(auths.drop_first(), identity_type)
    }
}

fn find_provider(auths: &[UserAuth], identity_type: i64) -> (r: Option<UserAuth>)
    ensures
        r == first_of_provider(auths@, identity_type),
{
    let mut i: usize = 0;
    assert(auths@.skip(0) =~= auths@);
    while i < auths.len()
        invariant
            0 <= i <= auths@.len(),
            first_of_provider(auths@.skip(i as int), identity_type) == first_of_provider(
                auths@,
                identity_type,
            ),
        decreases auths@.len() - i,
    {
        assert(auths@.skip(i as int)[0] == auths@[i as int]);
        if auths[i].identity_type == identity_type {
            return Some(auths[i].clone());
        }
        assert(auths@.skip(i as int).drop_first() =~= auths@.skip(i + 1));
        i = i + 1;
    }
    assert(auths@.skip(i as int).len() == 0);
    None
}

/// The GitHub and Facebook logins linked to an account.
#[derive(Clone, Debug)]
pub struct AuthProviders {
    pub github: Option<UserAuth>,
    pub facebook: Option<UserAuth>,
}

impl Default for AuthProviders {
    fn default() -> (r: Self)
        ensures
            r.github is None,
            r.facebook is None,
    {
        AuthProviders { github: None, facebook: None }
    }
}

impl AuthProviders {
    /// The first GitHub and the first Facebook identity of the list.
    pub fn from_auths(auths: &[UserAuth]) -> (r: Self)
        ensures
            r.github == first_of_provider(auths@, IDENTITY_GITHUB),
            r.facebook == first_of_provider(auths@, IDENTITY_FACEBOOK),
    {
        AuthProviders {
            github: find_provider(auths, IDENTITY_GITHUB),
            facebook: find_provider(auths, IDENTITY_FACEBOOK),
        }
    }
}

/// The account data the home page shows besides the account itself.
#[derive(Clone, Debug)]
pub struct AccountContext {
    pub delete_preview: Option<UserDeletePreview>,
}

impl Default for AccountContext {
    fn default() -> (r: Self)
        ensures
            r.delete_preview is None,
    {
        AccountContext { delete_preview: None }
    }
}

/// What the home page is built from.
#[derive(Clone, Debug)]
pub struct HomePageData {
    pub user: Option<User>,
    pub providers: AuthProviders,
    pub account: AccountContext,
}

impl Default for HomePageData {
    fn default() -> (r: Self)
        ensures
            r.user is None,
            r.providers.github is None,
            r.providers.facebook is None,
            r.account.delete_preview is None,
    {
        HomePageData { user: None, providers: AuthProviders::default(), account: AccountContext::default() }
    }
}

/// What the administration page is built from.
pub struct AdminPageData {
    pub users: Vec<User>,
    pub user_auths: Vec<UserAuth>,
    pub access_logs: Vec<AccessLog>,
    pub river_waypoints: Vec<RiverWaypoint>,
    pub csrf_token: String,
    pub river_csv_header: String,
    pub river_csv: String,
    pub river_waypoints_csv_header: String,
    pub river_waypoints_csv: String,
    pub river_tracks_csv_header: String,
    pub river_tracks_csv: String,
}

impl User {
    /// Whether the account is an administrator: only administrators see the
    /// administration link and the GitHub login, and an administrator cannot
    /// delete the account from the home page.
    pub fn is_admin(&self) -> (r: bool)
        ensures
            r == (self.role == ROLE_ADMIN),
    {
        self.role == ROLE_ADMIN
    }
}

/// The status line of a login provider: the linked identifier, or that none
/// is linked.
pub fn provider_status(identifier: &Option<String>) -> (r: String)
    ensures
        identifier is None ==> r@ == "not connected"@,
        identifier matches Some(id) ==> r@ == "connected: "@ + id@,
{
    match identifier {
        Some(id) => {
            let mut s = String::from_str("connected: ");
            s.append(id.as_str());
            s
        },
        None => String::from_str("not connected"),
    }
}

/// Checks the account deletion form: the nickname typed again, without
/// surrounding white space, must not be empty, and the acknowledgement must
/// be ticked. Gives the request to send, or the message to show.
pub fn validate_account_deletion(nickname_input: &str, confirmed: bool) -> (r: Result<
    delete_me::Request,
    String,
>)
    ensures
        trimmed(nickname_input@).len() == 0 ==> (r matches Err(m) && m@
            == "ニックネームを入力してください。"@),
        trimmed(nickname_input@).len() > 0 && !confirmed ==> (r matches Err(m) && m@
            == "削除の確認にチェックを入れてください。"@),
        trimmed(nickname_input@).len() > 0 && confirmed ==> (r matches Ok(req)
            && req.nickname_confirm@ == trimmed(nickname_input@) && req.confirm_delete),
{
    let nickname_confirm = trim_white_space(nickname_input).to_owned();
    if nickname_confirm.as_str().is_empty() {
        return Err(String::from_str("ニックネームを入力してください。"));
    }
    if !confirmed {
        return Err(String::from_str("削除の確認にチェックを入れてください。"));
    }
    Ok(delete_me::Request { nickname_confirm, confirm_delete: confirmed })
}

/// The identity found for a provider is the first identity of that
/// provider in the list: there is one exactly when some identity of the list
/// is of the provider, and it is the one at the least such position.
pub proof fn lemma_first_of_provider_is_first(auths: Seq<UserAuth>, identity_type: i64)
    ensures
        first_of_provider(auths, identity_type) is Some <==> exists|i: int|
            0 <= i < auths.len() && #[trigger] auths[i].identity_type == identity_type,
        first_of_provider(auths, identity_type) matches Some(a) ==> exists|k: int|
            0 <= k < auths.len() && #[trigger] auths[k] == a && a.identity_type == identity_type
                && forall|j: int| 0 <= j < k ==> #[trigger] auths[j].identity_type != identity_type,
    decreases auths.len(),
{
    if auths.len() > 0 {
        let rest = auths.drop_first();
        lemma_first_of_provider_is_first(rest, identity_type);
        if auths[0].identity_type == identity_type {
            assert(auths[0].identity_type == identity_type);
        } else {
            if exists|i: int| 0 <= i < auths.len() && #[trigger] auths[i].identity_type == identity_type {
                let i = choose|i: int| 0 <= i < auths.len() && #[trigger] auths[i].identity_type == identity_type;
                assert(rest[i - 1] == auths[i]);
            }
            if exists|i: int| 0 <= i < rest.len() && #[trigger] rest[i].identity_type == identity_type {
                let i = choose|i: int| 0 <= i < rest.len() && #[trigger] rest[i].identity_type == identity_type;
                assert(auths[i + 1] == rest[i]);
            }
            if let Some(a) = first_of_provider(rest, identity_type) {
                let k = choose|k: int|
                    0 <= k < rest.len() && #[trigger] rest[k] == a && a.identity_type == identity_type
                        && forall|j: int| 0 <= j < k ==> #[trigger] rest[j].identity_type != identity_type;
                assert(auths[k + 1] == a);
                assert forall|j: int| 0 <= j < k + 1 implies #[trigger] auths[j].identity_type != identity_type by {
                    if j > 0 {
                        assert(auths[j] == rest[j - 1]);
                    }
                }
            }
        }
    }
}

} // verus!
