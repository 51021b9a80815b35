//! Signing in with an OAuth identity and linking further identities to an
//! account.
//!
//! The store answers two lookups: the identities recorded for a provider
//! identity, and whether an account already has an identity of a provider.
//! The functions here decide, from those answers, what the store does next.

use vstd::prelude::*;
use crate::user::UserAuth;

verus! {

/// What signing in with a provider identity does.
#[derive(Clone, Copy, Debug, PartialEq, Eq, Structural)]
pub enum LoginDecision {
    /// The identity is known: sign in to the account with this id.
    SignIn(i64),
    /// The identity is new: create an account for it and record the identity.
    SignUp,
}

/// What signing in does, given the identities recorded for the provider
/// identity: the account of the first one, or a new account.
pub open spec fn login_outcome(found: Seq<UserAuth>) -> LoginDecision {
    if found.len() > 0 {
        LoginDecision::SignIn(found[0].user_id)
    } else {
        LoginDecision::SignUp
    }
}

/// Decides a sign-in from the identities recorded for the provider identity.
pub fn decide_login(found: &Vec<UserAuth>) -> (r: LoginDecision)
    ensures
        r == login_outcome(found@),
{
    if found.len() > 0 {
        LoginDecision::SignIn(found[0].user_id)
    } else {
        LoginDecision::SignUp
    }
}

/// Why an identity cannot be linked to an account.
#[derive(Clone, Copy, Debug, PartialEq, Eq, Structural)]
pub enum LinkError {
    /// The identity belongs to another account.
    LinkedToAnotherAccount,
    /// The account already has an identity of the same provider.
    ProviderAlreadyLinked,
}

impl LinkError {
    /// The message the refusal is reported with.
    pub fn message(&self) -> (r: String)
        ensures
            *self == LinkError::LinkedToAnotherAccount ==> r@
                == "この認証情報は別のアカウントに連携済みです"@,
            *self == LinkError::ProviderAlreadyLinked ==> r@
                == "このアカウントには同じログイン方法が既に連携済みです"@,
    {
        match self {
            LinkError::LinkedToAnotherAccount => String::from_str(
                "この認証情報は別のアカウントに連携済みです",
            ),
            LinkError::ProviderAlreadyLinked => String::from_str(
                "このアカウントには同じログイン方法が既に連携済みです",
            ),
        }
    }
}

/// What linking a provider identity to a signed-in account does.
#[derive(Clone, Copy, Debug, PartialEq, Eq, Structural)]
pub enum LinkDecision {
    /// The identity is already linked to this account: nothing changes.
    AlreadyLinked,
    /// The link is refused; nothing changes.
    Refuse(LinkError),
    /// Record the identity for the account.
    Link,
}

/// What linking does, given the identities recorded for the provider
/// identity and whether the account already has an identity of the provider.
/// The second answer only counts when the identity is not recorded at all.
pub open spec fn link_outcome(user_id: i64, found: Seq<UserAuth>, provider_in_use: bool) -> LinkDecision {
    if found.len() > 0 {
        if found[0].user_id == user_id {
            LinkDecision::AlreadyLinked
        } else {
            LinkDecision::Refuse(LinkError::LinkedToAnotherAccount)
        }
    } else if provider_in_use {
        LinkDecision::Refuse(LinkError::ProviderAlreadyLinked)
    } else {
        LinkDecision::Link
    }
}

/// Decides a link of a provider identity to the account `user_id`.
/// `provider_in_use` is only read when `found` is empty, so the store need
/// only look it up then.
pub fn decide_link(user_id: i64, found: &Vec<UserAuth>, provider_in_use: bool) -> (r: LinkDecision)
    ensures
        r == link_outcome(user_id, found@, provider_in_use),
{
    if found.len() > 0 {
        if found[0].user_id == user_id {
            LinkDecision::AlreadyLinked
        } else {
            LinkDecision::Refuse(LinkError::LinkedToAnotherAccount)
        }
    } else if provider_in_use {
        LinkDecision::Refuse(LinkError::ProviderAlreadyLinked)
    } else {
        LinkDecision::Link
    }
}

/// Whether a recorded identity is the given provider identity.
pub open spec fn is_identity(auth: UserAuth, identity_type: i64, identifier: Seq<char>) -> bool {
    auth.identity_type == identity_type && auth.identifier@ == identifier
}

/// The identities of a table that are the given provider identity, in table
/// order: what the store's lookup answers.
pub open spec fn identities_of(table: Seq<UserAuth>, identity_type: i64, identifier: Seq<char>) -> Seq<UserAuth> {
    table.filter(|a: UserAuth| is_identity(a, identity_type, identifier))
}

/// Whether the account has an identity of the provider in the table.
pub open spec fn provider_linked(table: Seq<UserAuth>, user_id: i64, identity_type: i64) -> bool {
    exists|i: int|
        0 <= i < table.len() && #[trigger] table[i].user_id == user_id && table[i].identity_type
            == identity_type
}

/// No provider identity is recorded twice, and no account has two
/// identities of one provider.
pub open spec fn identities_consistent(table: Seq<UserAuth>) -> bool {
    forall|i: int, j: int|
        0 <= i < j < table.len() ==> {
            &&& !(#[trigger] table[i].identity_type == #[trigger] table[j].identity_type
                && table[i].identifier@ == table[j].identifier@)
            &&& !(table[i].user_id == table[j].user_id && table[i].identity_type
                == table[j].identity_type)
        }
}

proof fn lemma_not_found_means_absent(table: Seq<UserAuth>, identity_type: i64, identifier: Seq<char>)
    requires
        identities_of(table, identity_type, identifier).len() == 0,
    ensures
        forall|i: int| 0 <= i < table.len() ==> !is_identity(#[trigger] table[i], identity_type, identifier),
{
    broadcast use vstd::seq_lib::group_filter_ensures;
    assert forall|i: int| 0 <= i < table.len() implies !is_identity(#[trigger] table[i], identity_type, identifier) by {
        if is_identity(table[i], identity_type, identifier) {
            let pred = |a: UserAuth| is_identity(a, identity_type, identifier);
            assert(pred(table[i]));
            assert(table.filter(pred).contains(table[i]));
        }
    }
}

/// Linking keeps the identities consistent: when linking decides to record
/// the identity, the table with the new row still records no provider
/// identity twice and gives no account two identities of one provider.
pub proof fn lemma_link_keeps_identities_consistent(table: Seq<UserAuth>, user_id: i64, row: UserAuth)
    requires
        identities_consistent(table),
        row.user_id == user_id,
        link_outcome(
            user_id,
            identities_of(table, row.identity_type, row.identifier@),
            provider_linked(table, user_id, row.identity_type),
        ) == LinkDecision::Link,
    ensures
        identities_consistent(table.push(row)),
{
    lemma_not_found_means_absent(table, row.identity_type, row.identifier@);
    let t = table.push(row);
    assert forall|i: int, j: int| 0 <= i < j < t.len() implies {
        &&& !(#[trigger] t[i].identity_type == #[trigger] t[j].identity_type
            && t[i].identifier@ == t[j].identifier@)
        &&& !(t[i].user_id == t[j].user_id && t[i].identity_type == t[j].identity_type)
    } by {
        if j == table.len() {
            assert(t[i] == table[i]);
            assert(!is_identity(table[i], row.identity_type, row.identifier@));
            if table[i].user_id == user_id && table[i].identity_type == row.identity_type {
                assert(provider_linked(table, user_id, row.identity_type));
            }
        }
    }
}

/// Signing up keeps the identities consistent: when signing in decides to
/// create an account, recording the identity for the new account leaves the
/// table consistent.
pub proof fn lemma_sign_up_keeps_identities_consistent(table: Seq<UserAuth>, row: UserAuth)
    requires
        identities_consistent(table),
        login_outcome(identities_of(table, row.identity_type, row.identifier@)) == LoginDecision::SignUp,
        forall|i: int| 0 <= i < table.len() ==> (#[trigger] table[i]).user_id != row.user_id,
    ensures
        identities_consistent(table.push(row)),
{
    lemma_not_found_means_absent(table, row.identity_type, row.identifier@);
    let t = table.push(row);
    assert forall|i: int, j: int| 0 <= i < j < t.len() implies {
        &&& !(#[trigger] t[i].identity_type == #[trigger] t[j].identity_type
            && t[i].identifier@ == t[j].identifier@)
        &&& !(t[i].user_id == t[j].user_id && t[i].identity_type == t[j].identity_type)
    } by {
        if j == table.len() {
            assert(t[i] == table[i]);
            assert(!is_identity(table[i], row.identity_type, row.identifier@));
        }
    }
}

/// Once an identity has been recorded for an account, by signing up or by
/// linking, signing in with it reaches that account.
pub proof fn lemma_recorded_identity_signs_in(table: Seq<UserAuth>, row: UserAuth)
    requires
        identities_of(table, row.identity_type, row.identifier@).len() == 0,
    ensures
        login_outcome(identities_of(table.push(row), row.identity_type, row.identifier@))
            == LoginDecision::SignIn(row.user_id),
{
    let pred = |a: UserAuth| is_identity(a, row.identity_type, row.identifier@);
    table.lemma_filter_push(row, pred);
    assert(pred(row));
}

/// In a consistent table a provider identity is recorded at most once, so
/// the account that signing in reaches does not depend on the order the
/// store lists the rows in.
pub proof fn lemma_identity_recorded_at_most_once(
    table: Seq<UserAuth>,
    identity_type: i64,
    identifier: Seq<char>,
)
    requires
        identities_consistent(table),
    ensures
        identities_of(table, identity_type, identifier).len() <= 1,
    decreases table.len(),
{
    let pred = |a: UserAuth| is_identity(a, identity_type, identifier);
    if table.len() > 0 {
        let init = table.drop_last();
        assert(identities_consistent(init)) by {
            assert forall|i: int, j: int| 0 <= i < j < init.len() implies {
                &&& !(#[trigger] init[i].identity_type == #[trigger] init[j].identity_type
                    && init[i].identifier@ == init[j].identifier@)
                &&& !(init[i].user_id == init[j].user_id && init[i].identity_type
                    == init[j].identity_type)
            } by {
                assert(init[i] == table[i] && init[j] == table[j]);
            }
        }
        lemma_identity_recorded_at_most_once(init, identity_type, identifier);
        assert(table =~= init.push(table.last()));
        init.lemma_filter_push(table.last(), pred);
        if pred(table.last()) && identities_of(init, identity_type, identifier).len() > 0 {
            broadcast use vstd::seq_lib::group_filter_ensures;
            let f = init.filter(pred);
            assert(pred(f[0]));
            assert(init.filter(pred).contains(f[0]));
            init.lemma_filter_contains_rev(pred, f[0]);
            let k = choose|k: int| 0 <= k < init.len() && init[k] == f[0];
            let n = table.len() - 1;
            assert(table[k] == init[k]);
            assert(table[n] == table.last());
            assert(table[k].identity_type == table[n].identity_type);
            assert(table[k].identifier@ == table[n].identifier@);
            assert(false);
        }
    } else {
        reveal(Seq::filter);
    }
}

/// What each link decision means of the lookups it was made from: an
/// identity already recorded for another account is refused as such,
/// whether or not the account has an identity of the provider; it counts as
/// already linked only when it is recorded for the account itself; the
/// provider refusal and a new link come only for an identity recorded
/// nowhere, the first when the account has an identity of the provider and
/// the second when it has none.
pub proof fn lemma_link_decisions(user_id: i64, found: Seq<UserAuth>, provider_in_use: bool)
    ensures
        found.len() > 0 && found[0].user_id != user_id ==> link_outcome(user_id, found, provider_in_use)
            == LinkDecision::Refuse(LinkError::LinkedToAnotherAccount),
        link_outcome(user_id, found, provider_in_use) == LinkDecision::AlreadyLinked <==> (found.len()
            > 0 && found[0].user_id == user_id),
        link_outcome(user_id, found, provider_in_use) == LinkDecision::Refuse(
            LinkError::ProviderAlreadyLinked,
        ) <==> (found.len() == 0 && provider_in_use),
        link_outcome(user_id, found, provider_in_use) == LinkDecision::Link <==> (found.len() == 0
            && !provider_in_use),
{
}

/// Signing in reaches an existing account exactly when the identity is
/// recorded, and then the account it is first recorded for.
pub proof fn lemma_login_decisions(found: Seq<UserAuth>)
    ensures
        login_outcome(found) == LoginDecision::SignUp <==> found.len() == 0,
        found.len() > 0 ==> login_outcome(found) == LoginDecision::SignIn(found[0].user_id),
{
}

} // verus!
