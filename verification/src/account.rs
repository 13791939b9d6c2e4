//! Accounts and their resolution into uniform credentials.

use vstd::prelude::*;
use vstd::string::*;

verus! {

/// The credentials a user can launch with.
#[derive(Debug, PartialEq, Eq)]
pub enum Account {
    /// Obtained through the federated identity provider.
    NetworkAccount { display_name: String, subject_id: String, access_token: String },
    /// Obtained through the deprecated identity provider.
    LegacyNetworkAccount { display_name: String, access_token: String, subject_id: String },
    /// No identity provider involved; carries no access token.
    OfflineAccount { display_name: String, subject_id: String },
}

/// The mathematical content of an [`Account`].
pub enum AccountView {
    NetworkAccount { display_name: Seq<char>, subject_id: Seq<char>, access_token: Seq<char> },
    LegacyNetworkAccount { display_name: Seq<char>, access_token: Seq<char>, subject_id: Seq<char> },
    OfflineAccount { display_name: Seq<char>, subject_id: Seq<char> },
}

impl View for Account {
    type V = AccountView;

    open spec fn view(&self) -> AccountView {
        match *self {
            Account::NetworkAccount { display_name, subject_id, access_token } => {
                AccountView::NetworkAccount {
                    display_name: display_name@,
                    subject_id: subject_id@,
                    access_token: access_token@,
                }
            },
            Account::LegacyNetworkAccount { display_name, access_token, subject_id } => {
                AccountView::LegacyNetworkAccount {
                    display_name: display_name@,
                    access_token: access_token@,
                    subject_id: subject_id@,
                }
            },
            Account::OfflineAccount { display_name, subject_id } => {
                AccountView::OfflineAccount { display_name: display_name@, subject_id: subject_id@ }
            },
        }
    }
}

/// Which provider vouches for an account.
#[derive(Clone, Copy, Debug, PartialEq, Eq, Structural)]
pub enum AccountKind {
    Network,
    LegacyNetwork,
    Offline,
}

/// The label under which the client process is told of an account kind.
pub open spec fn kind_label(kind: AccountKind) -> Seq<char> {
    match kind {
        AccountKind::Network => "msa"@,
        AccountKind::LegacyNetwork => "mojang"@,
        AccountKind::Offline => "legacy"@,
    }
}

/// The token that stands in for the access token of an offline account.
pub open spec fn offline_token() -> Seq<char> {
    "-"@
}

impl AccountKind {
    /// The label of this kind, as [`kind_label`] defines it.
    pub fn label(&self) -> (text: String)
        ensures
            text@ == kind_label(*self),
    {
        match self {
            AccountKind::Network => "msa".to_owned(),
            AccountKind::LegacyNetwork => "mojang".to_owned(),
            AccountKind::Offline => "legacy".to_owned(),
        }
    }
}

/// Uniform credentials: what every account kind resolves to.
#[derive(Debug, PartialEq, Eq)]
pub struct ResolvedAccount {
    pub display_name: String,
    pub subject_id: String,
    pub access_token: String,
    pub account_kind: AccountKind,
}

/// The mathematical content of a [`ResolvedAccount`].
pub struct ResolvedAccountView {
    pub display_name: Seq<char>,
    pub subject_id: Seq<char>,
    pub access_token: Seq<char>,
    pub account_kind: AccountKind,
}

impl View for ResolvedAccount {
    type V = ResolvedAccountView;

    open spec fn view(&self) -> ResolvedAccountView {
        ResolvedAccountView {
            display_name: self.display_name@,
            subject_id: self.subject_id@,
            access_token: self.access_token@,
            account_kind: self.account_kind,
        }
    }
}

/// The kind of an account: one per variant.
pub open spec fn kind_of(account: AccountView) -> AccountKind {
    match account {
        AccountView::NetworkAccount { .. } => AccountKind::Network,
        AccountView::LegacyNetworkAccount { .. } => AccountKind::LegacyNetwork,
        AccountView::OfflineAccount { .. } => AccountKind::Offline,
    }
}

/// What an account resolves to. Every variant has a value: the two network
/// kinds keep their stored token, the offline kind gets [`offline_token`].
pub open spec fn resolved(account: AccountView) -> ResolvedAccountView {
    match account {
        AccountView::NetworkAccount { display_name, subject_id, access_token } => {
            ResolvedAccountView {
                display_name,
                subject_id,
                access_token,
                account_kind: AccountKind::Network,
            }
        },
        AccountView::LegacyNetworkAccount { display_name, access_token, subject_id } => {
            ResolvedAccountView {
                display_name,
                subject_id,
                access_token,
                account_kind: AccountKind::LegacyNetwork,
            }
        },
        AccountView::OfflineAccount { display_name, subject_id } => {
            ResolvedAccountView {
                display_name,
                subject_id,
                access_token: offline_token(),
                account_kind: AccountKind::Offline,
            }
        },
    }
}

/// Resolves an account into uniform credentials.
pub fn resolve_account(account: Account) -> (credentials: ResolvedAccount)
    ensures
        credentials@ == resolved(account@),
{
    match account {
        Account::NetworkAccount { display_name, subject_id, access_token } => ResolvedAccount {
            display_name,
            subject_id,
            access_token,
            account_kind: AccountKind::Network,
        },
        Account::LegacyNetworkAccount { display_name, access_token, subject_id } => {
            ResolvedAccount {
                display_name,
                subject_id,
                access_token,
                account_kind: AccountKind::LegacyNetwork,
            }
        },
        Account::OfflineAccount { display_name, subject_id } => ResolvedAccount {
            display_name,
            subject_id,
            access_token: "-".to_owned(),
            account_kind: AccountKind::Offline,
        },
    }
}

/// Distinct kinds carry distinct labels, and no label is empty.
pub proof fn lemma_kind_labels_distinct(a: AccountKind, b: AccountKind)
    ensures
        kind_label(a) == kind_label(b) <==> a == b,
        kind_label(a).len() > 0,
{
    reveal_strlit("msa");
    reveal_strlit("mojang");
    reveal_strlit("legacy");
    if a != b {
        assert(kind_label(a).len() != kind_label(b).len() || kind_label(a)[0] != kind_label(
            b,
        )[0]);
    }
}

/// Accounts resolve to the same label exactly when they are of the same
/// variant, whatever their fields hold.
pub proof fn lemma_variants_resolve_to_distinct_labels(a: AccountView, b: AccountView)
    ensures
        resolved(a).account_kind == kind_of(a),
        kind_label(resolved(a).account_kind) == kind_label(resolved(b).account_kind) <==> kind_of(
            a,
        ) == kind_of(b),
{
    lemma_kind_labels_distinct(kind_of(a), kind_of(b));
}

/// The token of an offline account is not empty.
pub proof fn lemma_offline_token_not_empty()
    ensures
        offline_token().len() > 0,
{
    reveal_strlit("-");
}

} // verus!
