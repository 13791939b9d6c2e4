use launch_session::account::{resolve_account, Account, AccountKind, ResolvedAccount};

fn text(s: &str) -> String {
    s.to_string()
}

#[test]
fn network_account_keeps_its_token() {
    let resolved = resolve_account(Account::NetworkAccount {
        display_name: text("Steve"),
        subject_id: text("069a79f4-44e9-4726-a5be-fca90e38aaf5"),
        access_token: text("token-n"),
    });
    assert_eq!(
        resolved,
        ResolvedAccount {
            display_name: text("Steve"),
            subject_id: text("069a79f4-44e9-4726-a5be-fca90e38aaf5"),
            access_token: text("token-n"),
            account_kind: AccountKind::Network,
        }
    );
}

#[test]
fn legacy_network_account_keeps_its_token() {
    let resolved = resolve_account(Account::LegacyNetworkAccount {
        display_name: text("Alex"),
        access_token: text("token-l"),
        subject_id: text("id-l"),
    });
    assert_eq!(
        resolved,
        ResolvedAccount {
            display_name: text("Alex"),
            subject_id: text("id-l"),
            access_token: text("token-l"),
            account_kind: AccountKind::LegacyNetwork,
        }
    );
}

#[test]
fn offline_account_gets_the_placeholder_token() {
    let resolved = resolve_account(Account::OfflineAccount {
        display_name: text("Guest"),
        subject_id: text("id-o"),
    });
    assert_eq!(
        resolved,
        ResolvedAccount {
            display_name: text("Guest"),
            subject_id: text("id-o"),
            access_token: text("-"),
            account_kind: AccountKind::Offline,
        }
    );
    assert!(!resolved.access_token.is_empty());
}

#[test]
fn resolution_is_repeatable() {
    let make = || Account::LegacyNetworkAccount {
        display_name: text("Alex"),
        access_token: text("t"),
        subject_id: text("s"),
    };
    assert_eq!(resolve_account(make()), resolve_account(make()));
}

#[test]
fn empty_fields_pass_through() {
    let resolved = resolve_account(Account::NetworkAccount {
        display_name: text(""),
        subject_id: text(""),
        access_token: text(""),
    });
    assert_eq!(resolved.display_name, "");
    assert_eq!(resolved.subject_id, "");
    assert_eq!(resolved.access_token, "");
    assert_eq!(resolved.account_kind, AccountKind::Network);
}

#[test]
fn kind_labels() {
    assert_eq!(AccountKind::Network.label(), "msa");
    assert_eq!(AccountKind::LegacyNetwork.label(), "mojang");
    assert_eq!(AccountKind::Offline.label(), "legacy");
}

#[test]
fn kind_labels_are_distinct() {
    let kinds = [AccountKind::Network, AccountKind::LegacyNetwork, AccountKind::Offline];
    for a in kinds {
        for b in kinds {
            assert_eq!(a.label() == b.label(), a == b);
        }
        assert!(!a.label().is_empty());
    }
}
