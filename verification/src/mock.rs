//! Built-in demo accounts and their vault items.

use vstd::prelude::*;

use crate::sidebar::CipherType;

verus! {

/// Kind of a demo vault item.
pub type CipherCategory = CipherType;

/// A vault row of the demo data.
#[derive(Debug, Clone)]
pub struct CipherItem {
    pub id: String,
    pub name: String,
    pub username: Option<String>,
    pub url: Option<String>,
    pub category: CipherCategory,
}

/// A demo account.
#[derive(Debug, Clone)]
pub struct UserSession {
    pub email: String,
    pub display_name: String,
    pub server_url: String,
    pub locked: bool,
    pub vault_items: Vec<CipherItem>,
}

pub open spec fn opt_view(o: Option<String>) -> Option<Seq<char>> {
    match o {
        Some(s) => Some(s@),
        None => None,
    }
}

pub open spec fn opt_str_view(o: Option<&str>) -> Option<Seq<char>> {
    match o {
        Some(s) => Some(s@),
        None => None,
    }
}

/// `it` holds exactly these fields.
pub open spec fn item_is(
    it: CipherItem,
    id: &str,
    name: &str,
    username: Option<&str>,
    url: Option<&str>,
    category: CipherCategory,
) -> bool {
    &&& it.id@ == id@
    &&& it.name@ == name@
    &&& opt_view(it.username) == opt_str_view(username)
    &&& opt_view(it.url) == opt_str_view(url)
    &&& it.category == category
}

fn owned(o: Option<&str>) -> (r: Option<String>)
    ensures
        opt_view(r) == opt_str_view(o),
{
    match o {
        Some(s) => Some(String::from_str(s)),
        None => None,
    }
}

fn item(id: &str, name: &str, username: Option<&str>, url: Option<&str>, category: CipherCategory) -> (it: CipherItem)
    ensures
        item_is(it, id, name, username, url, category),
{
    CipherItem {
        id: String::from_str(id),
        name: String::from_str(name),
        username: owned(username),
        url: owned(url),
        category,
    }
}

/// The personal demo vault, row by row.
pub open spec fn is_personal_vault(items: Seq<CipherItem>) -> bool {
    &&& items.len() == 19
    &&& item_is(items[0], "c1a0-0001", "Gmail", Some("alice@example.com"), Some("mail.google.com"), CipherCategory::Login)
    &&& item_is(items[1], "c1a0-0002", "GitHub", Some("alice-dev"), Some("github.com"), CipherCategory::Login)
    &&& item_is(items[2], "c1a0-0003", "Netflix", Some("alice@example.com"), Some("netflix.com"), CipherCategory::Login)
    &&& item_is(items[3], "c1a0-0004", "Amazon", Some("alice@example.com"), Some("amazon.com"), CipherCategory::Login)
    &&& item_is(items[4], "c1a0-0005", "Reddit", Some("alice_online"), Some("reddit.com"), CipherCategory::Login)
    &&& item_is(items[5], "c1a0-0006", "Steam", Some("alice_gamer"), Some("store.steampowered.com"), CipherCategory::Login)
    &&& item_is(items[6], "c1a0-0007", "Spotify", Some("alice@example.com"), Some("spotify.com"), CipherCategory::Login)
    &&& item_is(items[7], "c1a0-0008", "Bank of Example", Some("alice.johnson"), Some("bankofexample.com"), CipherCategory::Login)
    &&& item_is(items[8], "c1a0-0009", "Home WiFi Router", Some("admin"), Some("192.168.1.1"), CipherCategory::Login)
    &&& item_is(items[9], "c1a0-000a", "Discord", Some("alice#1234"), Some("discord.com"), CipherCategory::Login)
    &&& item_is(items[10], "c1a0-000b", "Twitter / X", Some("@alice_j"), Some("x.com"), CipherCategory::Login)
    &&& item_is(items[11], "c1a0-000c", "LinkedIn", Some("alice@example.com"), Some("linkedin.com"), CipherCategory::Login)
    &&& item_is(items[12], "c1a0-000d", "Dropbox", Some("alice@example.com"), Some("dropbox.com"), CipherCategory::Login)
    &&& item_is(items[13], "c1a0-000e", "Personal Visa", None, None, CipherCategory::Card)
    &&& item_is(items[14], "c1a0-000f", "Debit Card", None, None, CipherCategory::Card)
    &&& item_is(items[15], "c1a0-0010", "Alice Johnson", Some("Personal identity"), None, CipherCategory::Identity)
    &&& item_is(items[16], "c1a0-0011", "Recovery Codes Backup", None, None, CipherCategory::SecureNote)
    &&& item_is(items[17], "c1a0-0012", "WiFi Passwords", None, None, CipherCategory::SecureNote)
    &&& item_is(items[18], "c1a0-0013", "GitHub SSH Key", Some("git@github.com"), None, CipherCategory::SshKey)
}

/// The personal demo vault.
pub fn mock_vault_items_personal() -> (r: Vec<CipherItem>)
    ensures
        is_personal_vault(r@),
{
    let mut v: Vec<CipherItem> = Vec::new();
    v.push(item("c1a0-0001", "Gmail", Some("alice@example.com"), Some("mail.google.com"), CipherCategory::Login));
    v.push(item("c1a0-0002", "GitHub", Some("alice-dev"), Some("github.com"), CipherCategory::Login));
    v.push(item("c1a0-0003", "Netflix", Some("alice@example.com"), Some("netflix.com"), CipherCategory::Login));
    v.push(item("c1a0-0004", "Amazon", Some("alice@example.com"), Some("amazon.com"), CipherCategory::Login));
    v.push(item("c1a0-0005", "Reddit", Some("alice_online"), Some("reddit.com"), CipherCategory::Login));
    v.push(item("c1a0-0006", "Steam", Some("alice_gamer"), Some("store.steampowered.com"), CipherCategory::Login));
    v.push(item("c1a0-0007", "Spotify", Some("alice@example.com"), Some("spotify.com"), CipherCategory::Login));
    v.push(item("c1a0-0008", "Bank of Example", Some("alice.johnson"), Some("bankofexample.com"), CipherCategory::Login));
    v.push(item("c1a0-0009", "Home WiFi Router", Some("admin"), Some("192.168.1.1"), CipherCategory::Login));
    v.push(item("c1a0-000a", "Discord", Some("alice#1234"), Some("discord.com"), CipherCategory::Login));
    v.push(item("c1a0-000b", "Twitter / X", Some("@alice_j"), Some("x.com"), CipherCategory::Login));
    v.push(item("c1a0-000c", "LinkedIn", Some("alice@example.com"), Some("linkedin.com"), CipherCategory::Login));
    v.push(item("c1a0-000d", "Dropbox", Some("alice@example.com"), Some("dropbox.com"), CipherCategory::Login));
    v.push(item("c1a0-000e", "Personal Visa", None, None, CipherCategory::Card));
    v.push(item("c1a0-000f", "Debit Card", None, None, CipherCategory::Card));
    v.push(item("c1a0-0010", "Alice Johnson", Some("Personal identity"), None, CipherCategory::Identity));
    v.push(item("c1a0-0011", "Recovery Codes Backup", None, None, CipherCategory::SecureNote));
    v.push(item("c1a0-0012", "WiFi Passwords", None, None, CipherCategory::SecureNote));
    v.push(item("c1a0-0013", "GitHub SSH Key", Some("git@github.com"), None, CipherCategory::SshKey));
    v
}

/// The work demo vault, row by row.
pub open spec fn is_work_vault(items: Seq<CipherItem>) -> bool {
    &&& items.len() == 7
    &&& item_is(items[0], "c2b0-0001", "Company Jira", Some("ajohnson@acmecorp.com"), Some("acmecorp.atlassian.net"), CipherCategory::Login)
    &&& item_is(items[1], "c2b0-0002", "Company GitHub", Some("alice-acme"), Some("github.com"), CipherCategory::Login)
    &&& item_is(items[2], "c2b0-0003", "AWS Console", Some("ajohnson@acmecorp.com"), Some("aws.amazon.com"), CipherCategory::Login)
    &&& item_is(items[3], "c2b0-0004", "Slack", Some("ajohnson"), Some("acmecorp.slack.com"), CipherCategory::Login)
    &&& item_is(items[4], "c2b0-0005", "Corporate Card", None, None, CipherCategory::Card)
    &&& item_is(items[5], "c2b0-0006", "Production DB Credentials", None, None, CipherCategory::SecureNote)
    &&& item_is(items[6], "c2b0-0007", "Deploy SSH Key", Some("deploy@acmecorp.com"), None, CipherCategory::SshKey)
}

/// The work demo vault.
pub fn mock_vault_items_work() -> (r: Vec<CipherItem>)
    ensures
        is_work_vault(r@),
{
    let mut v: Vec<CipherItem> = Vec::new();
    v.push(item("c2b0-0001", "Company Jira", Some("ajohnson@acmecorp.com"), Some("acmecorp.atlassian.net"), CipherCategory::Login));
    v.push(item("c2b0-0002", "Company GitHub", Some("alice-acme"), Some("github.com"), CipherCategory::Login));
    v.push(item("c2b0-0003", "AWS Console", Some("ajohnson@acmecorp.com"), Some("aws.amazon.com"), CipherCategory::Login));
    v.push(item("c2b0-0004", "Slack", Some("ajohnson"), Some("acmecorp.slack.com"), CipherCategory::Login));
    v.push(item("c2b0-0005", "Corporate Card", None, None, CipherCategory::Card));
    v.push(item("c2b0-0006", "Production DB Credentials", None, None, CipherCategory::SecureNote));
    v.push(item("c2b0-0007", "Deploy SSH Key", Some("deploy@acmecorp.com"), None, CipherCategory::SshKey));
    v
}

/// The demo accounts keyed by user id, both locked, and the id of the one
/// that starts active.
pub fn mock_users() -> (r: (Vec<(String, UserSession)>, String))
    ensures
        r.0@.len() == 2,
        r.0@[0].0@ == "user-1"@,
        r.0@[0].1.email@ == "alice@example.com"@,
        r.0@[0].1.display_name@ == "Alice Johnson"@,
        r.0@[0].1.server_url@ == "bitwarden.com"@,
        r.0@[0].1.locked,
        is_personal_vault(r.0@[0].1.vault_items@),
        r.0@[1].0@ == "user-2"@,
        r.0@[1].1.email@ == "alice@acmecorp.com"@,
        r.0@[1].1.display_name@ == "Alice (Work)"@,
        r.0@[1].1.server_url@ == "vault.acmecorp.com"@,
        r.0@[1].1.locked,
        is_work_vault(r.0@[1].1.vault_items@),
        r.1@ == "user-1"@,
{
    let mut users: Vec<(String, UserSession)> = Vec::new();
    let user1_id = String::from_str("user-1");
    users.push((
        user1_id.clone(),
        UserSession {
            email: String::from_str("alice@example.com"),
            display_name: String::from_str("Alice Johnson"),
            server_url: String::from_str("bitwarden.com"),
            locked: true,
            vault_items: mock_vault_items_personal(),
        },
    ));
    users.push((
        String::from_str("user-2"),
        UserSession {
            email: String::from_str("alice@acmecorp.com"),
            display_name: String::from_str("Alice (Work)"),
            server_url: String::from_str("vault.acmecorp.com"),
            locked: true,
            vault_items: mock_vault_items_work(),
        },
    ));
    (users, user1_id)
}

} // verus!
