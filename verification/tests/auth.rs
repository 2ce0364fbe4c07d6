use slack_zc::api::{HttpMethod, RequestBody};
use slack_zc::auth::{
    exchange_oauth_code, exchange_oauth_code_request, Session, StoreDue, KEY_LEN, NONCE_LEN,
};
use slack_zc::json::Json;
use slack_zc::types::Workspace;

fn workspace(team_id: &str, name: &str, active: bool) -> Workspace {
    Workspace {
        team_id: team_id.to_string(),
        team_name: name.to_string(),
        xoxp_token: format!("xoxp-{}", team_id),
        xapp_token: format!("xapp-{}", team_id),
        user_id: Some("U1".to_string()),
        active,
    }
}

fn session(teams: &[(&str, bool)]) -> Session {
    Session {
        workspaces: teams.iter().map(|(id, active)| workspace(id, id, *active)).collect(),
        zeroclaw_bearer: Some("bearer".to_string()),
    }
}

fn summary(s: &Session) -> Vec<(&str, bool)> {
    s.workspaces.iter().map(|w| (w.team_id.as_str(), w.active)).collect()
}

#[test]
fn add_workspace_replaces_or_appends() {
    let mut s = session(&[("T1", true), ("T2", false)]);
    s.add_workspace(workspace("T2", "renamed", true));
    assert_eq!(summary(&s), vec![("T1", false), ("T2", true)]);
    assert_eq!(s.workspaces[1].team_name, "renamed");
    s.add_workspace(workspace("T3", "third", false));
    assert_eq!(summary(&s), vec![("T1", false), ("T2", true), ("T3", false)]);
    assert_eq!(s.zeroclaw_bearer.as_deref(), Some("bearer"));
    let mut empty = Session::new();
    empty.add_workspace(workspace("T1", "one", true));
    assert_eq!(summary(&empty), vec![("T1", true)]);
}

#[test]
fn add_workspace_keeps_exactly_one_active() {
    let mut first = Session::new();
    first.add_workspace(workspace("T1", "one", false));
    assert_eq!(summary(&first), vec![("T1", true)]);
    let mut replaced = session(&[("T1", false), ("T2", true), ("T3", false)]);
    replaced.add_workspace(workspace("T2", "again", false));
    assert_eq!(summary(&replaced), vec![("T1", true), ("T2", false), ("T3", false)]);
    assert_eq!(replaced.workspaces[1].team_name, "again");
    let mut joined = session(&[("T1", true), ("T2", false)]);
    joined.add_workspace(workspace("T3", "new", true));
    assert_eq!(summary(&joined), vec![("T1", false), ("T2", false), ("T3", true)]);
    let mut two = session(&[("T1", true), ("T2", true)]);
    two.add_workspace(workspace("T3", "new", false));
    assert_eq!(summary(&two), vec![("T1", true), ("T2", false), ("T3", false)]);
}

#[test]
fn exactly_one_team_is_active_after_a_switch() {
    let mut s = session(&[("T1", true), ("T2", false), ("T3", true)]);
    s.set_active_workspace("T2");
    assert_eq!(summary(&s), vec![("T1", false), ("T2", true), ("T3", false)]);
    assert_eq!(s.get_active_workspace().map(|w| w.team_id.as_str()), Some("T2"));
    assert_eq!(s.active_workspace_index(), Some(1));
    assert_eq!(s.workspaces[1].xoxp_token, "xoxp-T2");
    s.set_active_workspace("T9");
    assert_eq!(summary(&s), vec![("T1", false), ("T2", true), ("T3", false)]);
    assert_eq!(s.team_position("T3"), Some(2));
    assert_eq!(s.team_position("T9"), None);
    let mut twice = session(&[("T1", true), ("T2", false), ("T2", false)]);
    twice.set_active_workspace("T2");
    assert_eq!(summary(&twice), vec![("T1", false), ("T2", true), ("T2", false)]);
    let mut none = session(&[("T1", false)]);
    assert!(none.get_active_workspace().is_none());
    assert!(none.get_active_workspace_mut().is_none());
}

#[test]
fn active_workspace_can_be_changed_in_place() {
    let mut s = session(&[("T1", false), ("T2", true), ("T3", true)]);
    s.get_active_workspace_mut().expect("an active workspace").team_name = "changed".to_string();
    assert_eq!(s.workspaces[1].team_name, "changed");
    assert_eq!(s.workspaces[2].team_name, "T3");
}

#[test]
fn remove_workspace_activates_the_first_that_is_left() {
    let mut s = session(&[("T1", true), ("T2", false), ("T1", false), ("T3", false)]);
    assert!(s.remove_workspace("T1"));
    assert_eq!(summary(&s), vec![("T2", true), ("T3", false)]);
    assert_eq!(s.zeroclaw_bearer.as_deref(), Some("bearer"));
    assert!(!s.remove_workspace("T1"));
    assert_eq!(summary(&s), vec![("T2", true), ("T3", false)]);
    assert!(s.remove_workspace("T3"));
    assert!(s.remove_workspace("T2"));
    assert!(s.workspaces.is_empty());
    assert_eq!(s.zeroclaw_bearer, None);
    assert!(!s.remove_workspace("T2"));
}

#[test]
fn remove_workspace_leaves_the_active_one_alone() {
    let mut s = session(&[("A", false), ("B", true), ("C", false)]);
    assert!(s.remove_workspace("C"));
    assert_eq!(summary(&s), vec![("A", false), ("B", true)]);
    assert_eq!(s.zeroclaw_bearer.as_deref(), Some("bearer"));
    let mut first = session(&[("A", false), ("B", true), ("C", false)]);
    assert!(first.remove_workspace("A"));
    assert_eq!(summary(&first), vec![("B", true), ("C", false)]);
}

#[test]
fn remove_workspace_keeps_exactly_one_active() {
    let mut active_leaves = session(&[("A", false), ("B", true), ("C", false)]);
    assert!(active_leaves.remove_workspace("B"));
    assert_eq!(summary(&active_leaves), vec![("A", true), ("C", false)]);
    let mut none_active = session(&[("A", false), ("B", false), ("C", false)]);
    assert!(none_active.remove_workspace("A"));
    assert_eq!(summary(&none_active), vec![("B", true), ("C", false)]);
    let mut two_active = session(&[("A", false), ("B", true), ("C", true), ("D", false)]);
    assert!(two_active.remove_workspace("D"));
    assert_eq!(summary(&two_active), vec![("A", false), ("B", true), ("C", false)]);
    let mut untouched = session(&[("A", true), ("B", true)]);
    assert!(!untouched.remove_workspace("Z"));
    assert_eq!(summary(&untouched), vec![("A", true), ("B", true)]);
}

#[test]
fn clear_all_forgets_everything() {
    let mut s = session(&[("T1", true)]);
    assert_eq!(s.clear_all(), StoreDue);
    assert!(s.workspaces.is_empty());
    assert_eq!(s.zeroclaw_bearer, None);
}

#[test]
fn rotate_token_replaces_both_credentials() {
    let mut s = session(&[("T1", true), ("T2", false)]);
    assert_eq!(s.rotate_token("T2", "xoxp-new", "xapp-new").unwrap(), StoreDue);
    assert_eq!(s.workspaces[1].xoxp_token, "xoxp-new");
    assert_eq!(s.workspaces[1].xapp_token, "xapp-new");
    assert_eq!(s.workspaces[1].team_name, "T2");
    assert!(!s.workspaces[1].active);
    assert_eq!(s.workspaces[0].xoxp_token, "xoxp-T1");
    let e = s.rotate_token("T9", "a", "b").unwrap_err();
    assert_eq!(e.message, "Workspace not found");
    assert_eq!(s.workspaces[0].xoxp_token, "xoxp-T1");
}

#[test]
fn sealed_sessions_open_again() {
    assert_eq!((KEY_LEN, NONCE_LEN), (32, 12));
    let key = vec![7u8; 32];
    let plaintext = b"{\"workspaces\":[]}".to_vec();
    let blob = Session::encrypt(&key, &plaintext).unwrap();
    assert_eq!(blob.len(), 12 + plaintext.len() + 16);
    assert_ne!(&blob[12..12 + plaintext.len()], &plaintext[..]);
    assert_eq!(Session::decrypt(&key, &blob).unwrap(), plaintext);
    assert_eq!(Session::try_decrypt(&key, &blob).unwrap(), plaintext);
    let other = Session::encrypt(&key, &plaintext).unwrap();
    assert_ne!(blob[..12], other[..12]);
}

#[test]
fn encrypt_with_is_aes_256_gcm_under_the_nonce() {
    // The first test vector of the GCM specification for a 256-bit key:
    // an all-zero key and nonce and an empty plaintext give only the tag.
    let key = vec![0u8; 32];
    let nonce = vec![0u8; 12];
    let blob = Session::encrypt_with(&key, &nonce, &Vec::new()).unwrap();
    let tag = [
        0x53, 0x0f, 0x8a, 0xfb, 0xc7, 0x45, 0x36, 0xb9, 0xa9, 0x63, 0xb4, 0xf1, 0xc4, 0xcb, 0x73,
        0x8b,
    ];
    assert_eq!(&blob[..12], &nonce[..]);
    assert_eq!(&blob[12..], &tag[..]);
    assert_eq!(Session::decrypt(&key, &blob).unwrap(), Vec::<u8>::new());
}

#[test]
fn tampered_and_short_blobs_are_refused() {
    let key = vec![7u8; 32];
    let mut blob = Session::encrypt(&key, &b"secret".to_vec()).unwrap();
    let last = blob.len() - 1;
    blob[last] ^= 1;
    assert_eq!(Session::decrypt(&key, &blob).unwrap_err().message, "Decryption failed");
    assert_eq!(Session::decrypt(&key, &vec![0u8; 11]).unwrap_err().message, "Invalid ciphertext");
    assert_eq!(Session::decrypt(&key, &vec![0u8; 12]).unwrap_err().message, "Decryption failed");
    assert_eq!(Session::decrypt(&vec![8u8; 32], &Session::encrypt(&key, &vec![1]).unwrap()).unwrap_err().message, "Decryption failed");
    assert_eq!(Session::try_decrypt(&vec![7u8; 31], &blob).unwrap_err().message, "Decryption failed");
    assert_eq!(Session::encrypt(&vec![7u8; 31], &vec![1]).unwrap_err().message, "Encryption failed");
}

#[test]
fn stored_keys_are_kept_and_bad_ones_replaced() {
    let kept = Session::get_or_create_key(Some(vec![9u8; 32])).unwrap();
    assert!(!kept.created);
    assert_eq!(kept.key, vec![9u8; 32]);
    let fresh = Session::get_or_create_key(None).unwrap();
    assert!(fresh.created);
    assert_eq!(fresh.key.len(), 32);
    let replaced = Session::get_or_create_key(Some(vec![9u8; 16])).unwrap();
    assert!(replaced.created);
    assert_eq!(replaced.key.len(), 32);
    assert_ne!(fresh.key, replaced.key);
    assert_eq!(Session::fresh_nonce().unwrap().len(), 12);
}

#[test]
fn oauth_exchange_request_and_answer() {
    let r = exchange_oauth_code_request("id", "secret", "code", "http://localhost:3000");
    assert_eq!(r.method, HttpMethod::Post);
    assert_eq!(r.url, "https://slack.com/api/oauth.v2.access");
    assert!(r.bearer.is_none());
    match &r.body {
        RequestBody::Form(fields) => {
            let pairs: Vec<(&str, &str)> =
                fields.iter().map(|p| (p.name.as_str(), p.value.as_str())).collect();
            assert_eq!(
                pairs,
                vec![
                    ("client_id", "id"),
                    ("client_secret", "secret"),
                    ("code", "code"),
                    ("redirect_uri", "http://localhost:3000")
                ]
            );
        }
        other => panic!("no form: {:?}", other),
    }
    let full = r#"{"ok":true,"access_token":"xapp-1","authed_user":{"id":"U1","access_token":"xoxp-1"},"team":{"id":"T1","name":"Team"}}"#;
    let grant = exchange_oauth_code(&Json::parse(full).unwrap()).unwrap();
    assert!(grant.ok);
    let ws = grant.into_workspace();
    assert_eq!(ws.team_id, "T1");
    assert_eq!(ws.team_name, "Team");
    assert_eq!(ws.xoxp_token, "xoxp-1");
    assert_eq!(ws.xapp_token, "xapp-1");
    assert_eq!(ws.user_id.as_deref(), Some("U1"));
    assert!(ws.active);
    let refused = full.replace("true", "false");
    assert_eq!(
        exchange_oauth_code(&Json::parse(&refused).unwrap()).unwrap_err().message,
        "OAuth exchange failed"
    );
    for broken in [
        r#"{"ok":false,"error":"invalid_code"}"#,
        r#"{"ok":true,"access_token":"x","authed_user":{"id":"U1"},"team":{"id":"T1","name":"Team"}}"#,
        r#"{"ok":true,"access_token":"x","authed_user":{"id":"U1","access_token":"y"},"team":{"id":"T1"}}"#,
    ] {
        assert_eq!(
            exchange_oauth_code(&Json::parse(broken).unwrap()).unwrap_err().message,
            "error decoding response body"
        );
    }
}
