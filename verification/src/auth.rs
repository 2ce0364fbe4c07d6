//! The session: the connected workspaces and the agent's bearer token,
//! how it is sealed for storage, and how a workspace is won by OAuth.

use crate::api::{
    endpoint, endpoint_url, is_api_error, api_error, param, param_views, ApiRequest, HttpMethod,
    Param, RequestBody,
};
use crate::json::Json;
use crate::retry::CallError;
use crate::types::{Workspace, WorkspaceView};
use aes_gcm::aead::{Aead, KeyInit};
use rand::Rng;
use vstd::prelude::*;

verus! {

/// The length of the key that seals a session, in bytes.
pub const KEY_LEN: usize = 32;

/// The length of the nonce that a sealed session starts with, in bytes.
pub const NONCE_LEN: usize = 12;

/// What AES-256-GCM gives for `plaintext` under `key` and `nonce`: the
/// ciphertext with its tag, or `None` where it refuses.
pub uninterp spec fn sealed(key: Seq<u8>, nonce: Seq<u8>, plaintext: Seq<u8>) -> Option<Seq<u8>>;

/// What AES-256-GCM gives for `ciphertext` under `key` and `nonce`: the
/// plaintext, or `None` where the ciphertext is not authentic.
pub uninterp spec fn unsealed(key: Seq<u8>, nonce: Seq<u8>, ciphertext: Seq<u8>) -> Option<
    Seq<u8>,
>;

/// The views of optional byte vectors.
pub open spec fn opt_bytes(v: Option<Vec<u8>>) -> Option<Seq<u8>> {
    match v {
        Some(v) => Some(v@),
        None => None,
    }
}

/// Encrypts with `aes_gcm::Aes256Gcm` through `Aead::encrypt`. The result
/// depends on key, nonce and plaintext alone; the contract names it.
#[verifier::external_body]
fn aes_encrypt(key: &Vec<u8>, nonce: &Vec<u8>, plaintext: &Vec<u8>) -> (r: Option<Vec<u8>>)
    requires
        key@.len() == KEY_LEN,
        nonce@.len() == NONCE_LEN,
    ensures
        opt_bytes(r) == sealed(key@, nonce@, plaintext@),
{
    let cipher = aes_gcm::Aes256Gcm::new(aes_gcm::Key::<aes_gcm::Aes256Gcm>::from_slice(key));
    cipher.encrypt(aes_gcm::Nonce::from_slice(nonce), plaintext.as_slice()).ok()
}

/// Decrypts with `aes_gcm::Aes256Gcm` through `Aead::decrypt`. The result
/// depends on key, nonce and ciphertext alone; the contract names it.
#[verifier::external_body]
fn aes_decrypt(key: &Vec<u8>, nonce: &Vec<u8>, ciphertext: &Vec<u8>) -> (r: Option<Vec<u8>>)
    requires
        key@.len() == KEY_LEN,
        nonce@.len() == NONCE_LEN,
    ensures
        opt_bytes(r) == unsealed(key@, nonce@, ciphertext@),
{
    let cipher = aes_gcm::Aes256Gcm::new(aes_gcm::Key::<aes_gcm::Aes256Gcm>::from_slice(key));
    cipher.decrypt(aes_gcm::Nonce::from_slice(nonce), ciphertext.as_slice()).ok()
}

/// Draws `len` random bytes with `rand::Rng::try_fill` on the thread's
/// generator; `None` where the generator fails. Of the bytes only their
/// number is known.
#[verifier::external_body]
fn random_bytes(len: usize) -> (r: Option<Vec<u8>>)
    ensures
        r matches Some(bytes) ==> bytes@.len() == len,
{
    let mut bytes = vec![0u8; len];
    match rand::thread_rng().try_fill(&mut bytes[..]) {
        Ok(()) => Some(bytes),
        Err(_) => None,
    }
}

/// The bytes `v[from..to]`.
fn slice_bytes(v: &Vec<u8>, from: usize, to: usize) -> (out: Vec<u8>)
    requires
        from <= to <= v.len(),
    ensures
        out@ == v@.subrange(from as int, to as int),
{
    let mut out: Vec<u8> = Vec::new();
    let mut i: usize = from;
    assert(out@ =~= v@.subrange(from as int, from as int));
    while i < to
        invariant
            from <= i <= to <= v.len(),
            out@ == v@.subrange(from as int, i as int),
        decreases to - i,
    {
        out.push(v[i]);
        assert(v@.subrange(from as int, i as int).push(v@[i as int]) =~= v@.subrange(
            from as int,
            i + 1,
        ));
        i += 1;
    }
    out
}

/// The key to seal with, and whether it is new and has to be stored.
#[derive(Debug)]
pub struct KeyChoice {
    pub key: Vec<u8>,
    pub created: bool,
}

/// The views of a sequence of workspaces.
pub open spec fn workspace_views(v: Seq<Workspace>) -> Seq<WorkspaceView> {
    v.map_values(|w: Workspace| w@)
}

/// The least index at or after `from` of a workspace of the team
/// `team_id`.
pub open spec fn team_index(list: Seq<WorkspaceView>, team_id: Seq<char>, from: int) -> Option<
    int,
>
    decreases list.len() - from,
{
    if from < 0 || from >= list.len() {
        None
    } else if list[from].team_id == team_id {
        Some(from)
    } else {
        team_index(list, team_id, from + 1)
    }
}

/// The least index at or after `from` of an active workspace.
pub open spec fn active_index(list: Seq<WorkspaceView>, from: int) -> Option<int>
    decreases list.len() - from,
{
    if from < 0 || from >= list.len() {
        None
    } else if list[from].active {
        Some(from)
    } else {
        active_index(list, from + 1)
    }
}

/// The list with `workspace` in the place of the first workspace of its
/// team, or at the end where its team is new.
pub open spec fn with_workspace(list: Seq<WorkspaceView>, workspace: WorkspaceView) -> Seq<
    WorkspaceView,
> {
    match team_index(list, workspace.team_id, 0) {
        Some(i) => list.update(i, workspace),
        None => list.push(workspace),
    }
}

/// The list without the workspaces of the team `team_id`.
pub open spec fn without_team(list: Seq<WorkspaceView>, team_id: Seq<char>) -> Seq<WorkspaceView>
    decreases list.len(),
{
    if list.len() == 0 {
        Seq::empty()
    } else {
        let front = without_team(list.drop_last(), team_id);
        if list.last().team_id == team_id {
            front
        } else {
            front.push(list.last())
        }
    }
}

/// Removing a team leaves the list no longer, and as long only where the
/// team had no workspace in it.
pub proof fn lemma_without_team(list: Seq<WorkspaceView>, team_id: Seq<char>)
    ensures
        without_team(list, team_id).len() <= list.len(),
        without_team(list, team_id).len() == list.len() ==> without_team(list, team_id) == list,
        forall|i: int|
            0 <= i < without_team(list, team_id).len() ==> (#[trigger] without_team(
                list,
                team_id,
            )[i]).team_id != team_id,
    decreases list.len(),
{
    if list.len() > 0 {
        lemma_without_team(list.drop_last(), team_id);
        if list.last().team_id != team_id {
            if without_team(list, team_id).len() == list.len() {
                assert(without_team(list, team_id) =~= list);
            }
        }
    }
}

/// The list in which the workspace at `index` is active and no other.
pub open spec fn only_active(list: Seq<WorkspaceView>, index: int) -> Seq<WorkspaceView> {
    Seq::new(list.len(), |i: int| WorkspaceView { active: i == index, ..list[i] })
}

/// The workspace at `index` is active, and no other of the list.
pub open spec fn active_only_at(list: Seq<WorkspaceView>, index: int) -> bool {
    &&& 0 <= index < list.len()
    &&& forall|i: int| 0 <= i < list.len() ==> (#[trigger] list[i]).active == (i == index)
}

/// Exactly one workspace of the list is active.
pub open spec fn one_active(list: Seq<WorkspaceView>) -> bool {
    exists|a: int| active_only_at(list, a)
}

/// The list with exactly one workspace active: the first that is active,
/// or the first of all where none is.
pub open spec fn settled(list: Seq<WorkspaceView>) -> Seq<WorkspaceView> {
    match active_index(list, 0) {
        Some(a) => only_active(list, a),
        None => only_active(list, 0),
    }
}

/// What is left when the team `team_id` leaves: the workspaces of the
/// other teams in their order, with one of them active: the first that
/// was active, or the first of all where none was.
pub open spec fn after_removal(list: Seq<WorkspaceView>, team_id: Seq<char>) -> Seq<
    WorkspaceView,
> {
    settled(without_team(list, team_id))
}

/// Where a workspace of the team `team_id` stands once it has joined: in
/// the place of the first workspace of its team, or at the end.
pub open spec fn place_of(list: Seq<WorkspaceView>, team_id: Seq<char>) -> int {
    match team_index(list, team_id, 0) {
        Some(i) => i,
        None => list.len() as int,
    }
}

/// The list after `workspace` has joined it, in the place of the first
/// workspace of its team or at the end. A workspace that comes active is
/// the only active one afterwards; with one that does not, the first
/// that is active stays so, and where none is the first of all becomes
/// active.
pub open spec fn after_joining(list: Seq<WorkspaceView>, workspace: WorkspaceView) -> Seq<
    WorkspaceView,
> {
    let placed = with_workspace(list, workspace);
    if workspace.active {
        only_active(placed, place_of(list, workspace.team_id))
    } else {
        settled(placed)
    }
}

/// The list after a switch to the team `team_id`: the first workspace of
/// the team is the only active one. A team without a workspace in the
/// list changes nothing.
pub open spec fn after_switch(list: Seq<WorkspaceView>, team_id: Seq<char>) -> Seq<WorkspaceView> {
    match team_index(list, team_id, 0) {
        Some(i) => only_active(list, i),
        None => list,
    }
}

/// The first workspace of a team at or after `from` lies in the list and
/// belongs to the team.
pub proof fn lemma_team_index(list: Seq<WorkspaceView>, team_id: Seq<char>, from: int)
    requires
        0 <= from,
    ensures
        team_index(list, team_id, from) matches Some(i) ==> from <= i < list.len()
            && list[i].team_id == team_id,
    decreases list.len() - from,
{
    if from < list.len() && list[from].team_id != team_id {
        lemma_team_index(list, team_id, from + 1);
    }
}

/// The first active workspace at or after `from` is active and lies in
/// the list, and none before it is active; where there is none, no
/// workspace from `from` on is active.
pub proof fn lemma_active_index(list: Seq<WorkspaceView>, from: int)
    requires
        0 <= from,
    ensures
        match active_index(list, from) {
            Some(a) => from <= a < list.len() && list[a].active && forall|k: int|
                from <= k < a ==> !(#[trigger] list[k]).active,
            None => forall|k: int| from <= k < list.len() ==> !(#[trigger] list[k]).active,
        },
    decreases list.len() - from,
{
    if from < list.len() && !list[from].active {
        lemma_active_index(list, from + 1);
    }
}

/// With one workspace of the list made the only active one, exactly one
/// is active.
pub proof fn lemma_one_is_active(list: Seq<WorkspaceView>, index: int)
    requires
        0 <= index < list.len(),
    ensures
        one_active(only_active(list, index)),
{
    assert(active_only_at(only_active(list, index), index));
}

/// A list that is settled has exactly one active workspace, unless it is
/// empty; one that has exactly one is left as it is.
pub proof fn lemma_settled(list: Seq<WorkspaceView>)
    ensures
        settled(list).len() == list.len(),
        list.len() > 0 ==> one_active(settled(list)),
        one_active(list) ==> settled(list) == list,
{
    lemma_active_index(list, 0);
    if list.len() > 0 {
        match active_index(list, 0) {
            Some(a) => lemma_one_is_active(list, a),
            None => lemma_one_is_active(list, 0),
        }
    }
    if one_active(list) {
        let a = choose|a: int| active_only_at(list, a);
        assert(list[a].active);
        assert(active_index(list, 0) == Some(a)) by {
            match active_index(list, 0) {
                Some(b) => {
                    assert(list[b].active);
                },
                None => {},
            }
        }
        assert(only_active(list, a) =~= list);
    }
}

/// After a team has left a session, exactly one of the workspaces that
/// are left is active. Where exactly one of them was active before, they
/// are left as they were.
pub proof fn lemma_removal_keeps_one_active(list: Seq<WorkspaceView>, team_id: Seq<char>)
    ensures
        after_removal(list, team_id).len() == without_team(list, team_id).len(),
        without_team(list, team_id).len() > 0 ==> one_active(after_removal(list, team_id)),
        one_active(without_team(list, team_id)) ==> after_removal(list, team_id) == without_team(
            list,
            team_id,
        ),
{
    lemma_settled(without_team(list, team_id));
}

/// After a workspace has joined a session, exactly one workspace is
/// active, and the one that joined stands in its place with what it
/// brought, but for the flag.
pub proof fn lemma_joining_keeps_one_active(list: Seq<WorkspaceView>, workspace: WorkspaceView)
    ensures
        one_active(after_joining(list, workspace)),
        after_joining(list, workspace).len() == with_workspace(list, workspace).len(),
        0 <= place_of(list, workspace.team_id) < after_joining(list, workspace).len(),
        after_joining(list, workspace)[place_of(list, workspace.team_id)] == (WorkspaceView {
            active: after_joining(list, workspace)[place_of(list, workspace.team_id)].active,
            ..workspace
        }),
        workspace.active ==> after_joining(list, workspace)[place_of(
            list,
            workspace.team_id,
        )].active,
{
    let placed = with_workspace(list, workspace);
    lemma_team_index(list, workspace.team_id, 0);
    lemma_settled(placed);
    lemma_active_index(placed, 0);
    if workspace.active {
        lemma_one_is_active(placed, place_of(list, workspace.team_id));
    }
}

/// After a switch to a team of the session, exactly one workspace is
/// active and it belongs to that team; a switch to any other team
/// changes nothing.
pub proof fn lemma_switch_keeps_one_active(list: Seq<WorkspaceView>, team_id: Seq<char>)
    ensures
        match team_index(list, team_id, 0) {
            Some(i) => one_active(after_switch(list, team_id)) && after_switch(
                list,
                team_id,
            )[i].active && after_switch(list, team_id)[i].team_id == team_id,
            None => after_switch(list, team_id) == list,
        },
{
    lemma_team_index(list, team_id, 0);
    match team_index(list, team_id, 0) {
        Some(i) => lemma_one_is_active(list, i),
        None => {},
    }
}

/// The duty to store the session. A change that has to reach the disk
/// hands it to its caller, who stores the session now.
#[must_use]
#[derive(Clone, Copy, Debug, PartialEq, Eq)]
pub struct StoreDue;

/// The session: the connected workspaces and the bearer token of the
/// agent.
#[derive(Debug)]
pub struct Session {
    pub workspaces: Vec<Workspace>,
    pub zeroclaw_bearer: Option<String>,
}

/// What the answer to an OAuth exchange carries.
#[derive(Debug)]
pub struct OAuthResponse {
    pub ok: bool,
    pub access_token: String,
    pub authed_user: AuthedUser,
    pub team: Team,
}

/// The user who authorised the client, and the user's token.
#[derive(Debug)]
pub struct AuthedUser {
    pub id: String,
    pub access_token: String,
}

/// The team that was authorised.
#[derive(Debug)]
pub struct Team {
    pub id: String,
    pub name: String,
}

pub struct OAuthView {
    pub ok: bool,
    pub access_token: Seq<char>,
    pub user_id: Seq<char>,
    pub user_token: Seq<char>,
    pub team_id: Seq<char>,
    pub team_name: Seq<char>,
}

impl View for OAuthResponse {
    type V = OAuthView;

    open spec fn view(&self) -> OAuthView {
        OAuthView {
            ok: self.ok,
            access_token: self.access_token@,
            user_id: self.authed_user.id@,
            user_token: self.authed_user.access_token@,
            team_id: self.team.id@,
            team_name: self.team.name@,
        }
    }
}

/// What an answer to an OAuth exchange holds, where it holds all of it: a
/// boolean `ok`, a string `access_token`, an `authed_user` with the
/// strings `id` and `access_token`, and a `team` with the strings `id` and
/// `name`.
pub open spec fn oauth_fields(body: Json) -> Option<OAuthView> {
    match (
        body.bool_field("ok"@),
        body.text_field("access_token"@),
        body.field("authed_user"@),
        body.field("team"@),
    ) {
        (Some(ok), Some(access_token), Some(user), Some(team)) => match (
            user.text_field("id"@),
            user.text_field("access_token"@),
            team.text_field("id"@),
            team.text_field("name"@),
        ) {
            (Some(user_id), Some(user_token), Some(team_id), Some(team_name)) => Some(
                OAuthView { ok, access_token, user_id, user_token, team_id, team_name },
            ),
            _ => None,
        },
        _ => None,
    }
}

/// What the answer to an OAuth exchange means: the grant, or the message
/// of the failure. An answer that lacks a part cannot be read; one that
/// does not report success is refused.
pub open spec fn oauth_outcome(body: Json) -> Result<OAuthView, Seq<char>> {
    match oauth_fields(body) {
        None => Err("error decoding response body"@),
        Some(grant) => if grant.ok {
            Ok(grant)
        } else {
            Err("OAuth exchange failed"@)
        },
    }
}

/// The workspace that a grant connects: active, with the user's token as
/// user credential and the grant's token as application credential.
pub open spec fn granted_workspace(grant: OAuthView) -> WorkspaceView {
    WorkspaceView {
        team_id: grant.team_id,
        team_name: grant.team_name,
        xoxp_token: grant.user_token,
        xapp_token: grant.access_token,
        user_id: Some(grant.user_id),
        active: true,
    }
}

/// The request that exchanges an OAuth code for the tokens of a workspace.
pub fn exchange_oauth_code_request(
    client_id: &str,
    client_secret: &str,
    code: &str,
    redirect_uri: &str,
) -> (r: ApiRequest)
    ensures
        r.method == HttpMethod::Post,
        r.url@ == endpoint_url("oauth.v2.access"@),
        r.bearer is None,
        r.query@.len() == 0,
        r.body matches RequestBody::Form(fields) && param_views(fields@) == seq![
            ("client_id"@, client_id@),
            ("client_secret"@, client_secret@),
            ("code"@, code@),
            ("redirect_uri"@, redirect_uri@),
        ],
{
    let mut fields: Vec<Param> = Vec::new();
    fields.push(param("client_id", client_id));
    fields.push(param("client_secret", client_secret));
    fields.push(param("code", code));
    fields.push(param("redirect_uri", redirect_uri));
    assert(param_views(fields@) =~= seq![
        ("client_id"@, client_id@),
        ("client_secret"@, client_secret@),
        ("code"@, code@),
        ("redirect_uri"@, redirect_uri@),
    ]);
    ApiRequest {
        method: HttpMethod::Post,
        url: endpoint("oauth.v2.access"),
        bearer: None,
        query: Vec::new(),
        body: RequestBody::Form(fields),
    }
}

/// Reads the answer to an OAuth exchange.
pub fn exchange_oauth_code(body: &Json) -> (r: Result<OAuthResponse, CallError>)
    ensures
        match r {
            Ok(grant) => oauth_outcome(*body) == Ok::<OAuthView, Seq<char>>(grant@),
            Err(e) => oauth_outcome(*body) == Err::<OAuthView, Seq<char>>(e.message@)
                && e.transport is None,
        },
{
    let parts = match (
        body.get_bool("ok"),
        body.get_string("access_token"),
        body.get("authed_user"),
        body.get("team"),
    ) {
        (Some(ok), Some(access_token), Some(user), Some(team)) => match (
            user.get_string("id"),
            user.get_string("access_token"),
            team.get_string("id"),
            team.get_string("name"),
        ) {
            (Some(user_id), Some(user_token), Some(team_id), Some(team_name)) => Some(
                OAuthResponse {
                    ok,
                    access_token,
                    authed_user: AuthedUser { id: user_id, access_token: user_token },
                    team: Team { id: team_id, name: team_name },
                },
            ),
            _ => None,
        },
        _ => None,
    };
    match parts {
        None => Err(api_error("error decoding response body".to_owned())),
        Some(grant) => if grant.ok {
            Ok(grant)
        } else {
            Err(api_error("OAuth exchange failed".to_owned()))
        },
    }
}

impl OAuthResponse {
    /// The workspace that the grant connects.
    pub fn into_workspace(self) -> (r: Workspace)
        ensures
            r@ == granted_workspace(self@),
    {
        Workspace {
            team_id: self.team.id,
            team_name: self.team.name,
            xoxp_token: self.authed_user.access_token,
            xapp_token: self.access_token,
            user_id: Some(self.authed_user.id),
            active: true,
        }
    }
}

impl Session {
    /// The session without workspaces and without bearer token.
    pub fn new() -> (r: Session)
        ensures
            r.workspaces@.len() == 0,
            r.zeroclaw_bearer is None,
    {
        Session { workspaces: Vec::new(), zeroclaw_bearer: None }
    }

    /// The key to seal with: the stored one where it has the right
    /// length, else a fresh one that the caller has to store. `None` where
    /// a fresh key is needed and the random generator fails.
    pub fn get_or_create_key(stored: Option<Vec<u8>>) -> (r: Option<KeyChoice>)
        ensures
            match r {
                Some(choice) => choice.key@.len() == KEY_LEN && choice.created == !(
                stored matches Some(k) && k@.len() == KEY_LEN) && (!choice.created
                    ==> stored == Some(choice.key)),
                None => !(stored matches Some(k) && k@.len() == KEY_LEN),
            },
    {
        match stored {
            Some(key) => if key.len() == KEY_LEN {
                return Some(KeyChoice { key, created: false });
            },
            None => {},
        }
        match random_bytes(KEY_LEN) {
            Some(key) => Some(KeyChoice { key, created: true }),
            None => None,
        }
    }

    /// A fresh nonce; `None` where the random generator fails.
    pub fn fresh_nonce() -> (r: Option<Vec<u8>>)
        ensures
            r matches Some(nonce) ==> nonce@.len() == NONCE_LEN,
    {
        random_bytes(NONCE_LEN)
    }

    /// What sealing gives: the nonce, then the ciphertext.
    pub open spec fn encrypted(key: Seq<u8>, nonce: Seq<u8>, plaintext: Seq<u8>) -> Option<
        Seq<u8>,
    > {
        match sealed(key, nonce, plaintext) {
            Some(ciphertext) => Some(nonce + ciphertext),
            None => None,
        }
    }

    /// What opening gives: the plaintext of what follows the nonce, or the
    /// message of the failure.
    pub open spec fn decrypted(key: Seq<u8>, blob: Seq<u8>) -> Result<Seq<u8>, Seq<char>> {
        if blob.len() < NONCE_LEN {
            Err("Invalid ciphertext"@)
        } else {
            match unsealed(
                key,
                blob.subrange(0, NONCE_LEN as int),
                blob.subrange(NONCE_LEN as int, blob.len() as int),
            ) {
                Some(plaintext) => Ok(plaintext),
                None => Err("Decryption failed"@),
            }
        }
    }

    /// Seals `plaintext` under `key` with `nonce`: the result is the
    /// nonce followed by the ciphertext.
    pub fn encrypt_with(key: &Vec<u8>, nonce: &Vec<u8>, plaintext: &Vec<u8>) -> (r: Result<
        Vec<u8>,
        CallError,
    >)
        requires
            key@.len() == KEY_LEN,
            nonce@.len() == NONCE_LEN,
        ensures
            match r {
                Ok(blob) => Self::encrypted(key@, nonce@, plaintext@) == Some(blob@),
                Err(e) => Self::encrypted(key@, nonce@, plaintext@) is None && is_api_error(
                    e,
                    "Encryption failed"@,
                ),
            },
    {
        match aes_encrypt(key, nonce, plaintext) {
            Some(ciphertext) => {
                let mut blob = slice_bytes(nonce, 0, nonce.len());
                let mut i: usize = 0;
                assert(blob@ =~= nonce@ + ciphertext@.take(0));
                while i < ciphertext.len()
                    invariant
                        i <= ciphertext.len(),
                        blob@ == nonce@ + ciphertext@.take(i as int),
                    decreases ciphertext.len() - i,
                {
                    blob.push(ciphertext[i]);
                    assert(blob@ =~= nonce@ + ciphertext@.take(i + 1));
                    i += 1;
                }
                assert(ciphertext@.take(ciphertext.len() as int) =~= ciphertext@);
                Ok(blob)
            },
            None => Err(api_error("Encryption failed".to_owned())),
        }
    }

    /// Seals `plaintext` under `key` with a fresh nonce. The result starts
    /// with the nonce that was drawn.
    pub fn encrypt(key: &Vec<u8>, plaintext: &Vec<u8>) -> (r: Result<Vec<u8>, CallError>)
        ensures
            match r {
                Ok(blob) => key@.len() == KEY_LEN && exists|nonce: Seq<u8>|
                    nonce.len() == NONCE_LEN && Self::encrypted(key@, nonce, plaintext@) == Some(
                        blob@,
                    ),
                Err(e) => is_api_error(e, "Encryption failed"@),
            },
    {
        if key.len() != KEY_LEN {
            return Err(api_error("Encryption failed".to_owned()));
        }
        match Self::fresh_nonce() {
            Some(nonce) => Self::encrypt_with(key, &nonce, plaintext),
            None => Err(api_error("Encryption failed".to_owned())),
        }
    }

    /// Opens a sealed session: the first bytes are the nonce, the rest is
    /// the ciphertext.
    pub fn decrypt(key: &Vec<u8>, blob: &Vec<u8>) -> (r: Result<Vec<u8>, CallError>)
        requires
            key@.len() == KEY_LEN,
        ensures
            match r {
                Ok(plaintext) => Self::decrypted(key@, blob@) == Ok::<Seq<u8>, Seq<char>>(
                    plaintext@,
                ),
                Err(e) => Self::decrypted(key@, blob@) == Err::<Seq<u8>, Seq<char>>(e.message@)
                    && e.transport is None,
            },
    {
        if blob.len() < NONCE_LEN {
            return Err(api_error("Invalid ciphertext".to_owned()));
        }
        let nonce = slice_bytes(blob, 0, NONCE_LEN);
        let ciphertext = slice_bytes(blob, NONCE_LEN, blob.len());
        match aes_decrypt(key, &nonce, &ciphertext) {
            Some(plaintext) => Ok(plaintext),
            None => Err(api_error("Decryption failed".to_owned())),
        }
    }

    /// Opens a sealed session under a key of any length: a key of the
    /// wrong length opens nothing.
    pub fn try_decrypt(key: &Vec<u8>, blob: &Vec<u8>) -> (r: Result<Vec<u8>, CallError>)
        ensures
            match r {
                Ok(plaintext) => key@.len() == KEY_LEN && Self::decrypted(key@, blob@) == Ok::<
                    Seq<u8>,
                    Seq<char>,
                >(plaintext@),
                Err(e) => e.transport is None && (key@.len() == KEY_LEN ==> Self::decrypted(
                    key@,
                    blob@,
                ) == Err::<Seq<u8>, Seq<char>>(e.message@)) && (key@.len() != KEY_LEN
                    ==> e.message@ == "Decryption failed"@),
            },
    {
        if key.len() != KEY_LEN {
            return Err(api_error("Decryption failed".to_owned()));
        }
        Self::decrypt(key, blob)
    }

    /// The index of the first workspace of the team `team_id`.
    pub fn team_position(&self, team_id: &str) -> (r: Option<usize>)
        ensures
            match r {
                Some(i) => i < self.workspaces@.len() && team_index(
                    workspace_views(self.workspaces@),
                    team_id@,
                    0,
                ) == Some(i as int),
                None => team_index(workspace_views(self.workspaces@), team_id@, 0) is None,
            },
    {
        let wanted = team_id.to_owned();
        let ghost list = workspace_views(self.workspaces@);
        let mut i: usize = 0;
        while i < self.workspaces.len()
            invariant
                i <= self.workspaces.len(),
                wanted@ == team_id@,
                list == workspace_views(self.workspaces@),
                team_index(list, team_id@, 0) == team_index(list, team_id@, i as int),
            decreases self.workspaces.len() - i,
        {
            assert(list[i as int] == self.workspaces@[i as int]@);
            if self.workspaces[i].team_id == wanted {
                return Some(i);
            }
            i += 1;
        }
        None
    }

    /// Puts `workspace` in the place of the first workspace of its team,
    /// or at the end where its team is new. Exactly one workspace is
    /// active afterwards: the one that joined where it comes active, else
    /// the first that is active, or the first of all where none is.
    pub fn add_workspace(&mut self, workspace: Workspace)
        ensures
            workspace_views(final(self).workspaces@) == after_joining(
                workspace_views(old(self).workspaces@),
                workspace@,
            ),
            one_active(workspace_views(final(self).workspaces@)),
            final(self).zeroclaw_bearer == old(self).zeroclaw_bearer,
    {
        let ghost list = workspace_views(self.workspaces@);
        let comes_active = workspace.active;
        let place = match self.team_position(workspace.team_id.as_str()) {
            Some(i) => {
                self.workspaces.set(i, workspace);
                assert(workspace_views(self.workspaces@) =~= list.update(i as int, workspace@));
                i
            },
            None => {
                self.workspaces.push(workspace);
                assert(workspace_views(self.workspaces@) =~= list.push(workspace@));
                self.workspaces.len() - 1
            },
        };
        let chosen = if comes_active {
            place
        } else {
            match self.active_workspace_index() {
                Some(a) => a,
                None => 0,
            }
        };
        self.keep_one_active(chosen);
        proof {
            lemma_joining_keeps_one_active(list, workspace@);
        }
    }

    /// Makes the first workspace of the team `team_id` the only active
    /// one. A team without a workspace in the session changes nothing.
    pub fn set_active_workspace(&mut self, team_id: &str)
        ensures
            workspace_views(final(self).workspaces@) == after_switch(
                workspace_views(old(self).workspaces@),
                team_id@,
            ),
            final(self).zeroclaw_bearer == old(self).zeroclaw_bearer,
    {
        match self.team_position(team_id) {
            Some(i) => self.keep_one_active(i),
            None => {},
        }
    }

    /// The first active workspace.
    pub fn get_active_workspace(&self) -> (r: Option<&Workspace>)
        ensures
            match r {
                Some(w) => active_index(workspace_views(self.workspaces@), 0) matches Some(i)
                    && self.workspaces@[i] == *w,
                None => active_index(workspace_views(self.workspaces@), 0) is None,
            },
    {
        match self.active_workspace_index() {
            Some(i) => Some(&self.workspaces[i]),
            None => None,
        }
    }

    /// The first active workspace, for changes in place.
    pub fn get_active_workspace_mut(&mut self) -> (r: Option<&mut Workspace>)
        ensures
            final(self).zeroclaw_bearer == old(self).zeroclaw_bearer,
            match r {
                Some(w) => active_index(workspace_views(old(self).workspaces@), 0) matches Some(i)
                    && *w == old(self).workspaces@[i] && final(self).workspaces@ == old(self).workspaces@.update(i, *final(w)),
                None => active_index(workspace_views(old(self).workspaces@), 0) is None
                    && final(self).workspaces == old(self).workspaces,
            },
    {
        match self.active_workspace_index() {
            Some(i) => Some(&mut self.workspaces[i]),
            None => None,
        }
    }

    /// The index of the first active workspace.
    pub fn active_workspace_index(&self) -> (r: Option<usize>)
        ensures
            match r {
                Some(i) => i < self.workspaces@.len() && active_index(
                    workspace_views(self.workspaces@),
                    0,
                ) == Some(i as int),
                None => active_index(workspace_views(self.workspaces@), 0) is None,
            },
    {
        let ghost list = workspace_views(self.workspaces@);
        let mut i: usize = 0;
        while i < self.workspaces.len()
            invariant
                i <= self.workspaces.len(),
                list == workspace_views(self.workspaces@),
                active_index(list, 0) == active_index(list, i as int),
            decreases self.workspaces.len() - i,
        {
            assert(list[i as int] == self.workspaces@[i as int]@);
            if self.workspaces[i].active {
                return Some(i);
            }
            i += 1;
        }
        None
    }

    /// Takes the workspaces of the team `team_id` out of the session and
    /// says whether there were any. If none is left the bearer token goes
    /// too. Else exactly one of those left is active afterwards: the
    /// first that was active, or the first of all where none was.
    pub fn remove_workspace(&mut self, team_id: &str) -> (removed: bool)
        ensures
            ({
                let before = workspace_views(old(self).workspaces@);
                let kept = without_team(before, team_id@);
                let after = workspace_views(final(self).workspaces@);
                &&& removed == (kept.len() != before.len())
                &&& !removed ==> after == before && final(self).zeroclaw_bearer == old(
                    self,
                ).zeroclaw_bearer
                &&& removed ==> after == after_removal(before, team_id@)
                &&& removed && kept.len() == 0 ==> final(self).zeroclaw_bearer is None
                &&& removed && kept.len() > 0 ==> one_active(after) && final(self).zeroclaw_bearer
                    == old(self).zeroclaw_bearer
            }),
    {
        let wanted = team_id.to_owned();
        let ghost before = workspace_views(self.workspaces@);
        let initial_len = self.workspaces.len();
        let mut i: usize = 0;
        let mut j: usize = 0;
        assert(before.take(0) =~= Seq::<WorkspaceView>::empty());
        assert(workspace_views(self.workspaces@).take(0) =~= Seq::<WorkspaceView>::empty());
        while i < self.workspaces.len()
            invariant
                wanted@ == team_id@,
                before == workspace_views(old(self).workspaces@),
                initial_len == before.len(),
                self.zeroclaw_bearer == old(self).zeroclaw_bearer,
                i <= self.workspaces@.len(),
                i <= j <= initial_len,
                self.workspaces@.len() - i == initial_len - j,
                workspace_views(self.workspaces@).take(i as int) == without_team(
                    before.take(j as int),
                    team_id@,
                ),
                forall|k: int|
                    0 <= k < self.workspaces@.len() - i ==> (#[trigger] self.workspaces@[i + k])@
                        == before[j + k],
            decreases self.workspaces.len() - i,
        {
            let ghost current = workspace_views(self.workspaces@);
            assert(before.take(j + 1).drop_last() =~= before.take(j as int));
            assert(before.take(j + 1).last() == before[j as int]);
            assert(self.workspaces@[i + 0]@ == before[j + 0]);
            if self.workspaces[i].team_id == wanted {
                let gone = self.workspaces.remove(i);
                assert(workspace_views(self.workspaces@).take(i as int) =~= current.take(
                    i as int,
                ));
                assert forall|k: int| 0 <= k < self.workspaces@.len() - i implies (
                #[trigger] self.workspaces@[i + k])@ == before[j + 1 + k] by {
                    assert(current[i + (k + 1)] == before[j + (k + 1)]);
                }
                j += 1;
            } else {
                assert(workspace_views(self.workspaces@).take(i + 1) =~= current.take(
                    i as int,
                ).push(before[j as int]));
                assert forall|k: int| 0 <= k < self.workspaces@.len() - (i + 1) implies (
                #[trigger] self.workspaces@[i + 1 + k])@ == before[j + 1 + k] by {
                    assert(self.workspaces@[i + (k + 1)]@ == before[j + (k + 1)]);
                }
                i += 1;
                j += 1;
            }
        }
        proof {
            assert(before.take(j as int) =~= before);
            assert(workspace_views(self.workspaces@).take(i as int) =~= workspace_views(
                self.workspaces@,
            ));
            lemma_without_team(before, team_id@);
        }
        if self.workspaces.len() != initial_len {
            if self.workspaces.len() == 0 {
                self.zeroclaw_bearer = None;
                assert(workspace_views(self.workspaces@) =~= after_removal(before, team_id@));
            } else {
                let chosen = match self.active_workspace_index() {
                    Some(a) => a,
                    None => 0,
                };
                self.keep_one_active(chosen);
                proof {
                    lemma_one_is_active(without_team(before, team_id@), chosen as int);
                }
            }
            true
        } else {
            false
        }
    }

    /// Makes the workspace at `chosen` active and every other inactive.
    fn keep_one_active(&mut self, chosen: usize)
        ensures
            workspace_views(final(self).workspaces@) == only_active(
                workspace_views(old(self).workspaces@),
                chosen as int,
            ),
            final(self).zeroclaw_bearer == old(self).zeroclaw_bearer,
    {
        let ghost list = workspace_views(self.workspaces@);
        let mut i: usize = 0;
        while i < self.workspaces.len()
            invariant
                i <= self.workspaces.len(),
                self.workspaces@.len() == list.len(),
                self.zeroclaw_bearer == old(self).zeroclaw_bearer,
                forall|k: int|
                    0 <= k < i ==> (#[trigger] self.workspaces@[k])@ == (WorkspaceView {
                        active: k == chosen,
                        ..list[k]
                    }),
                forall|k: int| i <= k < list.len() ==> (#[trigger] self.workspaces@[k])@ == list[k],
            decreases self.workspaces.len() - i,
        {
            self.workspaces[i].active = i == chosen;
            i += 1;
        }
        assert(workspace_views(self.workspaces@) =~= only_active(list, chosen as int));
    }

    /// Forgets every workspace and the bearer token. The emptied session
    /// is to be stored, whatever it held.
    pub fn clear_all(&mut self) -> (r: StoreDue)
        ensures
            final(self).workspaces@.len() == 0,
            final(self).zeroclaw_bearer is None,
    {
        self.workspaces.clear();
        self.zeroclaw_bearer = None;
        StoreDue
    }

    /// Replaces both credentials of the first workspace of the team
    /// `team_id`; the session is then to be stored. Fails where the
    /// session has no workspace of that team, and then changes nothing.
    pub fn rotate_token(&mut self, team_id: &str, new_token: &str, new_app_token: &str) -> (r:
        Result<StoreDue, CallError>)
        ensures
            final(self).zeroclaw_bearer == old(self).zeroclaw_bearer,
            ({
                let before = workspace_views(old(self).workspaces@);
                let after = workspace_views(final(self).workspaces@);
                match team_index(before, team_id@, 0) {
                    Some(i) => r is Ok && after == before.update(
                        i,
                        WorkspaceView {
                            xoxp_token: new_token@,
                            xapp_token: new_app_token@,
                            ..before[i]
                        },
                    ),
                    None => r matches Err(e) && is_api_error(e, "Workspace not found"@) && after
                        == before,
                }
            }),
    {
        let wanted = team_id.to_owned();
        let ghost list = workspace_views(self.workspaces@);
        let mut i: usize = 0;
        while i < self.workspaces.len()
            invariant
                i <= self.workspaces.len(),
                wanted@ == team_id@,
                *self == *old(self),
                list == workspace_views(self.workspaces@),
                team_index(list, team_id@, 0) == team_index(list, team_id@, i as int),
            decreases self.workspaces.len() - i,
        {
            assert(list[i as int] == self.workspaces@[i as int]@);
            if self.workspaces[i].team_id == wanted {
                let current = &self.workspaces[i];
                let updated = Workspace {
                    team_id: current.team_id.clone(),
                    team_name: current.team_name.clone(),
                    xoxp_token: new_token.to_owned(),
                    xapp_token: new_app_token.to_owned(),
                    user_id: match &current.user_id {
                        Some(id) => Some(id.clone()),
                        None => None,
                    },
                    active: current.active,
                };
                self.workspaces.set(i, updated);
                assert(workspace_views(self.workspaces@) =~= list.update(
                    i as int,
                    WorkspaceView {
                        xoxp_token: new_token@,
                        xapp_token: new_app_token@,
                        ..list[i as int]
                    },
                ));
                return Ok(StoreDue);
            }
            i += 1;
        }
        Err(api_error("Workspace not found".to_owned()))
    }
}

} // verus!
