//! State of the daemon behind its D-Bus interfaces, and the rules of each
//! D-Bus method. The bus connection, signal emission and the authentication
//! backend run with the caller.

use vstd::prelude::*;

use crate::text::{is_prefix, push_str, starts_with, str_eq, to_string};

verus! {

/// Well-known bus name of the daemon.
pub const DBUS_NAME: &'static str = "com.strangedaystech.LNXDrive";

/// Object path the interfaces are served at.
pub const DBUS_PATH: &'static str = "/com/strangedaystech/LNXDrive";

/// Version reported by the manager interface.
pub const DAEMON_VERSION: &'static str = "0.1.0";

/// Authorization endpoint offered when no authentication backend is configured.
pub const DEFAULT_AUTH_URL: &'static str = "https://login.microsoftonline.com/common/oauth2/v2.0/authorize";

/// Prefix of the object paths of GNOME Online Accounts.
pub const GOA_ACCOUNT_PREFIX: &'static str = "/org/gnome/OnlineAccounts/Accounts/";

/// Sync state of the daemon.
#[derive(Debug, Clone, PartialEq, Eq)]
pub enum DaemonSyncState {
    /// Nothing running.
    Idle,
    /// A sync cycle is running.
    Syncing,
    /// The user paused syncing.
    Paused,
    /// Waiting for the user to sign in.
    WaitingForAuth,
    /// The last cycle failed.
    Error(String),
}

/// Text of a sync state (`idle`, ..., `error: <message>`).
pub open spec fn sync_state_text(s: DaemonSyncState) -> Seq<char> {
    match s {
        DaemonSyncState::Idle => "idle"@,
        DaemonSyncState::Syncing => "syncing"@,
        DaemonSyncState::Paused => "paused"@,
        DaemonSyncState::WaitingForAuth => "waiting_for_auth"@,
        DaemonSyncState::Error(m) => "error: "@ + m@,
    }
}

/// Value of the `SyncStatus` property for a state (waiting for sign-in reads as idle).
pub open spec fn sync_status_text(s: DaemonSyncState) -> Seq<char> {
    match s {
        DaemonSyncState::Idle => "idle"@,
        DaemonSyncState::Syncing => "syncing"@,
        DaemonSyncState::Paused => "paused"@,
        DaemonSyncState::WaitingForAuth => "idle"@,
        DaemonSyncState::Error(_) => "error"@,
    }
}

impl DaemonSyncState {
    /// The text of this state.
    pub fn to_string(&self) -> (r: String)
        ensures
            r@ == sync_state_text(*self),
    {
        match self {
            DaemonSyncState::Idle => to_string("idle"),
            DaemonSyncState::Syncing => to_string("syncing"),
            DaemonSyncState::Paused => to_string("paused"),
            DaemonSyncState::WaitingForAuth => to_string("waiting_for_auth"),
            DaemonSyncState::Error(m) => {
                let mut s = to_string("error: ");
                push_str(&mut s, m.as_str());
                s
            },
        }
    }

    /// The `SyncStatus` property value.
    pub fn status_text(&self) -> (r: String)
        ensures
            r@ == sync_status_text(*self),
    {
        match self {
            DaemonSyncState::Idle => to_string("idle"),
            DaemonSyncState::Syncing => to_string("syncing"),
            DaemonSyncState::Paused => to_string("paused"),
            DaemonSyncState::WaitingForAuth => to_string("idle"),
            DaemonSyncState::Error(_) => to_string("error"),
        }
    }
}

/// An account the authentication backend signed in.
#[derive(Debug, Clone, PartialEq, Eq)]
pub struct AuthenticatedAccount {
    /// Email address.
    pub email: String,
    /// Display name, if known.
    pub display_name: Option<String>,
}

/// A browser sign-in that was started: where to send the user and the
/// values the redirect is checked against.
#[derive(Debug, Clone, PartialEq, Eq)]
pub struct BrowserAuthStart {
    /// Authorization URL.
    pub auth_url: String,
    /// CSRF state.
    pub csrf_state: String,
    /// PKCE verifier.
    pub pkce_verifier: String,
}

/// Failure of the authentication backend.
#[derive(Debug, Clone, PartialEq, Eq)]
pub enum AuthBackendError {
    /// The GOA account path is not valid.
    InvalidAccount,
    /// A GOA D-Bus call failed.
    GoaCallFailed,
    /// Exchanging the OAuth code failed.
    TokenExchangeFailed,
    /// Fetching the user profile failed.
    UserInfoFailed,
    /// Storing tokens in the keyring failed.
    KeyringStoreFailed,
    /// Any other failure.
    Internal,
}

/// Text of a backend failure.
pub open spec fn auth_error_text(e: AuthBackendError) -> Seq<char> {
    match e {
        AuthBackendError::InvalidAccount => "invalid GOA account path"@,
        AuthBackendError::GoaCallFailed => "GOA D-Bus call failed"@,
        AuthBackendError::TokenExchangeFailed => "OAuth code exchange failed"@,
        AuthBackendError::UserInfoFailed => "user profile lookup failed"@,
        AuthBackendError::KeyringStoreFailed => "keyring store failed"@,
        AuthBackendError::Internal => "internal backend error"@,
    }
}

impl AuthBackendError {
    /// The text of this failure.
    pub fn to_string(&self) -> (r: String)
        ensures
            r@ == auth_error_text(*self),
    {
        match self {
            AuthBackendError::InvalidAccount => to_string("invalid GOA account path"),
            AuthBackendError::GoaCallFailed => to_string("GOA D-Bus call failed"),
            AuthBackendError::TokenExchangeFailed => to_string("OAuth code exchange failed"),
            AuthBackendError::UserInfoFailed => to_string("user profile lookup failed"),
            AuthBackendError::KeyringStoreFailed => to_string("keyring store failed"),
            AuthBackendError::Internal => to_string("internal backend error"),
        }
    }
}

/// State shared by the D-Bus interfaces.
#[derive(Debug)]
pub struct DaemonState {
    /// Current sync state.
    pub sync_state: DaemonSyncState,
    /// Whether a sync cycle was requested.
    pub sync_requested: bool,
    /// Email of the signed-in account.
    pub account_email: Option<String>,
    /// Display name of the signed-in account.
    pub account_display_name: Option<String>,
    /// Outcome of the last sync.
    pub last_sync_result: Option<String>,
    /// Current conflicts, as a JSON array.
    pub conflicts_json: String,
    /// Status of each known path (path, status), each path at most once.
    pub file_statuses: Vec<(String, String)>,
    /// Paths waiting to be pinned, each once.
    pub pin_requests: Vec<String>,
    /// Paths waiting to be unpinned, each once.
    pub unpin_requests: Vec<String>,
    /// Paths whose sync was requested.
    pub sync_path_requests: Vec<String>,
    /// Unix time of the last sync.
    pub last_sync_time: i64,
    /// Changes waiting to be synced.
    pub pending_changes: u32,
    /// Network connection status.
    pub connection_status: String,
    /// D-Bus health.
    pub dbus_health: String,
    /// Bytes used in the drive.
    pub quota_used: u64,
    /// Bytes available in the drive.
    pub quota_total: u64,
    /// Whether an account is signed in.
    pub is_authenticated: bool,
    /// Authorization URL of a browser sign-in in progress.
    pub auth_url: Option<String>,
    /// CSRF state of a browser sign-in in progress.
    pub auth_csrf_state: Option<String>,
    /// PKCE verifier of a browser sign-in in progress.
    pub pkce_verifier: Option<String>,
    /// How the account signed in (`browser`, `goa`).
    pub auth_source: Option<String>,
    /// Configuration as YAML.
    pub config_yaml: String,
    /// Folders selected for sync.
    pub selected_folders: Vec<String>,
    /// Exclusion patterns.
    pub exclusion_patterns: Vec<String>,
    /// Remote folder tree as JSON.
    pub remote_folder_tree: String,
    /// Daemon version.
    pub version: String,
    /// Whether the sync engine runs.
    pub is_running: bool,
}

impl Default for DaemonState {
    /// Idle, signed out, nothing queued, no conflicts (`[]`), online, running.
    fn default() -> (r: DaemonState)
        ensures
            r.sync_state == DaemonSyncState::Idle,
            !r.sync_requested,
            r.account_email is None,
            r.account_display_name is None,
            r.last_sync_result is None,
            r.conflicts_json@ == "[]"@,
            r.file_statuses@.len() == 0,
            r.pin_requests@.len() == 0,
            r.unpin_requests@.len() == 0,
            r.sync_path_requests@.len() == 0,
            r.last_sync_time == 0,
            r.pending_changes == 0,
            r.connection_status@ == "online"@,
            r.dbus_health@ == "online"@,
            r.quota_used == 0,
            r.quota_total == 0,
            !r.is_authenticated,
            r.auth_url is None,
            r.auth_csrf_state is None,
            r.pkce_verifier is None,
            r.auth_source is None,
            r.config_yaml@.len() == 0,
            r.selected_folders@.len() == 0,
            r.exclusion_patterns@.len() == 0,
            r.remote_folder_tree@ == "{}"@,
            r.version@ == DAEMON_VERSION@,
            r.is_running,
    {
        DaemonState {
            sync_state: DaemonSyncState::Idle,
            sync_requested: false,
            account_email: None,
            account_display_name: None,
            last_sync_result: None,
            conflicts_json: to_string("[]"),
            file_statuses: Vec::new(),
            pin_requests: Vec::new(),
            unpin_requests: Vec::new(),
            sync_path_requests: Vec::new(),
            last_sync_time: 0,
            pending_changes: 0,
            connection_status: to_string("online"),
            dbus_health: to_string("online"),
            quota_used: 0,
            quota_total: 0,
            is_authenticated: false,
            auth_url: None,
            auth_csrf_state: None,
            pkce_verifier: None,
            auth_source: None,
            config_yaml: String::new(),
            selected_folders: Vec::new(),
            exclusion_patterns: Vec::new(),
            remote_folder_tree: to_string("{}"),
            version: to_string(DAEMON_VERSION),
            is_running: true,
        }
    }
}

/// The views of a list of strings.
pub open spec fn views(v: Seq<String>) -> Seq<Seq<char>> {
    v.map_values(|s: String| s@)
}

/// Whether `v` holds `s`.
pub fn contains_str(v: &Vec<String>, s: &str) -> (r: bool)
    ensures
        r == views(v@).contains(s@),
{
    let mut i: usize = 0;
    while i < v.len()
        invariant
            i <= v@.len(),
            forall|j: int| 0 <= j < i ==> v@[j]@ != s@,
        decreases v@.len() - i,
    {
        if str_eq(v[i].as_str(), s) {
            assert(views(v@)[i as int] == s@);
            return true;
        }
        i = i + 1;
    }
    proof {
        if views(v@).contains(s@) {
            let j = choose|j: int| 0 <= j < views(v@).len() && views(v@)[j] == s@;
            assert(v@[j]@ == s@);
        }
    }
    false
}

/// Sync state after a pause: `Paused`, whatever it was.
pub open spec fn paused(s: DaemonSyncState) -> DaemonSyncState {
    DaemonSyncState::Paused
}

/// Sync state after a resume: a paused daemon is idle, any other state stays.
pub open spec fn resumed(s: DaemonSyncState) -> DaemonSyncState {
    if s is Paused { DaemonSyncState::Idle } else { s }
}

/// Whether the queue `after` is `before` with `path` added unless it was queued already.
pub open spec fn queued_once(before: Seq<Seq<char>>, after: Seq<Seq<char>>, path: Seq<char>) -> bool {
    if before.contains(path) { after == before } else { after == before.push(path) }
}

/// The status recorded for `path` (the first pair with that path), if any.
pub open spec fn status_of(statuses: Seq<(String, String)>, path: Seq<char>) -> Option<Seq<char>>
    decreases statuses.len(),
{
    if statuses.len() == 0 {
        None
    } else if statuses[0].0@ == path {
        Some(statuses[0].1@)
    } else {
        status_of(statuses.drop_first(), path)
    }
}

/// The status reported for a path: the recorded one or `unknown`.
pub open spec fn reported_status(statuses: Seq<(String, String)>, path: Seq<char>) -> Seq<char> {
    match status_of(statuses, path) {
        Some(s) => s,
        None => "unknown"@,
    }
}

/// Whether a conflict id answers a details query for `id`: it equals `id`
/// or starts with it (a query may give a prefix of the id).
pub open spec fn conflict_matches(entry_id: Option<Seq<char>>, id: Seq<char>) -> bool {
    match entry_id {
        Some(cid) => cid == id || is_prefix(id, cid),
        None => false,
    }
}

/// A conflict of the JSON list: its `id` (when it is a string) and its JSON text.
#[derive(Debug, Clone)]
pub struct ConflictEntry {
    /// The `id` field, when present as a string.
    pub id: Option<String>,
    /// The conflict as compact JSON.
    pub json: String,
}

/// The `id` of a conflict entry as a view.
pub open spec fn entry_id(e: ConflictEntry) -> Option<Seq<char>> {
    match e.id {
        Some(s) => Some(s@),
        None => None,
    }
}

/// A conflict as plain values: its `id` (when it is a string) and its JSON text.
pub type ConflictItem = (Option<Seq<char>>, Seq<char>);

/// The plain values of a list of conflict entries.
pub open spec fn entry_items(v: Seq<ConflictEntry>) -> Seq<ConflictItem> {
    v.map_values(|e: ConflictEntry| (entry_id(e), e.json@))
}

/// What `serde_json` reads from `text`, when it is a JSON array: for each
/// element, its `id` member when that is a string, and the element written
/// back as compact JSON.
pub uninterp spec fn json_array_items(text: Seq<char>) -> Option<Seq<ConflictItem>>;

/// Whether some conflict has exactly the id `id`.
pub open spec fn has_conflict_id(items: Seq<ConflictItem>, id: Seq<char>) -> bool {
    exists|i: int| 0 <= i < items.len() && (#[trigger] items[i]).0 == Some(id)
}

/// The conflict list, as JSON, once the conflicts with id `id` are dropped.
pub open spec fn conflicts_after_resolve(items: Seq<ConflictItem>, id: Seq<char>) -> Seq<char> {
    json_array(items.filter(|p: ConflictItem| p.0 != Some(id)).map_values(|p: ConflictItem| p.1))
}

/// The JSON of the first conflict that answers a details query for `id`, or `{}`.
pub open spec fn first_details(items: Seq<ConflictItem>, id: Seq<char>) -> Seq<char>
    decreases items.len(),
{
    if items.len() == 0 {
        "{}"@
    } else if conflict_matches(items[0].0, id) {
        items[0].1
    } else {
        first_details(items.drop_first(), id)
    }
}

/// `serde_json::from_str` into a `serde_json::Value`: the elements of a JSON
/// array, each with its `id` member (when a string) and its compact JSON text
/// (`Value::to_string`); `None` when the text is not a JSON array.
#[verifier::external_body]
fn parse_conflicts(json: &str) -> (r: Option<Vec<ConflictEntry>>)
    ensures
        match r {
            Some(v) => json_array_items(json@) == Some(entry_items(v@)),
            None => json_array_items(json@) is None,
        },
{
    match serde_json::from_str::<serde_json::Value>(json) {
        Ok(serde_json::Value::Array(items)) => Some(items.iter().map(|c| ConflictEntry {
            id: c.get("id").and_then(|v| v.as_str()).map(|t| t.to_string()),
            json: c.to_string(),
        }).collect()),
        _ => None,
    }
}

/// Whether a conflict resolution strategy is one of `keep_local`, `keep_remote`, `keep_both`.
pub open spec fn valid_strategy(s: Seq<char>) -> bool {
    s == "keep_local"@ || s == "keep_remote"@ || s == "keep_both"@
}

/// A JSON array made of element texts: `[a,b,...]`.
pub open spec fn json_array(elems: Seq<Seq<char>>) -> Seq<char>
    decreases elems.len(),
{
    if elems.len() == 0 {
        "[]"@
    } else {
        "["@ + join_commas(elems) + "]"@
    }
}

/// Element texts separated by commas.
pub open spec fn join_commas(elems: Seq<Seq<char>>) -> Seq<char>
    decreases elems.len(),
{
    if elems.len() == 0 {
        Seq::empty()
    } else if elems.len() == 1 {
        elems[0]
    } else {
        join_commas(elems.drop_last()) + ","@ + elems.last()
    }
}

/// Whether one of the first `n` recorded statuses is `conflict` for path `p`.
pub open spec fn has_conflict_status(statuses: Seq<(String, String)>, p: Seq<char>, n: int) -> bool {
    exists|j: int| 0 <= j < n && (#[trigger] statuses[j]).0@ == p && statuses[j].1@ == "conflict"@
}

/// What `Auth.StartAuth` does first.
#[derive(Debug, Clone, PartialEq, Eq)]
pub enum AuthStart {
    /// A sign-in is already in progress: reply with its URL and state.
    InProgress(String, String),
    /// No backend: the placeholder URL and state were recorded; reply with them.
    Placeholder(String, String),
    /// Ask the backend to start a browser sign-in.
    AskBackend,
}

/// Name of the authentication state a signal announces.
#[derive(Debug, Clone, Copy, PartialEq, Eq)]
pub enum AuthSignal {
    /// `authenticated`.
    Authenticated,
    /// `error`.
    Error,
    /// `unauthenticated`.
    Unauthenticated,
}

/// Text of an authentication state.
pub open spec fn auth_signal_text(s: AuthSignal) -> Seq<char> {
    match s {
        AuthSignal::Authenticated => "authenticated"@,
        AuthSignal::Error => "error"@,
        AuthSignal::Unauthenticated => "unauthenticated"@,
    }
}

impl AuthSignal {
    /// The text carried by the `AuthStateChanged` signal.
    pub fn as_text(&self) -> (r: String)
        ensures
            r@ == auth_signal_text(*self),
    {
        match self {
            AuthSignal::Authenticated => to_string("authenticated"),
            AuthSignal::Error => to_string("error"),
            AuthSignal::Unauthenticated => to_string("unauthenticated"),
        }
    }
}

/// The view of an optional string.
pub open spec fn opt_view(o: Option<String>) -> Option<Seq<char>> {
    match o {
        Some(s) => Some(s@),
        None => None,
    }
}

fn clone_opt(o: &Option<String>) -> (r: Option<String>)
    ensures
        opt_view(r) == opt_view(*o),
{
    match o {
        Some(s) => Some(s.clone()),
        None => None,
    }
}

impl DaemonState {
    /// `SyncController.StartSync` and `Sync.SyncNow`: a sync is requested
    /// unless one is running.
    pub fn request_sync(&mut self)
        ensures
            old(self).sync_state is Syncing ==> final(self).sync_requested == old(self).sync_requested,
            !(old(self).sync_state is Syncing) ==> final(self).sync_requested,
            *final(self) == (DaemonState { sync_requested: final(self).sync_requested, ..*old(self) }),
    {
        match self.sync_state {
            DaemonSyncState::Syncing => {},
            _ => {
                self.sync_requested = true;
            },
        }
    }

    /// `SyncController.PauseSync` and `Sync.Pause`: the state becomes `Paused`.
    pub fn pause(&mut self)
        ensures
            final(self).sync_state == paused(old(self).sync_state),
            *final(self) == (DaemonState { sync_state: final(self).sync_state, ..*old(self) }),
    {
        self.sync_state = DaemonSyncState::Paused;
    }

    /// `Sync.Resume`: a paused daemon becomes idle; otherwise nothing changes.
    pub fn resume(&mut self)
        ensures
            final(self).sync_state == resumed(old(self).sync_state),
            *final(self) == (DaemonState { sync_state: final(self).sync_state, ..*old(self) }),
    {
        match self.sync_state {
            DaemonSyncState::Paused => {
                self.sync_state = DaemonSyncState::Idle;
            },
            _ => {},
        }
    }

    /// `Account.CheckAuth`: whether an account email is known.
    pub fn check_auth(&self) -> (r: bool)
        ensures
            r == self.account_email is Some,
    {
        self.account_email.is_some()
    }

    /// `Files.GetFileStatus`: the recorded status of `path`, or `unknown`.
    pub fn get_file_status(&self, path: &str) -> (r: String)
        ensures
            r@ == reported_status(self.file_statuses@, path@),
    {
        assert(self.file_statuses@.skip(0) =~= self.file_statuses@);
        let mut i: usize = 0;
        while i < self.file_statuses.len()
            invariant
                i <= self.file_statuses@.len(),
                status_of(self.file_statuses@, path@) == status_of(self.file_statuses@.skip(i as int), path@),
            decreases self.file_statuses@.len() - i,
        {
            proof {
                assert(self.file_statuses@.skip(i as int).drop_first() =~= self.file_statuses@.skip(i + 1));
            }
            if str_eq(self.file_statuses[i].0.as_str(), path) {
                return self.file_statuses[i].1.clone();
            }
            i = i + 1;
        }
        to_string("unknown")
    }

    /// `Files.GetBatchFileStatus`: each path with its reported status.
    pub fn get_batch_file_status(&self, paths: &Vec<String>) -> (r: Vec<(String, String)>)
        ensures
            r@.len() == paths@.len(),
            forall|i: int| 0 <= i < r@.len() ==> (#[trigger] r@[i]).0@ == paths@[i]@
                && r@[i].1@ == reported_status(self.file_statuses@, paths@[i]@),
    {
        let mut out: Vec<(String, String)> = Vec::new();
        let mut i: usize = 0;
        while i < paths.len()
            invariant
                i <= paths@.len(),
                out@.len() == i,
                forall|j: int| 0 <= j < i ==> (#[trigger] out@[j]).0@ == paths@[j]@
                    && out@[j].1@ == reported_status(self.file_statuses@, paths@[j]@),
            decreases paths@.len() - i,
        {
            let status = self.get_file_status(paths[i].as_str());
            out.push((paths[i].clone(), status));
            i = i + 1;
        }
        out
    }

    /// Records the status of `path`, replacing an earlier one.
    pub fn set_file_status(&mut self, path: String, status: String)
        ensures
            forall|p: Seq<char>| #[trigger] status_of(final(self).file_statuses@, p) ==
                if p == path@ { Some(status@) } else { status_of(old(self).file_statuses@, p) },
            *final(self) == (DaemonState { file_statuses: final(self).file_statuses, ..*old(self) }),
    {
        let ghost old_fs = self.file_statuses@;
        let mut kept: Vec<(String, String)> = Vec::new();
        assert(old_fs.skip(0) =~= old_fs);
        let mut i: usize = 0;
        while i < self.file_statuses.len()
            invariant
                i <= self.file_statuses@.len(),
                self.file_statuses@ == old_fs,
                forall|p: Seq<char>| p != path@ ==> #[trigger] status_of(old_fs, p) ==
                    (match status_of(kept@, p) { Some(x) => Some(x), None => status_of(old_fs.skip(i as int), p) }),
                forall|j: int| 0 <= j < kept@.len() ==> (#[trigger] kept@[j]).0@ != path@,
            decreases self.file_statuses@.len() - i,
        {
            let ghost k0 = kept@;
            proof {
                assert(old_fs.skip(i as int).drop_first() =~= old_fs.skip(i + 1));
            }
            if !str_eq(self.file_statuses[i].0.as_str(), path.as_str()) {
                let pair = (self.file_statuses[i].0.clone(), self.file_statuses[i].1.clone());
                kept.push(pair);
                proof {
                    assert forall|p: Seq<char>| p != path@ implies #[trigger] status_of(old_fs, p) ==
                        (match status_of(kept@, p) { Some(x) => Some(x), None => status_of(old_fs.skip(i + 1), p) }) by {
                        lemma_status_of_push(k0, pair, p);
                    }
                }
            } else {
                proof {
                    assert forall|p: Seq<char>| p != path@ implies #[trigger] status_of(old_fs, p) ==
                        (match status_of(kept@, p) { Some(x) => Some(x), None => status_of(old_fs.skip(i + 1), p) }) by {
                    }
                }
            }
            i = i + 1;
        }
        let ghost k1 = kept@;
        let ghost pv = path@;
        let ghost sv = status@;
        let pair = (path, status);
        kept.push(pair);
        proof {
            assert forall|p: Seq<char>| #[trigger] status_of(kept@, p) ==
                if p == pv { Some(sv) } else { status_of(old_fs, p) } by {
                lemma_status_of_push(k1, pair, p);
                if p == pv {
                    lemma_status_of_absent(k1, p);
                } else {
                    assert(old_fs.skip(old_fs.len() as int) =~= Seq::<(String, String)>::empty());
                }
            }
        }
        self.file_statuses = kept;
    }

    /// `Files.PinFile`: queues `path` unless it is queued already.
    pub fn pin_file(&mut self, path: String)
        ensures
            queued_once(views(old(self).pin_requests@), views(final(self).pin_requests@), path@),
            *final(self) == (DaemonState { pin_requests: final(self).pin_requests, ..*old(self) }),
    {
        if !contains_str(&self.pin_requests, path.as_str()) {
            self.pin_requests.push(path);
            proof { assert(views(self.pin_requests@) =~= views(old(self).pin_requests@).push(path@)); }
        }
    }

    /// `Files.UnpinFile`: queues `path` unless it is queued already.
    pub fn unpin_file(&mut self, path: String)
        ensures
            queued_once(views(old(self).unpin_requests@), views(final(self).unpin_requests@), path@),
            *final(self) == (DaemonState { unpin_requests: final(self).unpin_requests, ..*old(self) }),
    {
        if !contains_str(&self.unpin_requests, path.as_str()) {
            self.unpin_requests.push(path);
            proof { assert(views(self.unpin_requests@) =~= views(old(self).unpin_requests@).push(path@)); }
        }
    }

    /// `Files.SyncPath`: queues `path`.
    pub fn sync_path(&mut self, path: String)
        ensures
            final(self).sync_path_requests@ == old(self).sync_path_requests@.push(path),
            *final(self) == (DaemonState { sync_path_requests: final(self).sync_path_requests, ..*old(self) }),
    {
        self.sync_path_requests.push(path);
    }

    /// `Files.GetConflicts`: the paths whose status is `conflict`, in the order recorded.
    pub fn get_conflicts(&self) -> (r: Vec<String>)
        ensures
            forall|i: int| 0 <= i < r@.len() ==> has_conflict_status(self.file_statuses@, (#[trigger] r@[i])@, self.file_statuses@.len() as int),
            forall|j: int| 0 <= j < self.file_statuses@.len() && (#[trigger] self.file_statuses@[j]).1@ == "conflict"@ ==>
                views(r@).contains(self.file_statuses@[j].0@),
    {
        let mut out: Vec<String> = Vec::new();
        let mut i: usize = 0;
        while i < self.file_statuses.len()
            invariant
                i <= self.file_statuses@.len(),
                forall|a: int| 0 <= a < out@.len() ==> has_conflict_status(self.file_statuses@, (#[trigger] out@[a])@, i as int),
                forall|j: int| 0 <= j < i && (#[trigger] self.file_statuses@[j]).1@ == "conflict"@ ==>
                    views(out@).contains(self.file_statuses@[j].0@),
            decreases self.file_statuses@.len() - i,
        {
            let ghost o0 = out@;
            if str_eq(self.file_statuses[i].1.as_str(), "conflict") {
                out.push(self.file_statuses[i].0.clone());
                proof {
                    assert(views(out@) =~= views(o0).push(self.file_statuses@[i as int].0@));
                    assert(views(out@)[out@.len() - 1] == self.file_statuses@[i as int].0@);
                    assert(has_conflict_status(self.file_statuses@, out@[out@.len() - 1]@, i + 1));
                }
            }
            proof {
                assert forall|a: int| 0 <= a < o0.len() implies has_conflict_status(self.file_statuses@, (#[trigger] out@[a])@, i + 1) by {
                    assert(out@[a] == o0[a]);
                    assert(has_conflict_status(self.file_statuses@, o0[a]@, i as int));
                    let j = choose|j: int| 0 <= j < i && (#[trigger] self.file_statuses@[j]).0@ == o0[a]@ && self.file_statuses@[j].1@ == "conflict"@;
                    assert(self.file_statuses@[j].0@ == out@[a]@);
                }
                assert forall|j: int| 0 <= j < i + 1 && (#[trigger] self.file_statuses@[j]).1@ == "conflict"@ implies
                    views(out@).contains(self.file_statuses@[j].0@) by {
                    if j < i {
                        let a = choose|a: int| 0 <= a < views(o0).len() && views(o0)[a] == self.file_statuses@[j].0@;
                        assert(views(out@)[a] == views(o0)[a]);
                    }
                }
            }
            i = i + 1;
        }
        out
    }

    /// `Conflicts.GetDetails`: the JSON of the first recorded conflict whose
    /// id equals `id` or starts with it; `{}` when there is none or the
    /// recorded list is not a JSON array.
    pub fn conflict_details(&self, id: &str) -> (r: String)
        ensures
            r@ == match json_array_items(self.conflicts_json@) {
                Some(items) => first_details(items, id@),
                None => "{}"@,
            },
    {
        match parse_conflicts(self.conflicts_json.as_str()) {
            Some(entries) => conflict_details(&entries, id),
            None => to_string("{}"),
        }
    }

    /// `Conflicts.Resolve`: with a valid strategy, drops the recorded
    /// conflicts whose id is `id` and answers whether there was one; an
    /// invalid strategy, a list that is not a JSON array or an unknown id
    /// change nothing and answer `false`.
    pub fn resolve_conflict(&mut self, id: &str, strategy: &str) -> (r: bool)
        ensures
            r == (valid_strategy(strategy@) && match json_array_items(old(self).conflicts_json@) {
                Some(items) => has_conflict_id(items, id@),
                None => false,
            }),
            r ==> final(self).conflicts_json@ == conflicts_after_resolve(json_array_items(old(self).conflicts_json@)->Some_0, id@),
            !r ==> *final(self) == *old(self),
            *final(self) == (DaemonState { conflicts_json: final(self).conflicts_json, ..*old(self) }),
    {
        if !strategy_valid(strategy) {
            return false;
        }
        let entries = match parse_conflicts(self.conflicts_json.as_str()) {
            Some(v) => v,
            None => return false,
        };
        match resolve_conflict(&entries, id, strategy) {
            Some(remaining) => {
                self.conflicts_json = remaining;
                true
            },
            None => false,
        }
    }

    /// `Conflicts.ResolveAll`: with a valid strategy, the number of recorded
    /// conflicts (as `u32`), all of which are dropped when there is one;
    /// 0, and nothing changes, otherwise.
    pub fn resolve_all(&mut self, strategy: &str) -> (r: u32)
        ensures
            r == (if valid_strategy(strategy@) {
                match json_array_items(old(self).conflicts_json@) {
                    Some(items) => (items.len() as u32) as int,
                    None => 0,
                }
            } else {
                0
            }),
            r > 0 ==> final(self).conflicts_json@ == "[]"@,
            r == 0 ==> *final(self) == *old(self),
            *final(self) == (DaemonState { conflicts_json: final(self).conflicts_json, ..*old(self) }),
    {
        if !strategy_valid(strategy) {
            return 0;
        }
        let entries = parse_conflicts(self.conflicts_json.as_str());
        let count = resolve_all_count(entries.as_ref(), strategy);
        if count > 0 {
            self.conflicts_json = to_string("[]");
        }
        count
    }

    /// `Auth.StartAuth`, first step: an armed sign-in is replied to again;
    /// without a backend a placeholder URL (or the one already recorded) and
    /// state (`pending`) are recorded; otherwise the backend is to be asked.
    pub fn start_auth_step(&mut self, has_backend: bool) -> (r: AuthStart)
        ensures
            (old(self).auth_url is Some && old(self).auth_csrf_state is Some) ==> {
                &&& r matches AuthStart::InProgress(u, c) && u@ == old(self).auth_url->Some_0@
                    && c@ == old(self).auth_csrf_state->Some_0@
                &&& opt_view(final(self).auth_url) == opt_view(old(self).auth_url)
                &&& opt_view(final(self).auth_csrf_state) == opt_view(old(self).auth_csrf_state)
            },
            !(old(self).auth_url is Some && old(self).auth_csrf_state is Some) && !has_backend ==> {
                let url = match old(self).auth_url { Some(u) => u@, None => DEFAULT_AUTH_URL@ };
                let csrf = match old(self).auth_csrf_state { Some(c) => c@, None => "pending"@ };
                &&& r matches AuthStart::Placeholder(u, c) && u@ == url && c@ == csrf
                &&& opt_view(final(self).auth_url) == Some(url)
                &&& opt_view(final(self).auth_csrf_state) == Some(csrf)
            },
            !(old(self).auth_url is Some && old(self).auth_csrf_state is Some) && has_backend ==> {
                &&& r == AuthStart::AskBackend
                &&& opt_view(final(self).auth_url) == opt_view(old(self).auth_url)
                &&& opt_view(final(self).auth_csrf_state) == opt_view(old(self).auth_csrf_state)
            },
            *final(self) == (DaemonState { auth_url: final(self).auth_url, auth_csrf_state: final(self).auth_csrf_state, ..*old(self) }),
    {
        match (&self.auth_url, &self.auth_csrf_state) {
            (Some(u), Some(c)) => {
                return AuthStart::InProgress(u.clone(), c.clone());
            },
            _ => {},
        }
        if has_backend {
            return AuthStart::AskBackend;
        }
        let url = match &self.auth_url {
            Some(u) => u.clone(),
            None => to_string(DEFAULT_AUTH_URL),
        };
        let csrf = match &self.auth_csrf_state {
            Some(c) => c.clone(),
            None => to_string("pending"),
        };
        self.auth_url = Some(url.clone());
        self.auth_csrf_state = Some(csrf.clone());
        AuthStart::Placeholder(url, csrf)
    }

    /// Records a browser sign-in the backend started and returns the reply
    /// (its URL and state).
    pub fn arm_browser_auth(&mut self, start: &BrowserAuthStart) -> (r: (String, String))
        ensures
            opt_view(final(self).auth_url) == Some(start.auth_url@),
            opt_view(final(self).auth_csrf_state) == Some(start.csrf_state@),
            opt_view(final(self).pkce_verifier) == Some(start.pkce_verifier@),
            r.0@ == start.auth_url@,
            r.1@ == start.csrf_state@,
            *final(self) == (DaemonState { auth_url: final(self).auth_url, auth_csrf_state: final(self).auth_csrf_state,
                pkce_verifier: final(self).pkce_verifier, ..*old(self) }),
    {
        self.auth_url = Some(start.auth_url.clone());
        self.auth_csrf_state = Some(start.csrf_state.clone());
        self.pkce_verifier = Some(start.pkce_verifier.clone());
        (start.auth_url.clone(), start.csrf_state.clone())
    }

    /// Records the end of a browser sign-in: the armed values are cleared;
    /// a signed-in account is recorded with source `browser`. Returns the
    /// state to announce.
    pub fn finish_browser_auth(&mut self, result: Result<AuthenticatedAccount, AuthBackendError>) -> (r: AuthSignal)
        ensures
            final(self).auth_url is None,
            final(self).auth_csrf_state is None,
            final(self).pkce_verifier is None,
            result matches Ok(a) ==> {
                &&& r == AuthSignal::Authenticated
                &&& final(self).is_authenticated
                &&& opt_view(final(self).account_email) == Some(a.email@)
                &&& opt_view(final(self).account_display_name) == (match a.display_name {
                    Some(n) => Some(n@),
                    None => opt_view(old(self).account_display_name),
                })
                &&& opt_view(final(self).auth_source) == Some("browser"@)
            },
            result is Err ==> {
                &&& r == AuthSignal::Error
                &&& final(self).is_authenticated == old(self).is_authenticated
                &&& opt_view(final(self).account_email) == opt_view(old(self).account_email)
                &&& opt_view(final(self).account_display_name) == opt_view(old(self).account_display_name)
                &&& opt_view(final(self).auth_source) == opt_view(old(self).auth_source)
            },
            *final(self) == (DaemonState { auth_url: final(self).auth_url, auth_csrf_state: final(self).auth_csrf_state,
                pkce_verifier: final(self).pkce_verifier, is_authenticated: final(self).is_authenticated,
                account_email: final(self).account_email, account_display_name: final(self).account_display_name,
                auth_source: final(self).auth_source, ..*old(self) }),
    {
        self.auth_url = None;
        self.auth_csrf_state = None;
        self.pkce_verifier = None;
        match result {
            Ok(account) => {
                self.is_authenticated = true;
                self.account_email = Some(account.email);
                match account.display_name {
                    Some(n) => {
                        self.account_display_name = Some(n);
                    },
                    None => {},
                }
                self.auth_source = Some(to_string("browser"));
                AuthSignal::Authenticated
            },
            Err(_) => AuthSignal::Error,
        }
    }

    /// Records an account signed in through GNOME Online Accounts: source
    /// `goa`, armed browser values cleared.
    pub fn apply_goa_account(&mut self, account: AuthenticatedAccount)
        ensures
            final(self).is_authenticated,
            opt_view(final(self).account_email) == Some(account.email@),
            opt_view(final(self).account_display_name) == (match account.display_name {
                Some(n) => Some(n@),
                None => opt_view(old(self).account_display_name),
            }),
            opt_view(final(self).auth_source) == Some("goa"@),
            final(self).auth_url is None,
            final(self).auth_csrf_state is None,
            final(self).pkce_verifier is None,
            *final(self) == (DaemonState { auth_url: final(self).auth_url, auth_csrf_state: final(self).auth_csrf_state,
                pkce_verifier: final(self).pkce_verifier, is_authenticated: final(self).is_authenticated,
                account_email: final(self).account_email, account_display_name: final(self).account_display_name,
                auth_source: final(self).auth_source, ..*old(self) }),
    {
        self.is_authenticated = true;
        match account.display_name {
            Some(n) => {
                self.account_display_name = Some(n);
            },
            None => {},
        }
        self.account_email = Some(account.email);
        self.auth_source = Some(to_string("goa"));
        self.auth_url = None;
        self.auth_csrf_state = None;
        self.pkce_verifier = None;
    }

    /// `Auth.Logout`: forgets the account and any sign-in in progress.
    pub fn logout(&mut self) -> (r: AuthSignal)
        ensures
            r == AuthSignal::Unauthenticated,
            !final(self).is_authenticated,
            final(self).auth_source is None,
            final(self).account_email is None,
            final(self).account_display_name is None,
            final(self).auth_url is None,
            final(self).auth_csrf_state is None,
            final(self).pkce_verifier is None,
            *final(self) == (DaemonState { auth_url: final(self).auth_url, auth_csrf_state: final(self).auth_csrf_state,
                pkce_verifier: final(self).pkce_verifier, is_authenticated: final(self).is_authenticated,
                account_email: final(self).account_email, account_display_name: final(self).account_display_name,
                auth_source: final(self).auth_source, ..*old(self) }),
    {
        self.is_authenticated = false;
        self.auth_source = None;
        self.account_email = None;
        self.account_display_name = None;
        self.auth_url = None;
        self.auth_csrf_state = None;
        self.pkce_verifier = None;
        AuthSignal::Unauthenticated
    }

    /// `Settings.SetConfig`: stores the YAML unless it is empty.
    pub fn set_config(&mut self, yaml: String)
        ensures
            yaml@.len() == 0 ==> final(self).config_yaml == old(self).config_yaml,
            yaml@.len() > 0 ==> final(self).config_yaml == yaml,
            *final(self) == (DaemonState { config_yaml: final(self).config_yaml, ..*old(self) }),
    {
        if yaml.as_str().unicode_len() == 0 {
            return;
        }
        self.config_yaml = yaml;
    }

    /// `Manager.GetStatus`: `running` or `stopped`.
    pub fn manager_status(&self) -> (r: String)
        ensures
            r@ == (if self.is_running { "running"@ } else { "stopped"@ }),
    {
        if self.is_running { to_string("running") } else { to_string("stopped") }
    }

    /// `Status.GetAccountInfo`: email and display name (empty when unknown)
    /// and the provider.
    pub fn account_info(&self) -> (r: Vec<(String, String)>)
        ensures
            r@.len() == 3,
            r@[0].0@ == "email"@,
            r@[0].1@ == (match self.account_email { Some(e) => e@, None => Seq::empty() }),
            r@[1].0@ == "display_name"@,
            r@[1].1@ == (match self.account_display_name { Some(n) => n@, None => Seq::empty() }),
            r@[2].0@ == "provider"@,
            r@[2].1@ == "onedrive"@,
    {
        let email = match &self.account_email {
            Some(e) => e.clone(),
            None => String::new(),
        };
        let name = match &self.account_display_name {
            Some(n) => n.clone(),
            None => String::new(),
        };
        let mut v: Vec<(String, String)> = Vec::new();
        v.push((to_string("email"), email));
        v.push((to_string("display_name"), name));
        v.push((to_string("provider"), to_string("onedrive")));
        v
    }
}

/// Whether `after` is the list of statuses `before` with a pair for `p` found first.
proof fn lemma_status_of_push(before: Seq<(String, String)>, pair: (String, String), p: Seq<char>)
    ensures
        status_of(before.push(pair), p) == match status_of(before, p) {
            Some(x) => Some(x),
            None => if pair.0@ == p { Some(pair.1@) } else { None },
        },
    decreases before.len(),
{
    let after = before.push(pair);
    if before.len() == 0 {
        assert(after.drop_first() =~= Seq::<(String, String)>::empty());
        assert(after[0] == pair);
        assert(status_of(after.drop_first(), p) is None);
    } else {
        assert(after.drop_first() =~= before.drop_first().push(pair));
        assert(after[0] == before[0]);
        lemma_status_of_push(before.drop_first(), pair, p);
    }
}

/// A list holding no pair for `p` records no status for it.
proof fn lemma_status_of_absent(v: Seq<(String, String)>, p: Seq<char>)
    requires
        forall|j: int| 0 <= j < v.len() ==> (#[trigger] v[j]).0@ != p,
    ensures
        status_of(v, p) is None,
    decreases v.len(),
{
    if v.len() > 0 {
        assert(v[0].0@ != p);
        assert forall|j: int| 0 <= j < v.drop_first().len() implies (#[trigger] v.drop_first()[j]).0@ != p by {
            assert(v.drop_first()[j] == v[j + 1]);
        }
        lemma_status_of_absent(v.drop_first(), p);
    }
}

/// Whether a GOA account path is acceptable (it lies under the accounts prefix).
pub fn goa_path_valid(path: &str) -> (r: bool)
    ensures
        r == is_prefix(GOA_ACCOUNT_PREFIX@, path@),
{
    starts_with(path, GOA_ACCOUNT_PREFIX)
}

/// Checks a conflict resolution strategy.
pub fn strategy_valid(strategy: &str) -> (r: bool)
    ensures
        r == valid_strategy(strategy@),
{
    str_eq(strategy, "keep_local") || str_eq(strategy, "keep_remote") || str_eq(strategy, "keep_both")
}

/// `Conflicts.GetDetails`: the first conflict whose id equals `id` or starts
/// with it, or `{}`.
pub fn conflict_details(entries: &Vec<ConflictEntry>, id: &str) -> (r: String)
    ensures
        r@ == first_details(entry_items(entries@), id@),
{
    let ghost items = entry_items(entries@);
    assert(items.skip(0) =~= items);
    let mut i: usize = 0;
    while i < entries.len()
        invariant
            i <= entries@.len(),
            items == entry_items(entries@),
            first_details(items, id@) == first_details(items.skip(i as int), id@),
        decreases entries@.len() - i,
    {
        proof {
            assert(items.skip(i as int).drop_first() =~= items.skip(i + 1));
            assert(items.skip(i as int)[0] == items[i as int]);
        }
        let hit = match &entries[i].id {
            Some(cid) => str_eq(cid.as_str(), id) || starts_with(cid.as_str(), id),
            None => false,
        };
        if hit {
            return entries[i].json.clone();
        }
        i = i + 1;
    }
    proof { assert(items.skip(i as int).len() == 0); }
    to_string("{}")
}

/// `Conflicts.Resolve`: with a valid strategy, drops the conflicts whose id
/// is `id`. Returns the new JSON list when something was dropped.
pub fn resolve_conflict(entries: &Vec<ConflictEntry>, id: &str, strategy: &str) -> (r: Option<String>)
    ensures
        !valid_strategy(strategy@) ==> r is None,
        valid_strategy(strategy@) && !has_conflict_id(entry_items(entries@), id@) ==> r is None,
        valid_strategy(strategy@) && has_conflict_id(entry_items(entries@), id@) ==>
            (r matches Some(j) && j@ == conflicts_after_resolve(entry_items(entries@), id@)),
{
    if !strategy_valid(strategy) {
        return None;
    }
    let ghost items = entry_items(entries@);
    let ghost keep = |p: ConflictItem| p.0 != Some(id@);
    let mut texts: Vec<String> = Vec::new();
    let mut dropped = false;
    let mut i: usize = 0;
    while i < entries.len()
        invariant
            i <= entries@.len(),
            items == entry_items(entries@),
            keep == (|p: ConflictItem| p.0 != Some(id@)),
            views(texts@) == items.subrange(0, i as int).filter(keep).map_values(|p: ConflictItem| p.1),
            dropped <==> exists|j: int| 0 <= j < i && (#[trigger] items[j]).0 == Some(id@),
        decreases entries@.len() - i,
    {
        let hit = match &entries[i].id {
            Some(cid) => str_eq(cid.as_str(), id),
            None => false,
        };
        let ghost t0 = texts@;
        proof {
            assert(items.subrange(0, i + 1).drop_last() =~= items.subrange(0, i as int));
            assert(items[i as int] == (entry_id(entries@[i as int]), entries@[i as int].json@));
            assert(hit == (items[i as int].0 == Some(id@)));
        }
        if hit {
            dropped = true;
            proof {
                assert(items.subrange(0, i + 1).filter(keep) =~= items.subrange(0, i as int).filter(keep)) by {
                    reveal(Seq::filter);
                    assert(items.subrange(0, i + 1).last() == items[i as int]);
                }
            }
        } else {
            texts.push(entries[i].json.clone());
            proof {
                assert(items.subrange(0, i + 1).filter(keep) =~= items.subrange(0, i as int).filter(keep).push(items[i as int])) by {
                    reveal(Seq::filter);
                    assert(items.subrange(0, i + 1).last() == items[i as int]);
                }
                assert(views(texts@) =~= views(t0).push(entries@[i as int].json@));
            }
        }
        i = i + 1;
    }
    if !dropped {
        return None;
    }
    proof { assert(items.subrange(0, items.len() as int) =~= items); }
    Some(json_array_of(&texts))
}

/// `Conflicts.ResolveAll`: with a valid strategy, how many conflicts the list
/// held (all are then dropped); 0 with an invalid strategy or a list that is
/// not a JSON array.
pub fn resolve_all_count(entries: Option<&Vec<ConflictEntry>>, strategy: &str) -> (r: u32)
    ensures
        !valid_strategy(strategy@) ==> r == 0,
        valid_strategy(strategy@) ==> r == match entries { Some(v) => (v@.len() as u32) as int, None => 0 },
{
    if !strategy_valid(strategy) {
        return 0;
    }
    match entries {
        Some(v) => v.len() as u32,
        None => 0,
    }
}

/// The JSON array whose elements are the given texts.
pub fn json_array_of(elems: &Vec<String>) -> (r: String)
    ensures
        r@ == json_array(views(elems@)),
{
    if elems.len() == 0 {
        return to_string("[]");
    }
    let mut s = to_string("[");
    let mut i: usize = 0;
    while i < elems.len()
        invariant
            0 < elems@.len(),
            i <= elems@.len(),
            s@ == "["@ + join_commas(views(elems@).subrange(0, i as int)),
        decreases elems@.len() - i,
    {
        let ghost s0 = s@;
        if i > 0 {
            push_str(&mut s, ",");
        }
        push_str(&mut s, elems[i].as_str());
        proof {
            let sub = views(elems@).subrange(0, i + 1);
            assert(sub.drop_last() =~= views(elems@).subrange(0, i as int));
            if i == 0 {
                assert(sub =~= seq![elems@[0]@]);
                assert(s@ =~= "["@ + join_commas(sub));
            } else {
                assert(s@ =~= "["@ + join_commas(sub));
            }
        }
        i = i + 1;
    }
    push_str(&mut s, "]");
    proof {
        assert(views(elems@).subrange(0, elems@.len() as int) =~= views(elems@));
    }
    s
}

} // verus!
