//! Application configuration: the remote endpoint, the user identity and the
//! two local sync directories.  Persistence is left to the surrounding
//! application; the library only interprets the values.

use vstd::prelude::*;
use crate::text::{str_concat, trim_end_slashes, trim_end_slashes_str};

verus! {

/// Application configuration.  Local paths are held as plain path strings.
#[derive(Debug)]
pub struct AppConfig {
    /// Server URL (e.g. "https://docs.example.com").
    pub server_url: String,
    /// User email, also used as the WebDAV username.
    pub user_email: String,
    /// Tenant identifier.
    pub tenant_id: String,
    /// Local sync directory for personal files.
    pub personal_sync_path: String,
    /// Local sync directory for shared files.
    pub shared_sync_path: String,
    /// Sync interval in seconds.
    pub sync_interval_secs: u64,
    /// Whether to watch for local file changes.
    pub watch_local_changes: bool,
    /// Whether to sync on startup.
    pub sync_on_startup: bool,
    /// Maximum file size to sync in bytes, 0 meaning unlimited.
    pub max_file_size_bytes: u64,
}

/// Mathematical value of an `AppConfig`.
pub struct ConfigView {
    pub server_url: Seq<char>,
    pub user_email: Seq<char>,
    pub tenant_id: Seq<char>,
    pub personal_sync_path: Seq<char>,
    pub shared_sync_path: Seq<char>,
    pub sync_interval_secs: u64,
    pub watch_local_changes: bool,
    pub sync_on_startup: bool,
    pub max_file_size_bytes: u64,
}

impl View for AppConfig {
    type V = ConfigView;

    open spec fn view(&self) -> ConfigView {
        ConfigView {
            server_url: self.server_url@,
            user_email: self.user_email@,
            tenant_id: self.tenant_id@,
            personal_sync_path: self.personal_sync_path@,
            shared_sync_path: self.shared_sync_path@,
            sync_interval_secs: self.sync_interval_secs,
            watch_local_changes: self.watch_local_changes,
            sync_on_startup: self.sync_on_startup,
            max_file_size_bytes: self.max_file_size_bytes,
        }
    }
}

impl Clone for AppConfig {
    /// The clone denotes the same configuration.
    fn clone(&self) -> (r: Self)
        ensures
            r@ == self@,
    {
        AppConfig {
            server_url: self.server_url.clone(),
            user_email: self.user_email.clone(),
            tenant_id: self.tenant_id.clone(),
            personal_sync_path: self.personal_sync_path.clone(),
            shared_sync_path: self.shared_sync_path.clone(),
            sync_interval_secs: self.sync_interval_secs,
            watch_local_changes: self.watch_local_changes,
            sync_on_startup: self.sync_on_startup,
            max_file_size_bytes: self.max_file_size_bytes,
        }
    }
}

/// A configuration is complete when it names a server and an identity.
pub open spec fn configured(c: ConfigView) -> bool {
    c.server_url.len() > 0 && c.user_email.len() > 0
}

/// The WebDAV endpoint for personal files: the server URL without trailing
/// slashes, followed by `/dav/personal`.
pub open spec fn spec_personal_webdav_url(c: ConfigView) -> Seq<char> {
    trim_end_slashes(c.server_url) + "/dav/personal"@
}

/// The WebDAV endpoint for shared files: the server URL without trailing
/// slashes, followed by `/dav/shared`.
pub open spec fn spec_shared_webdav_url(c: ConfigView) -> Seq<char> {
    trim_end_slashes(c.server_url) + "/dav/shared"@
}

impl AppConfig {
    /// Whether the configuration is complete (the user is logged in).
    pub fn is_configured(&self) -> (r: bool)
        ensures
            r == configured(self@),
    {
        !self.server_url.as_str().is_empty() && !self.user_email.as_str().is_empty()
    }

    /// The WebDAV URL for personal files.
    pub fn personal_webdav_url(&self) -> (r: String)
        ensures
            r@ == spec_personal_webdav_url(self@),
    {
        let base = trim_end_slashes_str(self.server_url.as_str());
        str_concat(base.as_str(), "/dav/personal")
    }

    /// The WebDAV URL for shared files.
    pub fn shared_webdav_url(&self) -> (r: String)
        ensures
            r@ == spec_shared_webdav_url(self@),
    {
        let base = trim_end_slashes_str(self.server_url.as_str());
        str_concat(base.as_str(), "/dav/shared")
    }
}

/// Relies on dirs::home_dir: the user's home directory as reported by the
/// platform, if any.  The result depends on the environment, so nothing is
/// promised about it.
#[verifier::external_body]
fn home_dir_string() -> (r: Option<String>) {
    dirs::home_dir().map(|p| p.to_string_lossy().into_owned())
}

impl Default for AppConfig {
    /// An unconfigured default: empty identity, the default directories under
    /// the home directory (or the current directory when the platform reports
    /// no home), a five-minute interval, watching and startup sync on, and no
    /// size limit.
    fn default() -> (r: Self)
        ensures
            r@.server_url =~= Seq::<char>::empty(),
            r@.user_email =~= Seq::<char>::empty(),
            r@.tenant_id =~= Seq::<char>::empty(),
            !configured(r@),
            r@.sync_interval_secs == 300,
            r@.watch_local_changes,
            r@.sync_on_startup,
            r@.max_file_size_bytes == 0,
            (exists|home: Seq<char>|
                r@.personal_sync_path == home + "/ReadyNextOs/Moje pliki"@
                    && r@.shared_sync_path == home + "/ReadyNextOs/Udostepnione"@),
    {
        let home = match home_dir_string() {
            Some(h) => h,
            None => String::from_str("."),
        };
        let base = str_concat(home.as_str(), "/ReadyNextOs");
        let personal = str_concat(base.as_str(), "/Moje pliki");
        let shared = str_concat(base.as_str(), "/Udostepnione");
        proof {
            reveal_strlit("/ReadyNextOs");
            reveal_strlit("/Moje pliki");
            reveal_strlit("/Udostepnione");
            reveal_strlit("/ReadyNextOs/Moje pliki");
            reveal_strlit("/ReadyNextOs/Udostepnione");
            assert(("/ReadyNextOs"@ + "/Moje pliki"@) =~= "/ReadyNextOs/Moje pliki"@);
            assert(("/ReadyNextOs"@ + "/Udostepnione"@) =~= "/ReadyNextOs/Udostepnione"@);
            assert(personal@ =~= home@ + "/ReadyNextOs/Moje pliki"@);
            assert(shared@ =~= home@ + "/ReadyNextOs/Udostepnione"@);
        }
        AppConfig {
            server_url: String::new(),
            user_email: String::new(),
            tenant_id: String::new(),
            personal_sync_path: personal,
            shared_sync_path: shared,
            sync_interval_secs: 300,
            watch_local_changes: true,
            sync_on_startup: true,
            max_file_size_bytes: 0,
        }
    }
}

} // verus!
