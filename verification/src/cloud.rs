//! Cloud remotes reached through Rclone: their identities, the arguments that configure
//! them, and the steps of configuring one.
use crate::prelude::Error;
use crate::resource::{App, Config};
use crate::text::{i64_to_decimal, signed_decimal, str_eq};
use vstd::prelude::*;

verus! {

/// The views of a list of strings.
pub open spec fn strings_view(v: Seq<String>) -> Seq<Seq<char>> {
    v.map_values(|s: String| s@)
}

/// Pushing onto a list of strings pushes the string's view onto its view.
pub proof fn lemma_strings_view_push(v: Seq<String>, s: String)
    ensures
        strings_view(v.push(s)) == strings_view(v).push(s@),
{
    assert(strings_view(v.push(s)) =~= strings_view(v).push(s@));
}

/// Checks the cloud settings before a cloud operation: Rclone must be usable, a remote
/// must be configured, and the cloud path must be valid; the remote is returned.
pub fn validate_cloud_config(config: &Config, rclone_available: bool, cloud_path: &str) -> (r: Result<Remote, Error>)
    ensures
        !rclone_available ==> r matches Err(Error::RcloneUnavailable),
        rclone_available && config.cloud_remote is None ==> r matches Err(Error::CloudNotConfigured),
        rclone_available && config.cloud_remote is Some && !valid_cloud_path(cloud_path@) ==> r matches Err(Error::CloudPathInvalid),
        rclone_available && config.cloud_remote is Some && valid_cloud_path(cloud_path@) ==> r == Ok::<Remote, Error>(config.cloud_remote.unwrap()),
{
    if !rclone_available {
        return Err(Error::RcloneUnavailable);
    }
    let remote = match &config.cloud_remote {
        Some(remote) => remote.clone(),
        None => {
            return Err(Error::CloudNotConfigured);
        },
    };
    match validate_cloud_path(cloud_path) {
        Ok(()) => Ok(remote),
        Err(e) => Err(e),
    }
}

/// A cloud path is usable when it is neither empty nor the bare root `/`.
pub open spec fn valid_cloud_path(path: Seq<char>) -> bool {
    path.len() != 0 && path != seq!['/']
}

/// Rejects an empty cloud path and the bare root `/`.
pub fn validate_cloud_path(path: &str) -> (r: Result<(), Error>)
    ensures
        valid_cloud_path(path@) ==> r is Ok,
        !valid_cloud_path(path@) ==> r matches Err(Error::CloudPathInvalid),
{
    proof {
        reveal_strlit("/");
        assert("/"@ =~= seq!['/']);
    }
    if path.is_empty() || str_eq(path, "/") {
        Err(Error::CloudPathInvalid)
    } else {
        Ok(())
    }
}

/// The kinds of remote that the user can pick, with `None` for no cloud at all.
#[derive(Clone, Copy, Debug, PartialEq, Eq, Structural)]
pub enum RemoteChoice {
    NoRemote,
    Custom,
    Box,
    Dropbox,
    Ftp,
    GoogleDrive,
    OneDrive,
    Smb,
    WebDav,
}

impl RemoteChoice {
    /// Every choice, in the order in which the picker lists them.
    pub fn all() -> (r: Vec<RemoteChoice>)
        ensures
            r@ == seq![
                RemoteChoice::NoRemote,
                RemoteChoice::Box,
                RemoteChoice::Dropbox,
                RemoteChoice::GoogleDrive,
                RemoteChoice::OneDrive,
                RemoteChoice::Ftp,
                RemoteChoice::Smb,
                RemoteChoice::WebDav,
                RemoteChoice::Custom,
            ],
    {
        vec![
            RemoteChoice::NoRemote,
            RemoteChoice::Box,
            RemoteChoice::Dropbox,
            RemoteChoice::GoogleDrive,
            RemoteChoice::OneDrive,
            RemoteChoice::Ftp,
            RemoteChoice::Smb,
            RemoteChoice::WebDav,
            RemoteChoice::Custom,
        ]
    }

    /// The label that the picker shows for a choice.
    pub open spec fn label(self) -> Seq<char> {
        match self {
            RemoteChoice::NoRemote => "None"@,
            RemoteChoice::Custom => "Custom"@,
            RemoteChoice::Box => "Box"@,
            RemoteChoice::Dropbox => "Dropbox"@,
            RemoteChoice::Ftp => "FTP"@,
            RemoteChoice::GoogleDrive => "Google Drive"@,
            RemoteChoice::OneDrive => "OneDrive"@,
            RemoteChoice::Smb => "SMB"@,
            RemoteChoice::WebDav => "WebDAV"@,
        }
    }

    /// The label that the picker shows for a choice.
    pub fn to_string(&self) -> (r: String)
        ensures
            r@ == self.label(),
    {
        match self {
            RemoteChoice::NoRemote => String::from_str("None"),
            RemoteChoice::Custom => String::from_str("Custom"),
            RemoteChoice::Box => String::from_str("Box"),
            RemoteChoice::Dropbox => String::from_str("Dropbox"),
            RemoteChoice::Ftp => String::from_str("FTP"),
            RemoteChoice::GoogleDrive => String::from_str("Google Drive"),
            RemoteChoice::OneDrive => String::from_str("OneDrive"),
            RemoteChoice::Smb => String::from_str("SMB"),
            RemoteChoice::WebDav => String::from_str("WebDAV"),
        }
    }

    /// The choice that a configured remote (or its absence) corresponds to.
    pub open spec fn of(value: Option<Remote>) -> RemoteChoice {
        match value {
            None => RemoteChoice::NoRemote,
            Some(Remote::Custom { .. }) => RemoteChoice::Custom,
            Some(Remote::Box { .. }) => RemoteChoice::Box,
            Some(Remote::Dropbox { .. }) => RemoteChoice::Dropbox,
            Some(Remote::Ftp { .. }) => RemoteChoice::Ftp,
            Some(Remote::GoogleDrive { .. }) => RemoteChoice::GoogleDrive,
            Some(Remote::OneDrive { .. }) => RemoteChoice::OneDrive,
            Some(Remote::Smb { .. }) => RemoteChoice::Smb,
            Some(Remote::WebDav { .. }) => RemoteChoice::WebDav,
        }
    }

    /// The choice that a configured remote (or its absence) corresponds to.
    pub fn from_remote(value: Option<&Remote>) -> (r: RemoteChoice)
        ensures
            r == RemoteChoice::of(match value {
                Some(x) => Some(*x),
                None => None,
            }),
    {
        match value {
            Some(value) => match value {
                Remote::Custom { .. } => RemoteChoice::Custom,
                Remote::Box { .. } => RemoteChoice::Box,
                Remote::Dropbox { .. } => RemoteChoice::Dropbox,
                Remote::Ftp { .. } => RemoteChoice::Ftp,
                Remote::GoogleDrive { .. } => RemoteChoice::GoogleDrive,
                Remote::OneDrive { .. } => RemoteChoice::OneDrive,
                Remote::Smb { .. } => RemoteChoice::Smb,
                Remote::WebDav { .. } => RemoteChoice::WebDav,
            },
            None => RemoteChoice::NoRemote,
        }
    }
}

/// A cloud remote as it is kept in the configuration. The passwords are only held
/// while the remote is being configured.
#[derive(Debug, PartialEq, Eq)]
pub enum Remote {
    Custom { id: String },
    Box { id: String },
    Dropbox { id: String },
    GoogleDrive { id: String },
    OneDrive { id: String },
    Ftp { id: String, host: String, port: i32, username: String, password: String },
    Smb { id: String, host: String, port: i32, username: String, password: String },
    WebDav { id: String, url: String, username: String, password: String, provider: WebDavProvider },
}

impl Clone for Remote {
    fn clone(&self) -> (r: Self)
        ensures
            r == *self,
    {
        match self {
            Remote::Custom { id } => Remote::Custom { id: id.clone() },
            Remote::Box { id } => Remote::Box { id: id.clone() },
            Remote::Dropbox { id } => Remote::Dropbox { id: id.clone() },
            Remote::GoogleDrive { id } => Remote::GoogleDrive { id: id.clone() },
            Remote::OneDrive { id } => Remote::OneDrive { id: id.clone() },
            Remote::Ftp { id, host, port, username, password } => Remote::Ftp {
                id: id.clone(),
                host: host.clone(),
                port: *port,
                username: username.clone(),
                password: password.clone(),
            },
            Remote::Smb { id, host, port, username, password } => Remote::Smb {
                id: id.clone(),
                host: host.clone(),
                port: *port,
                username: username.clone(),
                password: password.clone(),
            },
            Remote::WebDav { id, url, username, password, provider } => Remote::WebDav {
                id: id.clone(),
                url: url.clone(),
                username: username.clone(),
                password: password.clone(),
                provider: *provider,
            },
        }
    }
}

/// The name under which Rclone knows a remote that was created without a timestamp.
pub open spec fn custom_remote_id() -> Seq<char> {
    "ludusavi"@
}

/// The name given to a remote created at `timestamp` (seconds since the epoch).
pub open spec fn timestamp_remote_id(timestamp: int) -> Seq<char> {
    "ludusavi-"@ + signed_decimal(timestamp)
}

impl Remote {
    /// The name under which Rclone knows the remote.
    pub open spec fn id_view(&self) -> Seq<char> {
        match self {
            Remote::Custom { id } => id@,
            Remote::Box { id } => id@,
            Remote::Dropbox { id } => id@,
            Remote::GoogleDrive { id } => id@,
            Remote::OneDrive { id } => id@,
            Remote::Ftp { id, .. } => id@,
            Remote::Smb { id, .. } => id@,
            Remote::WebDav { id, .. } => id@,
        }
    }

    /// Rclone's name for the kind of storage.
    pub open spec fn slug_view(&self) -> Seq<char> {
        match self {
            Remote::Custom { .. } => ""@,
            Remote::Box { .. } => "box"@,
            Remote::Dropbox { .. } => "dropbox"@,
            Remote::Ftp { .. } => "ftp"@,
            Remote::GoogleDrive { .. } => "drive"@,
            Remote::OneDrive { .. } => "onedrive"@,
            Remote::Smb { .. } => "smb"@,
            Remote::WebDav { .. } => "webdav"@,
        }
    }

    /// The `key=value` arguments that `rclone config create` takes for the remote.
    pub open spec fn config_args_view(&self) -> Option<Seq<Seq<char>>> {
        match self {
            Remote::Custom { .. } => None,
            Remote::Box { .. } => None,
            Remote::Dropbox { .. } => None,
            Remote::GoogleDrive { .. } => Some(seq!["scope=drive"@]),
            Remote::Ftp { host, port, username, password, .. } => Some(
                seq![
                    "host="@ + host@,
                    "port="@ + signed_decimal(*port as int),
                    "user="@ + username@,
                    "pass="@ + password@,
                ],
            ),
            Remote::OneDrive { .. } => Some(
                seq!["drive_type=personal"@, "access_scopes=Files.ReadWrite,offline_access"@],
            ),
            Remote::Smb { host, port, username, password, .. } => Some(
                seq![
                    "host="@ + host@,
                    "port="@ + signed_decimal(*port as int),
                    "user="@ + username@,
                    "pass="@ + password@,
                ],
            ),
            Remote::WebDav { url, username, password, provider, .. } => Some(
                seq![
                    "url="@ + url@,
                    "user="@ + username@,
                    "pass="@ + password@,
                    "vendor="@ + provider.slug_view(),
                ],
            ),
        }
    }

    /// Whether Rclone must be told about the remote; a custom remote is already set up.
    pub open spec fn needs_configuration_view(&self) -> bool {
        !(self is Custom)
    }

    /// A one-line summary of where the remote points, for the remotes that have one.
    pub open spec fn description_view(&self) -> Option<Seq<char>> {
        match self {
            Remote::Ftp { host, port, username, .. } => Some(
                username@ + "@"@ + host@ + ":"@ + signed_decimal(*port as int),
            ),
            Remote::Smb { host, port, username, .. } => Some(
                username@ + "@"@ + host@ + ":"@ + signed_decimal(*port as int),
            ),
            Remote::WebDav { url, provider, .. } => Some(provider.label() + " - "@ + url@),
            _ => None,
        }
    }

    /// The name under which Rclone knows the remote.
    pub fn id(&self) -> (r: &str)
        ensures
            r@ == self.id_view(),
    {
        match self {
            Remote::Box { id } => id.as_str(),
            Remote::Custom { id } => id.as_str(),
            Remote::Dropbox { id } => id.as_str(),
            Remote::GoogleDrive { id } => id.as_str(),
            Remote::OneDrive { id } => id.as_str(),
            Remote::Ftp { id, .. } => id.as_str(),
            Remote::Smb { id, .. } => id.as_str(),
            Remote::WebDav { id, .. } => id.as_str(),
        }
    }

    /// Rclone's name for the kind of storage.
    pub fn slug(&self) -> (r: &str)
        ensures
            r@ == self.slug_view(),
    {
        match self {
            Remote::Custom { .. } => "",
            Remote::Box { .. } => "box",
            Remote::Dropbox { .. } => "dropbox",
            Remote::Ftp { .. } => "ftp",
            Remote::GoogleDrive { .. } => "drive",
            Remote::OneDrive { .. } => "onedrive",
            Remote::Smb { .. } => "smb",
            Remote::WebDav { .. } => "webdav",
        }
    }

    /// The `key=value` arguments that `rclone config create` takes for the remote.
    pub fn config_args(&self) -> (r: Option<Vec<String>>)
        ensures
            r is Some == self.config_args_view() is Some,
            r matches Some(v) ==> Some(strings_view(v@)) == self.config_args_view(),
    {
        match self {
            Remote::Custom { .. } => None,
            Remote::Box { .. } => None,
            Remote::Dropbox { .. } => None,
            Remote::GoogleDrive { .. } => {
                let v = vec![String::from_str("scope=drive")];
                assert(strings_view(v@) =~= seq!["scope=drive"@]);
                Some(v)
            },
            Remote::Ftp { id: _, host, port, username, password } => {
                let v = Self::server_args(host, *port, username, password);
                Some(v)
            },
            Remote::OneDrive { .. } => {
                let v = vec![
                    String::from_str("drive_type=personal"),
                    String::from_str("access_scopes=Files.ReadWrite,offline_access"),
                ];
                assert(strings_view(v@) =~= seq![
                    "drive_type=personal"@,
                    "access_scopes=Files.ReadWrite,offline_access"@,
                ]);
                Some(v)
            },
            Remote::Smb { id: _, host, port, username, password } => {
                let v = Self::server_args(host, *port, username, password);
                Some(v)
            },
            Remote::WebDav { id: _, url, username, password, provider } => {
                let v = vec![
                    String::from_str("url=").concat(url.as_str()),
                    String::from_str("user=").concat(username.as_str()),
                    String::from_str("pass=").concat(password.as_str()),
                    String::from_str("vendor=").concat(provider.slug()),
                ];
                assert(strings_view(v@) =~= seq![
                    "url="@ + url@,
                    "user="@ + username@,
                    "pass="@ + password@,
                    "vendor="@ + provider.slug_view(),
                ]);
                Some(v)
            },
        }
    }

    fn server_args(host: &String, port: i32, username: &String, password: &String) -> (r: Vec<String>)
        ensures
            strings_view(r@) == seq![
                "host="@ + host@,
                "port="@ + signed_decimal(port as int),
                "user="@ + username@,
                "pass="@ + password@,
            ],
    {
        let port_text = i64_to_decimal(port as i64);
        let v = vec![
            String::from_str("host=").concat(host.as_str()),
            String::from_str("port=").concat(port_text.as_str()),
            String::from_str("user=").concat(username.as_str()),
            String::from_str("pass=").concat(password.as_str()),
        ];
        assert(strings_view(v@) =~= seq![
            "host="@ + host@,
            "port="@ + signed_decimal(port as int),
            "user="@ + username@,
            "pass="@ + password@,
        ]);
        v
    }

    /// Whether Rclone must be told about the remote; a custom remote is already set up.
    pub fn needs_configuration(&self) -> (r: bool)
        ensures
            r == self.needs_configuration_view(),
    {
        match self {
            Remote::Custom { .. } => false,
            Remote::Box { .. }
            | Remote::Dropbox { .. }
            | Remote::Ftp { .. }
            | Remote::GoogleDrive { .. }
            | Remote::OneDrive { .. }
            | Remote::Smb { .. }
            | Remote::WebDav { .. } => true,
        }
    }

    /// A one-line summary of where the remote points, for the remotes that have one.
    pub fn description(&self) -> (r: Option<String>)
        ensures
            r is Some == self.description_view() is Some,
            r matches Some(d) ==> Some(d@) == self.description_view(),
    {
        match self {
            Remote::Ftp { host, port, username, .. } => Some(Self::server_summary(host, *port, username)),
            Remote::Smb { host, port, username, .. } => Some(Self::server_summary(host, *port, username)),
            Remote::WebDav { url, provider, .. } => {
                Some(provider.to_string().concat(" - ").concat(url.as_str()))
            },
            _ => None,
        }
    }

    fn server_summary(host: &String, port: i32, username: &String) -> (r: String)
        ensures
            r@ == username@ + "@"@ + host@ + ":"@ + signed_decimal(port as int),
    {
        let port_text = i64_to_decimal(port as i64);
        username.clone().concat("@").concat(host.as_str()).concat(":").concat(port_text.as_str())
    }

    /// The name for a remote created at `timestamp` (seconds since the epoch).
    pub fn id_for_timestamp(timestamp: i64) -> (r: String)
        ensures
            r@ == timestamp_remote_id(timestamp as int),
    {
        let digits = i64_to_decimal(timestamp);
        String::from_str("ludusavi-").concat(digits.as_str())
    }

    /// A fresh name for a new remote, made from the current time `now` (seconds since
    /// the epoch, read by the caller).
    pub fn generate_id(now: i64) -> (r: String)
        ensures
            r@ == timestamp_remote_id(now as int),
    {
        Self::id_for_timestamp(now)
    }

    /// Whether `remote` is the fresh remote that picking `choice` creates: the kind
    /// that was picked, with empty credentials, the kind's default port, and an id
    /// of the right form.
    pub open spec fn is_fresh_for(choice: RemoteChoice, remote: Remote) -> bool {
        &&& choice != RemoteChoice::NoRemote
        &&& RemoteChoice::of(Some(remote)) == choice
        &&& (choice == RemoteChoice::Custom ==> remote.id_view() == custom_remote_id())
        &&& (choice != RemoteChoice::Custom ==> exists|t: i64| remote.id_view() == timestamp_remote_id(t as int))
        &&& match remote {
            Remote::Ftp { host, port, username, password, .. } => host@.len() == 0 && port == 21
                && username@.len() == 0 && password@.len() == 0,
            Remote::Smb { host, port, username, password, .. } => host@.len() == 0 && port == 445
                && username@.len() == 0 && password@.len() == 0,
            Remote::WebDav { url, username, password, provider, .. } => url@.len() == 0
                && username@.len() == 0 && password@.len() == 0 && provider == WebDavProvider::Other,
            _ => true,
        }
    }

    /// The fresh remote for `choice`, with `id` as its name (Custom keeps its fixed name).
    pub fn from_choice_with_id(choice: RemoteChoice, id: String) -> (r: Result<Remote, ()>)
        ensures
            choice == RemoteChoice::NoRemote ==> r is Err,
            choice != RemoteChoice::NoRemote ==> r is Ok,
            r matches Ok(remote) ==> RemoteChoice::of(Some(remote)) == choice,
            r matches Ok(remote) ==> (choice == RemoteChoice::Custom ==> remote.id_view()
                == custom_remote_id()),
            r matches Ok(remote) ==> (choice != RemoteChoice::Custom ==> remote.id_view() == id@),
            r matches Ok(remote) ==> match remote {
                Remote::Ftp { host, port, username, password, .. } => host@.len() == 0 && port == 21
                    && username@.len() == 0 && password@.len() == 0,
                Remote::Smb { host, port, username, password, .. } => host@.len() == 0 && port
                    == 445 && username@.len() == 0 && password@.len() == 0,
                Remote::WebDav { url, username, password, provider, .. } => url@.len() == 0
                    && username@.len() == 0 && password@.len() == 0 && provider
                    == WebDavProvider::Other,
                _ => true,
            },
    {
        match choice {
            RemoteChoice::NoRemote => Err(()),
            RemoteChoice::Custom => Ok(Remote::Custom { id: String::from_str("ludusavi") }),
            RemoteChoice::Box => Ok(Remote::Box { id }),
            RemoteChoice::Dropbox => Ok(Remote::Dropbox { id }),
            RemoteChoice::Ftp => Ok(
                Remote::Ftp {
                    id,
                    host: String::new(),
                    port: 21,
                    username: String::new(),
                    password: String::new(),
                },
            ),
            RemoteChoice::GoogleDrive => Ok(Remote::GoogleDrive { id }),
            RemoteChoice::OneDrive => Ok(Remote::OneDrive { id }),
            RemoteChoice::Smb => Ok(
                Remote::Smb {
                    id,
                    host: String::new(),
                    port: 445,
                    username: String::new(),
                    password: String::new(),
                },
            ),
            RemoteChoice::WebDav => Ok(
                Remote::WebDav {
                    id,
                    url: String::new(),
                    username: String::new(),
                    password: String::new(),
                    provider: WebDavProvider::Other,
                },
            ),
        }
    }

    /// The fresh remote that picking `choice` at the time `now` (seconds since the epoch)
    /// creates; picking no cloud is refused.
    pub fn try_from_choice(choice: RemoteChoice, now: i64) -> (r: Result<Remote, ()>)
        ensures
            choice == RemoteChoice::NoRemote <==> r is Err,
            r matches Ok(remote) ==> Remote::is_fresh_for(choice, remote),
            r matches Ok(remote) ==> (choice != RemoteChoice::Custom ==> remote.id_view()
                == timestamp_remote_id(now as int)),
    {
        if choice == RemoteChoice::NoRemote {
            return Err(());
        }
        if choice == RemoteChoice::Custom {
            return Self::from_choice_with_id(choice, String::new());
        }
        let id = Self::generate_id(now);
        Self::from_choice_with_id(choice, id)
    }
}

/// Converting a choice into a fresh remote and back gives the same choice, and only
/// the choice of no cloud has no remote.
pub proof fn law_choice_round_trip(choice: RemoteChoice, remote: Remote)
    requires
        Remote::is_fresh_for(choice, remote),
    ensures
        RemoteChoice::of(Some(remote)) == choice,
        choice != RemoteChoice::NoRemote,
{
}

/// Whether a list of `key=value` arguments holds `key=` followed by `value`.
pub open spec fn sets_key(args: Seq<Seq<char>>, key: Seq<char>, value: Seq<char>) -> bool {
    args.contains(key + "="@ + value)
}

/// Each argument that configures a server remote sets the setting of that name to the
/// remote's field of that name: one argument per field, with the host, the port in
/// decimal, the user name and the password (for WebDAV: the URL, the user name, the
/// password and the vendor).
pub proof fn law_config_args_carry_fields(remote: Remote)
    ensures
        remote matches Remote::Ftp { host, port, username, password, .. } ==> (
            remote.config_args_view() matches Some(a) && a.len() == 4
            && sets_key(a, "host"@, host@) && sets_key(a, "port"@, signed_decimal(port as int))
            && sets_key(a, "user"@, username@) && sets_key(a, "pass"@, password@)),
        remote matches Remote::Smb { host, port, username, password, .. } ==> (
            remote.config_args_view() matches Some(a) && a.len() == 4
            && sets_key(a, "host"@, host@) && sets_key(a, "port"@, signed_decimal(port as int))
            && sets_key(a, "user"@, username@) && sets_key(a, "pass"@, password@)),
        remote matches Remote::WebDav { url, username, password, provider, .. } ==> (
            remote.config_args_view() matches Some(a) && a.len() == 4
            && sets_key(a, "url"@, url@) && sets_key(a, "user"@, username@)
            && sets_key(a, "pass"@, password@) && sets_key(a, "vendor"@, provider.slug_view())),
{
    reveal_strlit("host");
    reveal_strlit("host=");
    reveal_strlit("port");
    reveal_strlit("port=");
    reveal_strlit("user");
    reveal_strlit("user=");
    reveal_strlit("pass");
    reveal_strlit("pass=");
    reveal_strlit("url");
    reveal_strlit("url=");
    reveal_strlit("vendor");
    reveal_strlit("vendor=");
    reveal_strlit("=");
    match remote {
        Remote::Ftp { host, port, username, password, .. } | Remote::Smb { host, port, username, password, .. } => {
            let a = remote.config_args_view().unwrap();
            assert(a[0] == "host"@ + "="@ + host@);
            assert(a[1] == "port"@ + "="@ + signed_decimal(port as int));
            assert(a[2] == "user"@ + "="@ + username@);
            assert(a[3] == "pass"@ + "="@ + password@);
        },
        Remote::WebDav { url, username, password, provider, .. } => {
            let a = remote.config_args_view().unwrap();
            assert(a[0] == "url"@ + "="@ + url@);
            assert(a[1] == "user"@ + "="@ + username@);
            assert(a[2] == "pass"@ + "="@ + password@);
            assert(a[3] == "vendor"@ + "="@ + provider.slug_view());
        },
        _ => {},
    }
}

/// The kinds of WebDAV server that Rclone knows how to talk to.
#[derive(Clone, Copy, Debug, Default, PartialEq, Eq, Structural)]
pub enum WebDavProvider {
    #[default]
    Other,
    Nextcloud,
    Owncloud,
    Sharepoint,
    SharepointNtlm,
}

impl WebDavProvider {
    /// Every provider, in the order in which the picker lists them.
    pub fn all() -> (r: Vec<WebDavProvider>)
        ensures
            r@ == seq![
                WebDavProvider::Other,
                WebDavProvider::Nextcloud,
                WebDavProvider::Owncloud,
                WebDavProvider::Sharepoint,
                WebDavProvider::SharepointNtlm,
            ],
    {
        vec![
            WebDavProvider::Other,
            WebDavProvider::Nextcloud,
            WebDavProvider::Owncloud,
            WebDavProvider::Sharepoint,
            WebDavProvider::SharepointNtlm,
        ]
    }

    /// The names that the command line accepts, in the order of `all`.
    pub fn all_cli() -> (r: Vec<&'static str>)
        ensures
            r@.len() == 5,
            forall|i: int| 0 <= i < 5 ==> #[trigger] r@[i]@ == seq![
                WebDavProvider::Other,
                WebDavProvider::Nextcloud,
                WebDavProvider::Owncloud,
                WebDavProvider::Sharepoint,
                WebDavProvider::SharepointNtlm,
            ][i].slug_view(),
    {
        vec!["other", "nextcloud", "owncloud", "sharepoint", "sharepoint-ntlm"]
    }

    /// Rclone's name for the provider.
    pub open spec fn slug_view(self) -> Seq<char> {
        match self {
            WebDavProvider::Other => "other"@,
            WebDavProvider::Nextcloud => "nextcloud"@,
            WebDavProvider::Owncloud => "owncloud"@,
            WebDavProvider::Sharepoint => "sharepoint"@,
            WebDavProvider::SharepointNtlm => "sharepoint-ntlm"@,
        }
    }

    /// The label that the picker shows for the provider.
    pub open spec fn label(self) -> Seq<char> {
        match self {
            WebDavProvider::Other => "Other"@,
            WebDavProvider::Nextcloud => "Nextcloud"@,
            WebDavProvider::Owncloud => "Owncloud"@,
            WebDavProvider::Sharepoint => "Sharepoint"@,
            WebDavProvider::SharepointNtlm => "Sharepoint (NTLM)"@,
        }
    }

    /// Rclone's name for the provider.
    pub fn slug(&self) -> (r: &'static str)
        ensures
            r@ == self.slug_view(),
    {
        match self {
            WebDavProvider::Other => "other",
            WebDavProvider::Nextcloud => "nextcloud",
            WebDavProvider::Owncloud => "owncloud",
            WebDavProvider::Sharepoint => "sharepoint",
            WebDavProvider::SharepointNtlm => "sharepoint-ntlm",
        }
    }

    /// The label that the picker shows for the provider.
    pub fn to_string(&self) -> (r: String)
        ensures
            r@ == self.label(),
    {
        match self {
            WebDavProvider::Other => String::from_str("Other"),
            WebDavProvider::Nextcloud => String::from_str("Nextcloud"),
            WebDavProvider::Owncloud => String::from_str("Owncloud"),
            WebDavProvider::Sharepoint => String::from_str("Sharepoint"),
            WebDavProvider::SharepointNtlm => String::from_str("Sharepoint (NTLM)"),
        }
    }

    /// Reads a provider from its command-line name.
    pub fn from_str(s: &str) -> (r: Result<WebDavProvider, String>)
        ensures
            r matches Ok(p) ==> p.slug_view() == s@,
            r is Err ==> forall|p: WebDavProvider| p.slug_view() != s@,
            r matches Err(e) ==> e@ == "invalid provider: "@ + s@,
    {
        if str_eq(s, "other") {
            Ok(WebDavProvider::Other)
        } else if str_eq(s, "nextcloud") {
            Ok(WebDavProvider::Nextcloud)
        } else if str_eq(s, "owncloud") {
            Ok(WebDavProvider::Owncloud)
        } else if str_eq(s, "sharepoint") {
            Ok(WebDavProvider::Sharepoint)
        } else if str_eq(s, "sharepoint-ntlm") {
            Ok(WebDavProvider::SharepointNtlm)
        } else {
            Err(String::from_str("invalid provider: ").concat(s))
        }
    }
}

/// Reading a provider's own command-line name gives the provider back.
pub proof fn law_provider_slug_round_trip(p: WebDavProvider, q: WebDavProvider)
    requires
        q.slug_view() == p.slug_view(),
    ensures
        q == p,
{
    reveal_strlit("other");
    reveal_strlit("nextcloud");
    reveal_strlit("owncloud");
    reveal_strlit("sharepoint");
    reveal_strlit("sharepoint-ntlm");
    assert(q.slug_view().len() == p.slug_view().len());
    if q.slug_view().len() == 10 {
        assert(q.slug_view()[0] == p.slug_view()[0]);
    }
}

/// What Rclone's `shlex::split` makes of a text: its shell words, or nothing when the
/// quoting is broken.
pub uninterp spec fn shlex_split(s: Seq<char>) -> Option<Seq<Seq<char>>>;

/// Calls `shlex::split`, which splits a text into words as a POSIX shell would; the
/// result is named by `shlex_split`.
#[verifier::external_body]
fn split_words(s: &str) -> (r: Option<Vec<String>>)
    ensures
        r is Some == shlex_split(s@) is Some,
        r matches Some(v) ==> shlex_split(s@) == Some(strings_view(v@)),
{
    shlex::split(s)
}

/// What the caller of a configuration step must do next.
pub enum ConfigureAction {
    /// Nothing is left to do.
    Finish,
    /// Run Rclone with these arguments; `private` means the arguments hold a secret and
    /// must not be logged; `obscures` means the run obscures the password, so what it
    /// prints is the next step's input.
    Run { args: Vec<String>, private: bool, obscures: bool },
}

/// What happened since the last configuration step.
pub enum ConfigureEvent {
    /// Configuration is starting.
    Start,
    /// Rclone printed this obscured form of the password.
    Obscured(String),
    /// The `config create` command succeeded.
    Created,
}

impl ConfigureEvent {
    /// What a run of Rclone that succeeded reports to the next step: the printed text
    /// when the run obscured the password, else that the remote was created.
    pub fn after_run(obscures: bool, printed: String) -> (r: ConfigureEvent)
        ensures
            obscures ==> r == ConfigureEvent::Obscured(printed),
            !obscures ==> r is Created,
    {
        if obscures {
            ConfigureEvent::Obscured(printed)
        } else {
            ConfigureEvent::Created
        }
    }
}

/// Runs Rclone with the configured arguments in front of the ones given.
pub struct Rclone {
    app: App,
    remote: Remote,
}

impl Rclone {
    /// A runner for `remote` through the Rclone program `app`.
    pub fn new(app: App, remote: Remote) -> (r: Self)
        ensures
            r.app_view() == app,
            r.remote_view() == remote,
    {
        Rclone { app, remote }
    }

    /// The Rclone program and its configured arguments.
    pub closed spec fn app_view(&self) -> App {
        self.app
    }

    /// The Rclone program and its configured arguments.
    pub fn app(&self) -> (r: &App)
        ensures
            *r == self.app_view(),
    {
        &self.app
    }

    /// The remote that the runner configures.
    pub closed spec fn remote_view(&self) -> Remote {
        self.remote
    }

    /// The words of the configured arguments: none when they are empty or badly quoted.
    pub open spec fn prefix_view(arguments: Seq<char>) -> Seq<Seq<char>> {
        if arguments.len() == 0 {
            Seq::empty()
        } else {
            match shlex_split(arguments) {
                Some(parts) => parts,
                None => Seq::empty(),
            }
        }
    }

    /// The full argument list for a run: the configured arguments, then `args`.
    pub open spec fn args_view(&self, args: Seq<Seq<char>>) -> Seq<Seq<char>> {
        Self::prefix_view(self.app_view().arguments@) + args
    }

    /// The configured arguments, split into words, followed by `args`.
    pub fn args(&self, args: &Vec<String>) -> (r: Vec<String>)
        ensures
            strings_view(r@) == self.args_view(strings_view(args@)),
    {
        let mut collected: Vec<String> = Vec::new();
        if !self.app.arguments.as_str().is_empty() {
            if let Some(parts) = split_words(self.app.arguments.as_str()) {
                let mut i: usize = 0;
                while i < parts.len()
                    invariant
                        i <= parts@.len(),
                        strings_view(collected@) == strings_view(parts@).take(i as int),
                    decreases parts.len() - i,
                {
                    let ghost before = collected@;
                    collected.push(parts[i].clone());
                    proof { lemma_strings_view_push(before, parts@[i as int]); }
                    assert(strings_view(collected@) =~= strings_view(parts@).take(i + 1));
                    i = i + 1;
                }
                assert(strings_view(parts@).take(parts@.len() as int) =~= strings_view(parts@));
            }
        }
        let ghost prefix = strings_view(collected@);
        assert(prefix == Self::prefix_view(self.app.arguments@));
        let mut j: usize = 0;
        while j < args.len()
            invariant
                j <= args@.len(),
                strings_view(collected@) == prefix + strings_view(args@).take(j as int),
            decreases args.len() - j,
        {
            let ghost before = collected@;
            collected.push(args[j].clone());
            proof { lemma_strings_view_push(before, args@[j as int]); }
            assert(strings_view(collected@) =~= prefix + strings_view(args@).take(j + 1));
            j = j + 1;
        }
        assert(strings_view(args@).take(args@.len() as int) =~= strings_view(args@));
        collected
    }

    /// The password that must be obscured before the remote is created, if it has one.
    pub open spec fn secret_view(remote: Remote) -> Option<Seq<char>> {
        match remote {
            Remote::Ftp { password, .. } => Some(password@),
            Remote::Smb { password, .. } => Some(password@),
            Remote::WebDav { password, .. } => Some(password@),
            _ => None,
        }
    }

    /// The remote with its password replaced by `obscured`, for remotes that have one.
    pub open spec fn with_secret(remote: Remote, obscured: String) -> Remote {
        match remote {
            Remote::Ftp { id, host, port, username, .. } => Remote::Ftp {
                id,
                host,
                port,
                username,
                password: obscured,
            },
            Remote::Smb { id, host, port, username, .. } => Remote::Smb {
                id,
                host,
                port,
                username,
                password: obscured,
            },
            Remote::WebDav { id, url, username, provider, .. } => Remote::WebDav {
                id,
                url,
                username,
                password: obscured,
                provider,
            },
            _ => remote,
        }
    }

    /// `rclone config create <id> <slug> <key=value>...` for `remote`, before the
    /// configured arguments are put in front.
    pub open spec fn create_args_view(remote: Remote) -> Seq<Seq<char>> {
        seq!["config"@, "create"@, remote.id_view(), remote.slug_view()] + match remote.config_args_view() {
            Some(extra) => extra,
            None => Seq::empty(),
        }
    }

    fn create_args(remote: &Remote) -> (r: Vec<String>)
        ensures
            strings_view(r@) == Self::create_args_view(*remote),
    {
        let mut args = vec![
            String::from_str("config"),
            String::from_str("create"),
            String::from_str(remote.id()),
            String::from_str(remote.slug()),
        ];
        let ghost head = strings_view(args@);
        assert(head =~= seq!["config"@, "create"@, remote.id_view(), remote.slug_view()]);
        if let Some(extra) = remote.config_args() {
            let mut i: usize = 0;
            while i < extra.len()
                invariant
                    i <= extra@.len(),
                    strings_view(args@) == head + strings_view(extra@).take(i as int),
                decreases extra.len() - i,
            {
                let ghost before = args@;
                args.push(extra[i].clone());
                proof { lemma_strings_view_push(before, extra@[i as int]); }
                assert(strings_view(args@) =~= head + strings_view(extra@).take(i + 1));
                i = i + 1;
            }
            assert(strings_view(extra@).take(extra@.len() as int) =~= strings_view(extra@));
        } else {
            assert(head + Seq::<Seq<char>>::empty() =~= head);
        }
        args
    }

    /// The next step of configuring the remote in Rclone. A remote that needs no
    /// configuration finishes at once. A remote with a password first has Rclone obscure
    /// it (privately), then is created with the obscured password (privately); other
    /// remotes are created directly. After the creation, configuration finishes.
    pub fn configure_remote_step(&self, event: ConfigureEvent) -> (r: ConfigureAction)
        ensures
            !self.remote_view().needs_configuration_view() ==> r is Finish,
            self.remote_view().needs_configuration_view() ==> match event {
                ConfigureEvent::Start => match Self::secret_view(self.remote_view()) {
                    Some(secret) => (r matches ConfigureAction::Run { args, private, obscures } && private && obscures
                        && strings_view(args@) == self.args_view(seq!["obscure"@, secret])),
                    None => (r matches ConfigureAction::Run { args, private, obscures } && !private && !obscures
                        && strings_view(args@) == self.args_view(Self::create_args_view(self.remote_view()))),
                },
                ConfigureEvent::Obscured(obscured) => (r matches ConfigureAction::Run { args, private, obscures } && !obscures
                    && private == (Self::secret_view(self.remote_view()) is Some)
                    && strings_view(args@) == self.args_view(
                    Self::create_args_view(Self::with_secret(self.remote_view(), obscured)),
                )),
                ConfigureEvent::Created => r is Finish,
            },
    {
        if !self.remote.needs_configuration() {
            return ConfigureAction::Finish;
        }
        match event {
            ConfigureEvent::Start => {
                let secret: Option<&String> = match &self.remote {
                    Remote::Ftp { password, .. } => Some(password),
                    Remote::Smb { password, .. } => Some(password),
                    Remote::WebDav { password, .. } => Some(password),
                    _ => None,
                };
                match secret {
                    Some(password) => {
                        let words = vec![String::from_str("obscure"), password.clone()];
                        assert(strings_view(words@) =~= seq!["obscure"@, password@]);
                        ConfigureAction::Run { args: self.args(&words), private: true, obscures: true }
                    },
                    None => {
                        let words = Self::create_args(&self.remote);
                        ConfigureAction::Run { args: self.args(&words), private: false, obscures: false }
                    },
                }
            },
            ConfigureEvent::Obscured(obscured) => {
                let mut remote = self.remote.clone();
                let mut private = false;
                match &mut remote {
                    Remote::Ftp { password, .. } => {
                        private = true;
                        *password = obscured;
                    },
                    Remote::Smb { password, .. } => {
                        private = true;
                        *password = obscured;
                    },
                    Remote::WebDav { password, .. } => {
                        private = true;
                        *password = obscured;
                    },
                    _ => {},
                }
                assert(remote == Self::with_secret(self.remote, obscured));
                let words = Self::create_args(&remote);
                ConfigureAction::Run { args: self.args(&words), private, obscures: false }
            },
            ConfigureEvent::Created => ConfigureAction::Finish,
        }
    }

    /// What removing the remote from Rclone takes: nothing for a remote that needs no
    /// configuration, else `rclone config delete <id>`.
    pub fn unconfigure_remote_step(&self) -> (r: ConfigureAction)
        ensures
            !self.remote_view().needs_configuration_view() ==> r is Finish,
            self.remote_view().needs_configuration_view() ==> (r matches ConfigureAction::Run { args, private, obscures }
                && !private && !obscures && strings_view(args@) == self.args_view(
                seq!["config"@, "delete"@, self.remote_view().id_view()],
            )),
    {
        if !self.remote.needs_configuration() {
            return ConfigureAction::Finish;
        }
        let words = vec![
            String::from_str("config"),
            String::from_str("delete"),
            String::from_str(self.remote.id()),
        ];
        assert(strings_view(words@) =~= seq!["config"@, "delete"@, self.remote.id_view()]);
        ConfigureAction::Run { args: self.args(&words), private: false, obscures: false }
    }
}

} // verus!
