//! Setting the tool up on a machine: what depends on the platform, the text
//! of the settings file, and the authorization that it holds.
//!
//! Fetching the vault tool and writing the files is the caller's part.

use vstd::prelude::*;
use vstd::string::*;
use vstd::utf8::encode_utf8;
use crate::text::{joined, same_text};

verus! {

/// The platforms that the vault tool is published for.
#[derive(Debug, Clone, Copy, PartialEq, Eq, Structural)]
pub enum Platform {
    Windows,
    MacOs,
    Linux,
}

/// The platform that an operating system's name stands for.
pub open spec fn platform_named(os: Seq<char>) -> Option<Platform> {
    if os == "windows"@ {
        Some(Platform::Windows)
    } else if os == "macos"@ {
        Some(Platform::MacOs)
    } else if os == "linux"@ {
        Some(Platform::Linux)
    } else {
        None
    }
}

impl Platform {
    /// Reads the platform from the name that the standard library gives the
    /// operating system. Any other system is unsupported.
    pub fn from_os(os: &str) -> (platform: Option<Platform>)
        ensures
            platform == platform_named(os@),
    {
        if same_text(os, "windows") {
            Some(Platform::Windows)
        } else if same_text(os, "macos") {
            Some(Platform::MacOs)
        } else if same_text(os, "linux") {
            Some(Platform::Linux)
        } else {
            None
        }
    }

    /// Where the vault tool is downloaded from.
    pub open spec fn download(self) -> Seq<char> {
        match self {
            Platform::Windows => "https://vault.bitwarden.com/download/?app=cli&platform=windows"@,
            Platform::MacOs => "https://vault.bitwarden.com/download/?app=cli&platform=macos"@,
            Platform::Linux => "https://vault.bitwarden.com/download/?app=cli&platform=linux"@,
        }
    }

    /// The directory that the vault tool is installed in.
    pub open spec fn directory(self) -> Seq<char> {
        match self {
            Platform::Windows => "C:\\Windows\\System32"@,
            Platform::MacOs => "/usr/local/bin"@,
            Platform::Linux => "/usr/local/bin"@,
        }
    }

    /// The environment variable that holds the search path.
    pub open spec fn search_path(self) -> Seq<char> {
        match self {
            Platform::Windows => "Path"@,
            Platform::MacOs => "PATH"@,
            Platform::Linux => "PATH"@,
        }
    }

    pub fn download_url(&self) -> (url: &'static str)
        ensures
            url@ == self.download(),
    {
        match self {
            Platform::Windows => "https://vault.bitwarden.com/download/?app=cli&platform=windows",
            Platform::MacOs => "https://vault.bitwarden.com/download/?app=cli&platform=macos",
            Platform::Linux => "https://vault.bitwarden.com/download/?app=cli&platform=linux",
        }
    }

    pub fn install_dir(&self) -> (directory: &'static str)
        ensures
            directory@ == self.directory(),
    {
        match self {
            Platform::Windows => "C:\\Windows\\System32",
            Platform::MacOs => "/usr/local/bin",
            Platform::Linux => "/usr/local/bin",
        }
    }

    pub fn path_variable(&self) -> (variable: &'static str)
        ensures
            variable@ == self.search_path(),
    {
        match self {
            Platform::Windows => "Path",
            Platform::MacOs => "PATH",
            Platform::Linux => "PATH",
        }
    }
}

/// The base64 encoding of `data` with the standard alphabet and padding.
pub uninterp spec fn base64_standard(data: Seq<u8>) -> Seq<char>;

/// `base64::Engine::encode` of the engine `general_purpose::STANDARD`: the
/// bytes in base64, standard alphabet, padded.
#[verifier::external_body]
fn base64_text(data: &[u8]) -> (text: String)
    ensures
        text@ == base64_standard(data@),
{
    base64::Engine::encode(&base64::engine::general_purpose::STANDARD, data)
}

/// The authorization for a user and a password: the scheme, then the two
/// with a colon between them, in base64.
pub open spec fn basic_auth(username: Seq<char>, password: Seq<char>) -> Seq<char> {
    "Basic "@ + base64_standard(encode_utf8(username + ":"@ + password))
}

/// Writes the authorization that goes into the settings file.
pub fn generate_basic_auth(username: &str, password: &str) -> (header: String)
    ensures
        header@ == basic_auth(username@, password@),
{
    let mut pair = String::from_str(username);
    pair.append(":");
    pair.append(password);
    let encoded = base64_text(pair.as_str().as_bytes());
    joined("Basic ", encoded.as_str())
}

/// The authorization to write where the user and the password may be
/// missing: without both of them it is empty.
pub fn basic_auth_for(username: Option<&str>, password: Option<&str>) -> (header: String)
    ensures
        header@ == match (username, password) {
            (Some(username), Some(password)) => basic_auth(username@, password@),
            _ => Seq::empty(),
        },
{
    match (username, password) {
        (Some(username), Some(password)) => generate_basic_auth(username, password),
        _ => String::new(),
    }
}

/// The line of the settings file that sets `name`, if there is a value
/// for it.
pub open spec fn setting_line(name: Seq<char>, value: Option<&str>) -> Seq<char> {
    match value {
        Some(value) => name + "="@ + value@ + "\n"@,
        None => Seq::empty(),
    }
}

/// The line that sets `name` to a value between single quotes.
pub open spec fn quoted_setting_line(name: Seq<char>, value: Option<&str>) -> Seq<char> {
    match value {
        Some(value) => name + "='"@ + value@ + "'\n"@,
        None => Seq::empty(),
    }
}

/// The settings file: one line for each value that is there, in this order;
/// the authorization stands between single quotes.
pub open spec fn env_file(
    client_id: Option<&str>,
    client_secret: Option<&str>,
    master_password: Option<&str>,
    epicor_base_url: Option<&str>,
    epicor_api_key: Option<&str>,
    epicor_basic_auth: Option<&str>,
) -> Seq<char> {
    setting_line("BW_CLIENTID"@, client_id) + setting_line("BW_CLIENTSECRET"@, client_secret)
        + setting_line("MASTER_PASSWORD"@, master_password) + setting_line(
        "EPICOR_BASE_URL"@,
        epicor_base_url,
    ) + setting_line("EPICOR_API_KEY"@, epicor_api_key) + quoted_setting_line(
        "EPICOR_BASIC_AUTH"@,
        epicor_basic_auth,
    )
}

fn add_setting(file: &mut String, name: &str, opening: &str, value: Option<&str>, closing: &str)
    ensures
        final(file)@ == old(file)@ + match value {
            Some(value) => name@ + opening@ + value@ + closing@,
            None => Seq::empty(),
        },
{
    match value {
        Some(value) => {
            let ghost before = file@;
            file.append(name);
            file.append(opening);
            file.append(value);
            file.append(closing);
            assert(file@ =~= before + (name@ + opening@ + value@ + closing@));
        },
        None => {
            assert(file@ =~= file@ + Seq::<char>::empty());
        },
    }
}

/// Writes the text of the settings file.
pub fn env_file_contents(
    client_id: Option<&str>,
    client_secret: Option<&str>,
    master_password: Option<&str>,
    epicor_base_url: Option<&str>,
    epicor_api_key: Option<&str>,
    epicor_basic_auth: Option<&str>,
) -> (file: String)
    ensures
        file@ == env_file(
            client_id,
            client_secret,
            master_password,
            epicor_base_url,
            epicor_api_key,
            epicor_basic_auth,
        ),
{
    let mut file = String::new();
    add_setting(&mut file, "BW_CLIENTID", "=", client_id, "\n");
    add_setting(&mut file, "BW_CLIENTSECRET", "=", client_secret, "\n");
    add_setting(&mut file, "MASTER_PASSWORD", "=", master_password, "\n");
    add_setting(&mut file, "EPICOR_BASE_URL", "=", epicor_base_url, "\n");
    add_setting(&mut file, "EPICOR_API_KEY", "=", epicor_api_key, "\n");
    add_setting(&mut file, "EPICOR_BASIC_AUTH", "='", epicor_basic_auth, "'\n");
    assert(file@ =~= env_file(
        client_id,
        client_secret,
        master_password,
        epicor_base_url,
        epicor_api_key,
        epicor_basic_auth,
    ));
    file
}

} // verus!
