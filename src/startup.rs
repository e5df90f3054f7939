//! What the relay reads once before it starts serving: its configuration and
//! the host to upload to.

use vstd::prelude::*;
use vstd::utf8::is_ascii_chars;

verus! {

/// Why the relay cannot start.
#[derive(Debug, Clone, Copy, PartialEq, Eq, Structural)]
pub enum StartupError {
    /// The configuration is missing or holds a value out of range.
    ConfigError,
    /// The credentials file is missing, unreadable, unparsable or names no host.
    CredentialsUnavailable,
}

/// The relay's settings, fixed for the life of the process.
#[derive(Debug)]
pub struct Config {
    pub download_dir: String,
    pub port: u16,
}

/// `p` is an absolute path.
pub open spec fn is_absolute(p: Seq<char>) -> bool {
    p.len() > 0 && p[0] == '/'
}

impl Config {
    /// The settings hold a usable port and an absolute scratch directory.
    pub open spec fn wf(&self) -> bool {
        self.port >= 1 && is_absolute(self.download_dir@)
    }

    /// Checks the settings read from the configuration file.
    pub fn new(download_dir: String, port: u16) -> (r: Result<Config, StartupError>)
        ensures
            match r {
                Ok(c) => c.download_dir@ == download_dir@ && c.port == port && c.wf(),
                Err(e) => e == StartupError::ConfigError,
            },
            r is Ok <==> port >= 1 && is_absolute(download_dir@),
    {
        if port == 0 || download_dir.unicode_len() == 0 || download_dir.as_str().get_char(0) != '/' {
            Err(StartupError::ConfigError)
        } else {
            Ok(Config { download_dir, port })
        }
    }
}

/// The upload target: the first host of the credentials file. The secrets
/// stay in the file, where the FTP client reads them itself.
#[derive(Debug)]
pub struct CredentialRecord {
    pub host: String,
}

/// The host names of the machine entries of a netrc text, in order, or
/// `None` when the text does not parse.
pub uninterp spec fn netrc_hosts(text: Seq<char>) -> Option<Seq<Seq<char>>>;

/// Relies on `netrc::Netrc::parse`, of which only the names of the `hosts`
/// entries are kept. Its lexer cuts lines at byte offsets counted in
/// characters, which can panic outside ASCII: such text is not handed to it.
#[verifier::external_body]
fn parse_netrc_hosts(text: &str) -> (r: Option<Vec<String>>)
    requires
        is_ascii_chars(text@),
    ensures
        r is Some <==> netrc_hosts(text@) is Some,
        r is Some ==> netrc_hosts(text@) == Some(r->Some_0@.map_values(|h: String| h@)),
{
    netrc::Netrc::parse(text.as_bytes()).ok().map(|n| n.hosts.into_iter().map(|(h, _)| h).collect())
}

/// The upload host that a list of parsed host names gives.
pub open spec fn host_of(hosts: Option<Seq<Seq<char>>>) -> Result<Seq<char>, StartupError> {
    match hosts {
        Some(hs) => if hs.len() > 0 {
            Ok(hs[0])
        } else {
            Err(StartupError::CredentialsUnavailable)
        },
        None => Err(StartupError::CredentialsUnavailable),
    }
}

/// The text of each parsed host name.
pub open spec fn names_view(hosts: Option<Vec<String>>) -> Option<Seq<Seq<char>>> {
    match hosts {
        Some(v) => Some(v@.map_values(|h: String| h@)),
        None => None,
    }
}

/// Picks the first of the parsed host names; `None` stands for a file that
/// did not parse.
pub fn first_host(hosts: Option<Vec<String>>) -> (r: Result<CredentialRecord, StartupError>)
    ensures
        match r {
            Ok(c) => host_of(names_view(hosts))
                == Ok::<Seq<char>, StartupError>(c.host@),
            Err(e) => host_of(names_view(hosts))
                == Err::<Seq<char>, StartupError>(e),
        },
{
    match hosts {
        None => Err(StartupError::CredentialsUnavailable),
        Some(v) => {
            if v.len() == 0 {
                Err(StartupError::CredentialsUnavailable)
            } else {
                let host = v[0].clone();
                Ok(CredentialRecord { host })
            }
        },
    }
}

/// The upload host that the text of a credentials file gives. Text outside
/// ASCII counts as unparsable.
pub open spec fn credential_host(text: Seq<char>) -> Result<Seq<char>, StartupError> {
    if is_ascii_chars(text) {
        host_of(netrc_hosts(text))
    } else {
        Err(StartupError::CredentialsUnavailable)
    }
}

/// Reads the upload host out of the text of a netrc credentials file.
pub fn load_credentials(text: &str) -> (r: Result<CredentialRecord, StartupError>)
    ensures
        match r {
            Ok(c) => credential_host(text@) == Ok::<Seq<char>, StartupError>(c.host@),
            Err(e) => credential_host(text@) == Err::<Seq<char>, StartupError>(e),
        },
{
    if !text.is_ascii() {
        return Err(StartupError::CredentialsUnavailable);
    }
    let hosts = parse_netrc_hosts(text);
    proof {
        if hosts is Some {
            assert(names_view(hosts) == netrc_hosts(text@));
        }
    }
    first_host(hosts)
}

} // verus!
