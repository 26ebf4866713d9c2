//! The persisted configuration records and the results reported to callers.
use vstd::prelude::*;
use crate::text::{trim, trim_str};

verus! {

/// The account configuration: the session token and the account's email.
pub struct AppConfig {
    pub auth_token: Option<String>,
    pub email: Option<String>,
}

impl Clone for AppConfig {
    fn clone(&self) -> (r: AppConfig)
        ensures
            r.auth_token == self.auth_token,
            r.email == self.email,
    {
        AppConfig { auth_token: self.auth_token.clone(), email: self.email.clone() }
    }
}

impl Default for AppConfig {
    fn default() -> (r: AppConfig)
        ensures
            r.auth_token is None,
            r.email is None,
    {
        AppConfig { auth_token: None, email: None }
    }
}

/// The runtime configuration: whether the private runtime is used, and
/// where it lives.
pub struct NodeConfig {
    pub portable: bool,
    pub node_path: String,
}

impl Clone for NodeConfig {
    fn clone(&self) -> (r: NodeConfig)
        ensures
            r.portable == self.portable,
            r.node_path@ == self.node_path@,
    {
        NodeConfig { portable: self.portable, node_path: self.node_path.clone() }
    }
}

impl Default for NodeConfig {
    fn default() -> (r: NodeConfig)
        ensures
            !r.portable,
            r.node_path@.len() == 0,
    {
        NodeConfig { portable: false, node_path: String::new() }
    }
}

impl NodeConfig {
    /// The configuration the provisioner records once the private runtime
    /// has been unpacked into `node_dir`.
    pub fn provisioned(node_dir: String) -> (r: NodeConfig)
        ensures
            r.portable,
            r.node_path@ == node_dir@,
    {
        NodeConfig { portable: true, node_path: node_dir }
    }

    /// The configuration in effect, given what was read from its file:
    /// a missing or unreadable file means the default, not portable.
    pub fn from_stored(stored: Option<NodeConfig>) -> (r: NodeConfig)
        ensures
            match stored {
                Some(c) => r.portable == c.portable && r.node_path@ == c.node_path@,
                None => !r.portable && r.node_path@.len() == 0,
            },
    {
        match stored {
            Some(c) => c,
            None => NodeConfig::default(),
        }
    }
}

/// Whether a runtime was found, which version, where, and whether it is the
/// private one.
pub struct NodeCheckResult {
    pub found: bool,
    pub version: String,
    pub path: String,
    pub portable: bool,
}

impl NodeCheckResult {
    /// The result of probing the runtime's version: first on the search
    /// path (`system_output`, the probe's output when it succeeded), then in
    /// the private runtime at `portable_path` (`portable_output`, likewise).
    /// The version is the probe's output, trimmed.
    pub fn from_probes(
        system_output: Option<&str>,
        portable_output: Option<&str>,
        portable_path: &str,
    ) -> (r: NodeCheckResult)
        ensures
            match system_output {
                Some(out) => r.found && !r.portable && r.version@ == trim(out@) && r.path@ == "node"@,
                None => match portable_output {
                    Some(out) => r.found && r.portable && r.version@ == trim(out@)
                        && r.path@ == portable_path@,
                    None => !r.found && !r.portable && r.version@.len() == 0
                        && r.path@.len() == 0,
                },
            },
    {
        if let Some(out) = system_output {
            return NodeCheckResult {
                found: true,
                version: String::from_str(trim_str(out)),
                path: String::from_str("node"),
                portable: false,
            };
        }
        if let Some(out) = portable_output {
            return NodeCheckResult {
                found: true,
                version: String::from_str(trim_str(out)),
                path: String::from_str(portable_path),
                portable: true,
            };
        }
        NodeCheckResult { found: false, version: String::new(), path: String::new(), portable: false }
    }
}

/// Whether the agent (or the remote service) answered its health probe.
pub struct HealthResult {
    pub running: bool,
}

impl HealthResult {
    /// The probe's verdict from the HTTP status it got, if any: running
    /// exactly when a success status (200 to 299) came back.
    pub fn from_status(status: Option<u16>) -> (r: HealthResult)
        ensures
            r.running == match status {
                Some(s) => 200 <= s && s <= 299,
                None => false,
            },
    {
        match status {
            Some(s) => HealthResult { running: 200 <= s && s <= 299 },
            None => HealthResult { running: false },
        }
    }
}

impl AppConfig {
    /// The session token to present to the remote service: there is none
    /// to present when it is missing or empty.
    pub fn session_token(&self) -> (r: Result<String, String>)
        ensures
            match self.auth_token {
                Some(t) if t@.len() > 0 => r matches Ok(x) && x@ == t@,
                _ => r matches Err(m) && m@ == "Not logged in"@,
            },
    {
        match &self.auth_token {
            Some(t) => {
                if t.unicode_len() > 0 {
                    return Ok(t.clone());
                }
            },
            None => {},
        }
        Err(String::from_str("Not logged in"))
    }
}

/// The account's state as the remote service reports it.
pub struct AccountStatus {
    pub status: String,
    pub email: String,
    pub email_verified: bool,
}

impl AccountStatus {
    /// The state from the fields the service's answer held; a missing status
    /// reads `unknown`, a missing email empty, a missing flag false.
    pub fn from_fields(status: Option<&str>, email: Option<&str>, email_verified: Option<bool>) -> (r: AccountStatus)
        ensures
            r.status@ == match status {
                Some(s) => s@,
                None => "unknown"@,
            },
            r.email@ == match email {
                Some(e) => e@,
                None => Seq::<char>::empty(),
            },
            r.email_verified == match email_verified {
                Some(v) => v,
                None => false,
            },
    {
        let st = match status {
            Some(s) => String::from_str(s),
            None => String::from_str("unknown"),
        };
        let em = match email {
            Some(e) => String::from_str(e),
            None => String::new(),
        };
        let v = match email_verified {
            Some(v) => v,
            None => false,
        };
        AccountStatus { status: st, email: em, email_verified: v }
    }
}

} // verus!
