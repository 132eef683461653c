use vstd::prelude::*;

verus! {

/// The mock listener's address when none is given.
pub const DEFAULT_HTTP_BIND: &'static str = "0.0.0.0:8088";

/// The admin listener's address when none is given.
pub const DEFAULT_ADMIN_HTTP_BIND: &'static str = "0.0.0.0:8089";

/// How the server is started.
#[derive(Debug, Clone, PartialEq)]
pub struct CliOpt {
    /// Configuration files to load at start.
    pub configuration_files: Vec<String>,
    /// Address of the mock listener.
    pub http_bind: String,
    /// Address of the admin listener.
    pub admin_http_bind: String,
    /// Whether to finish loading the configuration files before serving.
    pub wait: bool,
}

/// The options from what was given on the command line, with the default
/// addresses where none was given.
pub fn load_cli_args(
    configuration_files: Vec<String>,
    http_bind: Option<String>,
    admin_http_bind: Option<String>,
    wait: bool,
) -> (r: CliOpt)
    ensures
        r.configuration_files == configuration_files,
        r.http_bind@ == (match http_bind {
            Some(b) => b@,
            None => DEFAULT_HTTP_BIND@,
        }),
        r.admin_http_bind@ == (match admin_http_bind {
            Some(b) => b@,
            None => DEFAULT_ADMIN_HTTP_BIND@,
        }),
        r.wait == wait,
{
    let http_bind = match http_bind {
        Some(b) => b,
        None => String::from_str(DEFAULT_HTTP_BIND),
    };
    let admin_http_bind = match admin_http_bind {
        Some(b) => b,
        None => String::from_str(DEFAULT_ADMIN_HTTP_BIND),
    };
    CliOpt { configuration_files, http_bind, admin_http_bind, wait }
}

} // verus!
