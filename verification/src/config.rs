//! The settings of a run, made once and handed to every component.

use vstd::prelude::*;
use vstd::string::*;
use crate::location::parse_url;
use crate::location::parsed_url;

verus! {

/// Base location of the official signature store.
pub const SIGNATURE_STORE: &'static str =
    "https://mirror.openshift.com/pub/openshift-v4/signatures/openshift/release/";

/// Seconds after which a request for a signature is given up.
pub const DEFAULT_TIMEOUT_SECS: u64 = 30;

/// Exclusive upper bound of the slots that a search tries, starting at 1: the
/// search tries the slots 1 to 9.
pub const MAX_SIGNATURES: u64 = 10;

/// The settings of a run.
pub struct Config {
    /// Location under which the signature store publishes its directories: the
    /// serialization of the URL that the base was read as.
    pub base_url: String,
    /// Versions, architecture included, that are never checked.
    pub skip_list: Vec<String>,
    /// Exclusive upper bound of the slots that a search tries, starting at 1.
    pub max_signatures: u64,
    /// Seconds after which a request for a signature is given up.
    pub timeout_secs: u64,
}

/// The base location given to a configuration is no URL.
#[derive(Clone, Copy, Debug, PartialEq, Eq, Structural)]
pub struct MalformedBase;

/// The versions that the standard configuration never checks.
pub open spec fn standard_skip_list() -> Seq<Seq<char>> {
    seq![
        "4.1.0-rc.3+amd64"@,
        "4.1.0-rc.5+amd64"@,
        "4.1.0-rc.4+amd64"@,
        "4.1.0-rc.0+amd64"@,
        "4.1.0-rc.8+amd64"@,
        "4.1.37+amd64"@,
        "4.2.11+amd64"@,
        "4.3.0-rc.0+amd64"@,
        "4.6.0-fc.3+s390x"@,
    ]
}

impl Config {
    /// The skip-list as character sequences.
    pub open spec fn skipped(&self) -> Seq<Seq<char>> {
        self.skip_list.deep_view()
    }

    /// A configuration with the given settings. Fails where `base` is no URL.
    pub fn new(base: &str, skip_list: Vec<String>, max_signatures: u64, timeout_secs: u64) -> (made:
        Result<Config, MalformedBase>)
        ensures
            match made {
                Ok(config) => parsed_url(base@) == Some(config.base_url@) && config.skip_list
                    == skip_list && config.max_signatures == max_signatures && config.timeout_secs
                    == timeout_secs,
                Err(_) => parsed_url(base@) is None,
            },
    {
        match parse_url(base) {
            Some(base_url) => Ok(Config { base_url, skip_list, max_signatures, timeout_secs }),
            None => Err(MalformedBase),
        }
    }

    /// The configuration of the official signature store.
    pub fn standard() -> (made: Result<Config, MalformedBase>)
        ensures
            match made {
                Ok(config) => parsed_url(SIGNATURE_STORE@) == Some(config.base_url@)
                    && config.skipped() == standard_skip_list() && config.max_signatures
                    == MAX_SIGNATURES && config.timeout_secs == DEFAULT_TIMEOUT_SECS,
                Err(_) => parsed_url(SIGNATURE_STORE@) is None,
            },
    {
        let mut skip_list: Vec<String> = Vec::new();
        skip_list.push(String::from_str("4.1.0-rc.3+amd64"));
        skip_list.push(String::from_str("4.1.0-rc.5+amd64"));
        skip_list.push(String::from_str("4.1.0-rc.4+amd64"));
        skip_list.push(String::from_str("4.1.0-rc.0+amd64"));
        skip_list.push(String::from_str("4.1.0-rc.8+amd64"));
        skip_list.push(String::from_str("4.1.37+amd64"));
        skip_list.push(String::from_str("4.2.11+amd64"));
        skip_list.push(String::from_str("4.3.0-rc.0+amd64"));
        skip_list.push(String::from_str("4.6.0-fc.3+s390x"));
        assert(skip_list.deep_view() =~= standard_skip_list());
        Config::new(SIGNATURE_STORE, skip_list, MAX_SIGNATURES, DEFAULT_TIMEOUT_SECS)
    }
}

} // verus!
