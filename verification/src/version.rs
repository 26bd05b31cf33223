//! Client identity: what the node calls itself over RPC and p2p.

use vstd::prelude::*;
use vstd::string::StringExecFns;

verus! {

/// Name of the client.
pub const DEFAULT_NAME: &'static str = "load-reth";

/// Two-letter code of the client family.
pub const CLIENT_CODE: &'static str = "RH";

/// How a client identifies itself over the engine API.
#[derive(Clone, Debug, PartialEq, Eq)]
pub struct ClientVersionV1 {
    /// Two-letter code of the client family.
    pub code: String,
    /// Name of the client.
    pub name: String,
    /// Version of the client.
    pub version: String,
    /// Commit that the client was built from.
    pub commit: String,
}

/// The version string: the name, `/v`, the package version, a hyphen, and
/// the short hash of the commit or `unknown`.
pub open spec fn version_string(pkg_version: Seq<char>, git_sha_short: Option<Seq<char>>) -> Seq<
    char,
> {
    DEFAULT_NAME@ + "/v"@ + pkg_version + "-"@ + (match git_sha_short {
        Some(sha) => sha,
        None => "unknown"@,
    })
}

/// The commit: `0x` and the hash of the commit, or `0x0` where it is not
/// known.
pub open spec fn commit_string(git_sha_long: Option<Seq<char>>) -> Seq<char> {
    match git_sha_long {
        Some(sha) => "0x"@ + sha,
        None => "0x0"@,
    }
}

/// The view of an optional text.
pub open spec fn text_of(text: Option<&str>) -> Option<Seq<char>> {
    match text {
        Some(t) => Some(t@),
        None => None,
    }
}

/// Returns the version string advertised over RPC/p2p, from the package
/// version and the short hash of the commit that the build recorded.
pub fn load_client_version_string(pkg_version: &str, git_sha_short: Option<&str>) -> (r: String)
    ensures
        r@ == version_string(pkg_version@, text_of(git_sha_short)),
{
    let sha = match git_sha_short {
        Some(sha) => sha,
        None => "unknown",
    };
    let mut version = String::from_str(DEFAULT_NAME);
    version.append("/v");
    version.append(pkg_version);
    version.append("-");
    version.append(sha);
    version
}

/// The commit that the client was built from, as the engine API wants it.
pub fn load_commit(git_sha_long: Option<&str>) -> (r: String)
    ensures
        r@ == commit_string(text_of(git_sha_long)),
{
    match git_sha_long {
        Some(sha) => String::from_str("0x").concat(sha),
        None => String::from_str("0x0"),
    }
}

/// Returns the Engine API client-identification payload for load-reth.
pub fn load_client_version_entry(
    pkg_version: &str,
    git_sha_short: Option<&str>,
    git_sha_long: Option<&str>,
) -> (r: ClientVersionV1)
    ensures
        r.code@ == CLIENT_CODE@,
        r.name@ == DEFAULT_NAME@,
        r.version@ == version_string(pkg_version@, text_of(git_sha_short)),
        r.commit@ == commit_string(text_of(git_sha_long)),
{
    ClientVersionV1 {
        code: String::from_str(CLIENT_CODE),
        name: String::from_str(DEFAULT_NAME),
        version: load_client_version_string(pkg_version, git_sha_short),
        commit: load_commit(git_sha_long),
    }
}

} // verus!
