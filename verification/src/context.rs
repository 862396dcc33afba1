//! What a guest is given of the system: its arguments, its environment, and
//! the grants on files and network.

use vstd::prelude::*;
use vstd::string::StringExecFns;
use crate::env::{envs_from_ctx, pairs_view, split_entries};

verus! {

/// A directory of the host that the guest may open, and the name under
/// which the guest sees it.
pub struct Preopen {
    /// The directory on the host.
    pub host: String,
    /// The directory as the guest names it.
    pub guest: String,
    /// Whether the guest may read and change the directory itself.
    pub all_dir_perms: bool,
    /// Whether the guest may read and write the files in it.
    pub all_file_perms: bool,
}

/// What a guest is given: one such setup is made for each execution and
/// shared with no other.
pub struct WasiSetup {
    /// The guest's arguments, in order.
    pub args: Vec<String>,
    /// The guest's environment, in order.
    pub envs: Vec<(String, String)>,
    /// The guest uses the process's standard streams.
    pub inherit_stdio: bool,
    /// The guest uses the host's network.
    pub inherit_network: bool,
    /// The guest may open TCP sockets.
    pub allow_tcp: bool,
    /// The guest may open UDP sockets.
    pub allow_udp: bool,
    /// The guest may look names up.
    pub allow_ip_name_lookup: bool,
    /// The directories that the guest may open.
    pub preopens: Vec<Preopen>,
}

/// The setup of a guest with these arguments and these `KEY=VALUE` entries:
/// the arguments as they are, the entries as pairs, every grant given, and
/// the host's root directory open as the guest's root with all permissions.
pub fn wasi_builder(args: Vec<String>, entries: &[String]) -> (setup: WasiSetup)
    ensures
        setup.args == args,
        pairs_view(setup.envs@) == split_entries(entries@),
        setup.inherit_stdio,
        setup.inherit_network,
        setup.allow_tcp,
        setup.allow_udp,
        setup.allow_ip_name_lookup,
        setup.preopens@.len() == 1,
        setup.preopens@[0].host@ == "/"@,
        setup.preopens@[0].guest@ == "/"@,
        setup.preopens@[0].all_dir_perms,
        setup.preopens@[0].all_file_perms,
{
    let mut preopens: Vec<Preopen> = Vec::new();
    preopens.push(
        Preopen {
            host: String::from_str("/"),
            guest: String::from_str("/"),
            all_dir_perms: true,
            all_file_perms: true,
        },
    );
    WasiSetup {
        args,
        envs: envs_from_ctx(entries),
        inherit_stdio: true,
        inherit_network: true,
        allow_tcp: true,
        allow_udp: true,
        allow_ip_name_lookup: true,
        preopens,
    }
}

} // verus!
