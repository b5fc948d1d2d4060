//! The local configuration records.
//!
//! Loading and persisting these (the settings store, the download of a
//! remote default) is I/O that the embedding application performs; the core
//! only defines the records, their defaults, and the launch parameters
//! derived from them.

use vstd::prelude::*;

verus! {

/// Settings of the network-edge worker.
pub struct N2NClientConfig {
    pub identification: String,
    pub group: String,
    pub server: String,
    pub port: u16,
    pub member_server: String,
    pub control_port: u16,
}

impl Default for N2NClientConfig {
    fn default() -> (r: Self)
        ensures
            r.identification@ == "Default"@,
            r.group@ == "lers10"@,
            r.server@ == "服务器地址"@,
            r.port == 49898u16,
            r.member_server@ == "成员服务器地址"@,
            r.control_port == 5644u16,
    {
        N2NClientConfig {
            identification: String::from_str("Default"),
            group: String::from_str("lers10"),
            server: String::from_str("服务器地址"),
            port: 49898,
            member_server: String::from_str("成员服务器地址"),
            control_port: 5644,
        }
    }
}

/// The whole local configuration.
pub struct LocalConfig {
    pub n2n_config: N2NClientConfig,
    pub nat_detect: Vec<String>,
    pub miniserve_port: u32,
}

impl Default for LocalConfig {
    fn default() -> (r: Self)
        ensures
            r.n2n_config.identification@ == "Default"@,
            r.n2n_config.group@ == "lers10"@,
            r.n2n_config.server@ == "服务器地址"@,
            r.n2n_config.port == 49898u16,
            r.n2n_config.member_server@ == "成员服务器地址"@,
            r.n2n_config.control_port == 5644u16,
            r.nat_detect@.len() == 2,
            r.nat_detect@[0]@ == "stun.nextcloud.com:3478"@,
            r.nat_detect@[1]@ == "stun.miwifi.com:3478"@,
            r.miniserve_port == 8090u32,
    {
        let mut nat_detect: Vec<String> = Vec::new();
        nat_detect.push(String::from_str("stun.nextcloud.com:3478"));
        nat_detect.push(String::from_str("stun.miwifi.com:3478"));
        LocalConfig {
            n2n_config: N2NClientConfig::default(),
            nat_detect,
            miniserve_port: 8090,
        }
    }
}

} // verus!
