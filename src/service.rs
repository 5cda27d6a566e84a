use vstd::prelude::*;

verus! {

/// Where the request handler is mounted.
pub const MOUNT_POINT: &'static str = "/";

/// Where the configuration is read from, relative to the working directory.
pub const CONFIG_FILE: &'static str = "config.json";

/// When the configuration is loaded. Either way a configuration that cannot
/// be loaded fails the requests, never the process.
#[derive(Debug, Clone, Copy, PartialEq, Eq, Structural)]
pub enum ConfigPolicy {
    /// Read and parse it anew for each request.
    EveryRequest,
    /// Read and parse it once, when the service starts, and keep the outcome.
    AtStartup,
}

/// How the relay is served.
pub struct Service {
    pub mount_point: String,
    pub config_file: String,
    pub config_policy: ConfigPolicy,
}

/// The relay as served by default: the handler mounted at the root, the
/// configuration read from `config.json` for every request.
pub fn rocket() -> (r: Service)
    ensures
        r.mount_point@ == MOUNT_POINT@,
        r.config_file@ == CONFIG_FILE@,
        r.config_policy == ConfigPolicy::EveryRequest,
{
    Service {
        mount_point: MOUNT_POINT.to_owned(),
        config_file: CONFIG_FILE.to_owned(),
        config_policy: ConfigPolicy::EveryRequest,
    }
}

impl Service {
    pub fn with_config_policy(self, policy: ConfigPolicy) -> (r: Service)
        ensures
            r.mount_point@ == self.mount_point@,
            r.config_file@ == self.config_file@,
            r.config_policy == policy,
    {
        Service { config_policy: policy, ..self }
    }

    /// Whether the configuration is to be loaded for each request.
    pub fn loads_config_per_request(&self) -> (r: bool)
        ensures
            r == (self.config_policy == ConfigPolicy::EveryRequest),
    {
        match self.config_policy {
            ConfigPolicy::EveryRequest => true,
            ConfigPolicy::AtStartup => false,
        }
    }
}

} // verus!
