//! The configuration of a cycle: which services to notify, and where the
//! configuration itself is looked for.

use crate::provider::{Service, ServiceView};
use vstd::prelude::*;

verus! {

/// The environment variable that may name the configuration file.
pub const CONFIG_VARIABLE: &'static str = "CONFIG";

/// The configuration file that is read where the environment names no other.
pub const DEFAULT_CONFIG_PATH: &'static str = ".env.toml";

/// The path of the configuration file: the one that the environment names,
/// or the default.
pub fn config_path(named: Option<String>) -> (path: String)
    ensures
        path@ == match named {
            Some(chosen) => chosen@,
            None => DEFAULT_CONFIG_PATH@,
        },
{
    match named {
        Some(chosen) => chosen,
        None => String::from_str(DEFAULT_CONFIG_PATH),
    }
}

/// The services to notify, in the order in which they are told.
#[derive(Debug, PartialEq, Eq)]
pub struct Config {
    pub targets: Vec<Service>,
}

/// The views of `targets`, in the same order.
pub open spec fn services_view(targets: Seq<Service>) -> Seq<ServiceView> {
    targets.map_values(|service: Service| service@)
}

impl View for Config {
    type V = Seq<ServiceView>;

    open spec fn view(&self) -> Seq<ServiceView> {
        services_view(self.targets@)
    }
}

} // verus!
