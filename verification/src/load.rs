//! Assembling the final configuration from the three loaded tiers.
//!
//! Once the caller has loaded the three tier documents — an unreadable tier
//! arrives as an empty document — assembly merges them, resolves the
//! runtime configuration under the portal name, and hands back the merged
//! document together with the connection sections the networking collaborator
//! consumes as-is: the server section, which must be present, and the proxy
//! section, which defaults to empty.

use vstd::prelude::*;

use crate::cfg::Config;
use crate::cfg::ConfigView;
use crate::cfg::ProxyConfig;
use crate::cfg::ProxyConfigView;
use crate::cfg::RuntimeConfig;
use crate::cfg::RuntimeConfigView;
use crate::cfg::ServerConfig;
use crate::cfg::ServerConfigView;
use crate::error::CfgError;
use crate::merge::clone_opt_string;
use crate::merge::merge_configs;
use crate::merge::merge_spec;
use crate::resolve::resolve_spec;

verus! {

/// Assembly of the three tiers: merge, then resolve, then extract the
/// server section (required) and the proxy section (empty when absent).
pub open spec fn assemble_spec(d: ConfigView, s: ConfigView, p: ConfigView, portal_name: Seq<char>)
    -> Result<(ConfigView, RuntimeConfigView, ServerConfigView, ProxyConfigView), CfgError> {
    let merged = merge_spec(d, s, p);
    match resolve_spec(merged, portal_name) {
        Err(e) => Err(e),
        Ok(runtime) => match merged.server {
            None => Err(CfgError::MissingServerSection),
            Some(server) => Ok(
                (
                    merged,
                    runtime,
                    server,
                    match merged.proxy {
                        Some(proxy) => proxy,
                        None => ProxyConfigView { host: None, port: None },
                    },
                ),
            ),
        },
    }
}

/// Merges the three tier documents, ordered lowest to highest precedence,
/// resolves the runtime configuration under the portal name, and returns
/// the merged document together with its server and proxy sections.
pub fn assemble_cfg(
    default: &Config,
    server: &Config,
    portal: &Config,
    portal_name: &str,
) -> (r: Result<(Config, RuntimeConfig, ServerConfig, ProxyConfig), CfgError>)
    ensures
        (match r {
            Ok(out) => assemble_spec(default@, server@, portal@, portal_name@) == Ok::<
                (ConfigView, RuntimeConfigView, ServerConfigView, ProxyConfigView),
                CfgError,
            >((out.0@, out.1@, out.2@, out.3@)),
            Err(e) => assemble_spec(default@, server@, portal@, portal_name@) == Err::<
                (ConfigView, RuntimeConfigView, ServerConfigView, ProxyConfigView),
                CfgError,
            >(e),
        }),
{
    let merged = merge_configs(default, server, portal);
    let runtime = match merged.resolve(portal_name) {
        Ok(rc) => rc,
        Err(e) => {
            return Err(e);
        },
    };
    let server_out = match &merged.server {
        Some(sc) => ServerConfig { host: clone_opt_string(&sc.host), port: sc.port },
        None => {
            return Err(CfgError::MissingServerSection);
        },
    };
    let proxy_out = match &merged.proxy {
        Some(pc) => ProxyConfig { host: clone_opt_string(&pc.host), port: pc.port },
        None => ProxyConfig::default(),
    };
    Ok((merged, runtime, server_out, proxy_out))
}

} // verus!
