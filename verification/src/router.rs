//! The embedded router: the options it is started with, and what the bridge
//! does when its background task ends.
//!
//! The router itself is a service outside this library. The library decides
//! the options handed to it and how its end is reported; the caller schedules
//! the task.

use vstd::prelude::*;
use vstd::string::StringExecFns;

verus! {

/// Lengths and counts of the exploratory tunnels.
pub struct TunnelOptions {
    pub exploratory_inbound_len: Option<usize>,
    pub exploratory_inbound_count: Option<usize>,
    pub exploratory_outbound_len: Option<usize>,
    pub exploratory_outbound_count: Option<usize>,
    pub insecure_tunnels: Option<bool>,
}

/// Reseeding of the router's peer database.
pub struct ReseedOptions {
    pub reseed_hosts: Option<Vec<String>>,
    pub disable_reseed: Option<bool>,
    pub reseed_threshold: Option<usize>,
    pub force_reseed: Option<bool>,
    pub disable_force_ipv4: Option<bool>,
}

/// The router's metrics endpoint.
pub struct MetricsOptions {
    pub metrics_server_port: Option<u16>,
    pub disable_metrics: Option<bool>,
}

/// The router's HTTP proxy: the upstream that the bridge forwards through.
pub struct HttpProxyOptions {
    pub http_proxy_port: Option<u16>,
    pub http_proxy_host: Option<String>,
    pub http_outproxy: Option<String>,
}

/// The router's SOCKS proxy.
pub struct SocksProxyOptions {
    pub socks_proxy_port: Option<u16>,
    pub socks_proxy_host: Option<String>,
}

/// Transit tunnels carried for other routers.
pub struct TransitOptions {
    pub max_transit_tunnels: Option<usize>,
    pub disable_transit_tunnels: Option<bool>,
}

/// Port forwarding through the local gateway.
pub struct PortForwardingOptions {
    pub disable_upnp: Option<bool>,
    pub disable_nat_pmp: Option<bool>,
    pub upnp_name: Option<String>,
}

/// The router's own user interface.
pub struct RouterUiOptions {
    pub disable_ui: Option<bool>,
    pub refresh_interval: Option<usize>,
    pub theme: Option<String>,
    pub web_ui_port: Option<u16>,
}

/// Everything the router service is started with. An unset field leaves the
/// router's own default in force.
pub struct RouterOptions {
    pub base_path: Option<String>,
    pub log: Option<String>,
    pub floodfill: Option<bool>,
    pub allow_local: Option<bool>,
    pub caps: Option<String>,
    pub net_id: Option<u8>,
    pub overwrite_config: Option<bool>,
    pub tunnel: TunnelOptions,
    pub reseed: ReseedOptions,
    pub metrics: MetricsOptions,
    pub http_proxy: HttpProxyOptions,
    pub socks_proxy: SocksProxyOptions,
    pub transit: TransitOptions,
    pub port_forwarding: PortForwardingOptions,
    pub router_ui: RouterUiOptions,
}

impl TunnelOptions {
    /// No tunnel option is set.
    pub open spec fn unset(&self) -> bool {
        &&& self.exploratory_inbound_len is None
        &&& self.exploratory_inbound_count is None
        &&& self.exploratory_outbound_len is None
        &&& self.exploratory_outbound_count is None
        &&& self.insecure_tunnels is None
    }
}

impl ReseedOptions {
    /// No reseed option is set.
    pub open spec fn unset(&self) -> bool {
        &&& self.reseed_hosts is None
        &&& self.disable_reseed is None
        &&& self.reseed_threshold is None
        &&& self.force_reseed is None
        &&& self.disable_force_ipv4 is None
    }
}

impl MetricsOptions {
    /// No metrics option is set.
    pub open spec fn unset(&self) -> bool {
        &&& self.metrics_server_port is None
        &&& self.disable_metrics is None
    }
}

impl SocksProxyOptions {
    /// No SOCKS option is set.
    pub open spec fn unset(&self) -> bool {
        &&& self.socks_proxy_port is None
        &&& self.socks_proxy_host is None
    }
}

impl TransitOptions {
    /// No transit option is set.
    pub open spec fn unset(&self) -> bool {
        &&& self.max_transit_tunnels is None
        &&& self.disable_transit_tunnels is None
    }
}

impl PortForwardingOptions {
    /// No port forwarding option is set.
    pub open spec fn unset(&self) -> bool {
        &&& self.disable_upnp is None
        &&& self.disable_nat_pmp is None
        &&& self.upnp_name is None
    }
}

impl RouterOptions {
    /// The options of a router embedded in the bridge: its HTTP proxy
    /// listens on `port`, its user interface is switched off, and every
    /// other field is unset.
    pub open spec fn is_embedded_for(&self, port: u16) -> bool {
        &&& self.http_proxy.http_proxy_port == Some(port)
        &&& self.http_proxy.http_proxy_host is None
        &&& self.http_proxy.http_outproxy is None
        &&& self.router_ui.disable_ui == Some(true)
        &&& self.router_ui.refresh_interval is None
        &&& self.router_ui.theme is None
        &&& self.router_ui.web_ui_port is None
        &&& self.base_path is None
        &&& self.log is None
        &&& self.floodfill is None
        &&& self.allow_local is None
        &&& self.caps is None
        &&& self.net_id is None
        &&& self.overwrite_config is None
        &&& self.tunnel.unset()
        &&& self.reseed.unset()
        &&& self.metrics.unset()
        &&& self.socks_proxy.unset()
        &&& self.transit.unset()
        &&& self.port_forwarding.unset()
    }

    /// Builds the options for a router embedded in the bridge.
    pub fn embedded(port: u16) -> (r: RouterOptions)
        ensures
            r.is_embedded_for(port),
    {
        RouterOptions {
            base_path: None,
            log: None,
            floodfill: None,
            allow_local: None,
            caps: None,
            net_id: None,
            overwrite_config: None,
            tunnel: TunnelOptions {
                exploratory_inbound_len: None,
                exploratory_inbound_count: None,
                exploratory_outbound_len: None,
                exploratory_outbound_count: None,
                insecure_tunnels: None,
            },
            reseed: ReseedOptions {
                reseed_hosts: None,
                disable_reseed: None,
                reseed_threshold: None,
                force_reseed: None,
                disable_force_ipv4: None,
            },
            metrics: MetricsOptions { metrics_server_port: None, disable_metrics: None },
            http_proxy: HttpProxyOptions {
                http_proxy_port: Some(port),
                http_proxy_host: None,
                http_outproxy: None,
            },
            socks_proxy: SocksProxyOptions { socks_proxy_port: None, socks_proxy_host: None },
            transit: TransitOptions { max_transit_tunnels: None, disable_transit_tunnels: None },
            port_forwarding: PortForwardingOptions {
                disable_upnp: None,
                disable_nat_pmp: None,
                upnp_name: None,
            },
            router_ui: RouterUiOptions {
                disable_ui: Some(true),
                refresh_interval: None,
                theme: None,
                web_ui_port: None,
            },
        }
    }
}

/// Where the background router stands, as far as the bridge can tell.
#[derive(Clone, Copy, Debug, PartialEq, Eq, Structural)]
pub enum RouterStatus {
    /// The task was scheduled and has not ended.
    Running,
    /// The task ended without an error.
    Stopped,
    /// The task ended with an error.
    Failed,
}

/// What the caller does when it has launched the router or seen it end.
pub struct RouterStep {
    /// The router's status after the step.
    pub status: RouterStatus,
    /// The line to write to the error log, if any.
    pub log_line: Option<String>,
    /// Whether the bridge goes on. The router's end never stops it.
    pub bridge_continues: bool,
}

/// The prefix of the line that reports a failed router.
pub open spec fn router_error_prefix() -> Seq<char> {
    "Emissary Router Error: "@
}

/// The step taken when the router has been launched and the launch returns
/// to the caller: the task counts as running, and nothing is known of its
/// health.
pub fn launch_embedded_router(port: u16) -> (r: (RouterOptions, RouterStep))
    ensures
        r.0.is_embedded_for(port),
        r.1.status == RouterStatus::Running,
        r.1.log_line is None,
        r.1.bridge_continues,
{
    (
        RouterOptions::embedded(port),
        RouterStep { status: RouterStatus::Running, log_line: None, bridge_continues: true },
    )
}

/// The step taken when the router's task has ended. `error` is the text of
/// the error it ended with, if it ended with one. A failure is logged and
/// goes no further: the bridge continues either way.
pub fn router_ended(error: Option<&str>) -> (r: RouterStep)
    ensures
        r.bridge_continues,
        error is None ==> r.status == RouterStatus::Stopped && r.log_line is None,
        error is Some ==> r.status == RouterStatus::Failed && r.log_line is Some
            && r.log_line->0@ == router_error_prefix() + error->0@,
{
    match error {
        None => RouterStep { status: RouterStatus::Stopped, log_line: None, bridge_continues: true },
        Some(text) => {
            let line = String::from_str("Emissary Router Error: ").concat(text);
            RouterStep {
                status: RouterStatus::Failed,
                log_line: Some(line),
                bridge_continues: true,
            }
        },
    }
}

} // verus!
