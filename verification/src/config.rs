//! The node's configuration, and the settings its conductor is built from.

use vstd::prelude::*;

verus! {

/// Everything the host was told about the node it is to run.
///
/// Once the datastore exists it has the last word on the application's
/// identifier and on its port: on a restart `app_id` and `app_ws_port` give
/// way to what was persisted.
#[derive(Clone, Debug, PartialEq, Eq)]
pub struct HcConfig {
    pub app_id: String,
    pub happ_path: String,
    pub admin_ws_port: u16,
    /// 0 leaves the choice of the port to the system.
    pub app_ws_port: u16,
    pub datastore_path: String,
    pub keystore_path: Option<String>,
    pub webrtc_signal_url: String,
    pub bootstrap_url: String,
    pub network_seed: Option<String>,
    pub gossip_arc_clamping: String,
}

/// The mathematical value of an [`HcConfig`].
pub struct HcConfigView {
    pub app_id: Seq<char>,
    pub happ_path: Seq<char>,
    pub admin_ws_port: u16,
    pub app_ws_port: u16,
    pub datastore_path: Seq<char>,
    pub keystore_path: Option<Seq<char>>,
    pub webrtc_signal_url: Seq<char>,
    pub bootstrap_url: Seq<char>,
    pub network_seed: Option<Seq<char>>,
    pub gossip_arc_clamping: Seq<char>,
}

impl View for HcConfig {
    type V = HcConfigView;

    open spec fn view(&self) -> HcConfigView {
        HcConfigView {
            app_id: self.app_id@,
            happ_path: self.happ_path@,
            admin_ws_port: self.admin_ws_port,
            app_ws_port: self.app_ws_port,
            datastore_path: self.datastore_path@,
            keystore_path: self.keystore_path.deep_view(),
            webrtc_signal_url: self.webrtc_signal_url@,
            bootstrap_url: self.bootstrap_url@,
            network_seed: self.network_seed.deep_view(),
            gossip_arc_clamping: self.gossip_arc_clamping@,
        }
    }
}

/// What a conductor is built from: where it keeps its state and its keys,
/// where its admin interface listens, and how it reaches the network.
#[derive(Clone, Debug, PartialEq, Eq)]
pub struct ConductorSettings {
    /// The directory of the conductor's databases.
    pub environment_path: String,
    /// The root of the in-process keystore; `None` leaves it to the
    /// conductor's default under the environment path.
    pub keystore_root: Option<String>,
    /// The port of the one websocket admin interface.
    pub admin_port: u16,
    /// The bootstrap service that peers are found through.
    pub bootstrap_service: String,
    /// The address the QUIC transport under the proxy binds to.
    pub quic_bind_to: String,
    /// The remote proxy the node is reached through.
    pub proxy_url: String,
}

/// The mathematical value of a [`ConductorSettings`].
pub struct ConductorSettingsView {
    pub environment_path: Seq<char>,
    pub keystore_root: Option<Seq<char>>,
    pub admin_port: u16,
    pub bootstrap_service: Seq<char>,
    pub quic_bind_to: Seq<char>,
    pub proxy_url: Seq<char>,
}

impl View for ConductorSettings {
    type V = ConductorSettingsView;

    open spec fn view(&self) -> ConductorSettingsView {
        ConductorSettingsView {
            environment_path: self.environment_path@,
            keystore_root: self.keystore_root.deep_view(),
            admin_port: self.admin_port,
            bootstrap_service: self.bootstrap_service@,
            quic_bind_to: self.quic_bind_to@,
            proxy_url: self.proxy_url@,
        }
    }
}

/// The address every node binds its QUIC transport to: any interface, any port.
pub open spec fn quic_bind_address() -> Seq<char> {
    "kitsune-quic://0.0.0.0:0"@
}

/// The settings that `conductor_config` derives from its arguments.
pub open spec fn conductor_settings(
    admin_port: u16,
    databases_path: Seq<char>,
    lair_path: Option<Seq<char>>,
    proxy_url: Seq<char>,
    bootstrap_url: Seq<char>,
) -> ConductorSettingsView {
    ConductorSettingsView {
        environment_path: databases_path,
        keystore_root: lair_path,
        admin_port,
        bootstrap_service: bootstrap_url,
        quic_bind_to: quic_bind_address(),
        proxy_url,
    }
}

/// A copy of an optional string.
pub(crate) fn clone_optional(text: &Option<String>) -> (copy: Option<String>)
    ensures
        copy == *text,
{
    match text {
        Some(text) => Some(text.clone()),
        None => None,
    }
}

/// Builds the conductor's settings: databases under `databases_path`, an
/// in-process keystore rooted at `lair_path`, one websocket admin interface
/// on `admin_port`, and a proxied QUIC transport that finds its peers through
/// `bootstrap_url`.
pub fn conductor_config(
    admin_port: u16,
    databases_path: String,
    lair_path: &Option<String>,
    proxy_url: &String,
    bootstrap_url: &String,
) -> (settings: ConductorSettings)
    ensures
        settings@ == conductor_settings(
            admin_port,
            databases_path@,
            lair_path.deep_view(),
            proxy_url@,
            bootstrap_url@,
        ),
{
    ConductorSettings {
        environment_path: databases_path,
        keystore_root: clone_optional(lair_path),
        admin_port,
        bootstrap_service: bootstrap_url.clone(),
        quic_bind_to: "kitsune-quic://0.0.0.0:0".to_owned(),
        proxy_url: proxy_url.clone(),
    }
}

} // verus!
