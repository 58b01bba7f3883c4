//! What the control plane offers to a configuration panel: the settings
//! that a user may change, as keys and values, the state of the connection,
//! and a stream of status frames.

use vstd::prelude::*;
use vstd::string::StringExecFns;

use crate::text::str_eq;
use crate::types::KeyExchangeProtocol;

verus! {

/// The settings that the panel shows.
#[derive(Debug)]
pub struct VpnUiConfig {
    /// Enable the kill switch.
    pub kill_switch: bool,
    /// Connect on startup.
    pub auto_connect: bool,
    /// Preferred server region.
    pub server_region: String,
    /// Key-exchange protocol.
    pub key_exchange: KeyExchangeProtocol,
    /// DNS leak protection.
    pub dns_protection: bool,
    /// Split tunneling.
    pub split_tunnel: bool,
}

/// The settings of the panel as plain values.
pub struct UiConfigView {
    /// Enable the kill switch.
    pub kill_switch: bool,
    /// Connect on startup.
    pub auto_connect: bool,
    /// Preferred server region.
    pub server_region: Seq<char>,
    /// Key-exchange protocol.
    pub key_exchange: KeyExchangeProtocol,
    /// DNS leak protection.
    pub dns_protection: bool,
    /// Split tunneling.
    pub split_tunnel: bool,
}

impl View for VpnUiConfig {
    type V = UiConfigView;

    open spec fn view(&self) -> UiConfigView {
        UiConfigView {
            kill_switch: self.kill_switch,
            auto_connect: self.auto_connect,
            server_region: self.server_region@,
            key_exchange: self.key_exchange,
            dns_protection: self.dns_protection,
            split_tunnel: self.split_tunnel,
        }
    }
}

/// The settings of a fresh panel.
pub open spec fn default_ui_config() -> UiConfigView {
    UiConfigView {
        kill_switch: true,
        auto_connect: false,
        server_region: "auto"@,
        key_exchange: KeyExchangeProtocol::MlKem,
        dns_protection: true,
        split_tunnel: false,
    }
}

impl Default for VpnUiConfig {
    fn default() -> (r: Self)
        ensures
            r@ == default_ui_config(),
    {
        VpnUiConfig {
            kill_switch: true,
            auto_connect: false,
            server_region: "auto".to_owned(),
            key_exchange: KeyExchangeProtocol::MlKem,
            dns_protection: true,
            split_tunnel: false,
        }
    }
}

impl Clone for VpnUiConfig {
    /// A copy that equals the settings in every field.
    fn clone(&self) -> (res: Self)
        ensures
            res == *self,
    {
        VpnUiConfig {
            kill_switch: self.kill_switch,
            auto_connect: self.auto_connect,
            server_region: self.server_region.clone(),
            key_exchange: self.key_exchange,
            dns_protection: self.dns_protection,
            split_tunnel: self.split_tunnel,
        }
    }
}

/// State of the connection, as the panel shows it.
#[derive(Debug, Clone, Copy, PartialEq, Eq, Structural)]
pub enum ConnectionState {
    /// Not connected.
    Disconnected,
    /// Connecting to a server.
    Connecting,
    /// Connected.
    Connected,
    /// Reconnecting after a loss.
    Reconnecting,
    /// Failed.
    Error,
}

impl ConnectionState {
    /// The name of the state in lower case.
    pub open spec fn spec_as_str(self) -> Seq<char> {
        match self {
            ConnectionState::Disconnected => "disconnected"@,
            ConnectionState::Connecting => "connecting"@,
            ConnectionState::Connected => "connected"@,
            ConnectionState::Reconnecting => "reconnecting"@,
            ConnectionState::Error => "error"@,
        }
    }

    /// The name of the state in lower case.
    pub fn as_str(&self) -> (r: &'static str)
        ensures
            r@ == self.spec_as_str(),
    {
        match self {
            ConnectionState::Disconnected => "disconnected",
            ConnectionState::Connecting => "connecting",
            ConnectionState::Connected => "connected",
            ConnectionState::Reconnecting => "reconnecting",
            ConnectionState::Error => "error",
        }
    }
}

/// The protocol that the word `value` selects, if it selects one.
pub open spec fn protocol_of(value: Seq<char>) -> Option<KeyExchangeProtocol> {
    if value == "ml_kem"@ {
        Some(KeyExchangeProtocol::MlKem)
    } else if value == "hybrid_ml_kem"@ {
        Some(KeyExchangeProtocol::HybridMlKem)
    } else if value == "x25519"@ {
        Some(KeyExchangeProtocol::X25519)
    } else {
        None
    }
}

/// The word that selects `protocol`.
pub open spec fn protocol_word(protocol: KeyExchangeProtocol) -> Seq<char> {
    match protocol {
        KeyExchangeProtocol::MlKem => "ml_kem"@,
        KeyExchangeProtocol::HybridMlKem => "hybrid_ml_kem"@,
        KeyExchangeProtocol::X25519 => "x25519"@,
    }
}

/// The word for a toggle.
pub open spec fn bool_word(b: bool) -> Seq<char> {
    if b {
        "true"@
    } else {
        "false"@
    }
}

/// What the word `value` sets a toggle to: on for `true`, off for `false`,
/// and nothing for any other word.
pub open spec fn toggle_of(value: Seq<char>) -> Option<bool> {
    if value == "true"@ {
        Some(true)
    } else if value == "false"@ {
        Some(false)
    } else {
        None
    }
}

/// Whether `key` is the key of one of the four toggles.
pub open spec fn is_toggle_key(key: Seq<char>) -> bool {
    ||| key == "kill_switch"@
    ||| key == "dns_protection"@
    ||| key == "auto_connect"@
    ||| key == "split_tunnel"@
}

/// The settings after `value` was written under `key`, or `None` where the
/// write is rejected: the key is unknown, the value under the key of a
/// toggle is neither `true` nor `false`, or the value under `key_exchange`
/// names no protocol. Every value is a server region.
pub open spec fn config_after(cfg: UiConfigView, key: Seq<char>, value: Seq<char>) -> Option<
    UiConfigView,
> {
    if key == "kill_switch"@ {
        match toggle_of(value) {
            Some(on) => Some(UiConfigView { kill_switch: on, ..cfg }),
            None => None,
        }
    } else if key == "dns_protection"@ {
        match toggle_of(value) {
            Some(on) => Some(UiConfigView { dns_protection: on, ..cfg }),
            None => None,
        }
    } else if key == "key_exchange"@ {
        match protocol_of(value) {
            Some(p) => Some(UiConfigView { key_exchange: p, ..cfg }),
            None => None,
        }
    } else if key == "auto_connect"@ {
        match toggle_of(value) {
            Some(on) => Some(UiConfigView { auto_connect: on, ..cfg }),
            None => None,
        }
    } else if key == "server_region"@ {
        Some(UiConfigView { server_region: value, ..cfg })
    } else if key == "split_tunnel"@ {
        match toggle_of(value) {
            Some(on) => Some(UiConfigView { split_tunnel: on, ..cfg }),
            None => None,
        }
    } else {
        None
    }
}

/// The message with which a write of `value` under `key` is rejected: it
/// names the value where the key is known, and the key where it is not.
pub open spec fn rejection(key: Seq<char>, value: Seq<char>) -> Seq<char> {
    if is_toggle_key(key) {
        "Invalid toggle value: "@ + value
    } else if key == "key_exchange"@ {
        "Unknown key exchange: "@ + value
    } else {
        "Unknown configuration key: "@ + key
    }
}

/// The characters of a list of keys and values.
pub open spec fn pairs_view(pairs: Seq<(String, String)>) -> Seq<(Seq<char>, Seq<char>)> {
    Seq::new(pairs.len(), |i: int| (pairs[i].0@, pairs[i].1@))
}

/// The settings after the first `n` of `pairs` were written in order, or
/// `None` where one of them is rejected.
pub open spec fn config_after_first(
    cfg: UiConfigView,
    pairs: Seq<(Seq<char>, Seq<char>)>,
    n: nat,
) -> Option<UiConfigView>
    decreases n,
{
    if n == 0 {
        Some(cfg)
    } else {
        match config_after_first(cfg, pairs, (n - 1) as nat) {
            Some(c) => config_after(c, pairs[n - 1].0, pairs[n - 1].1),
            None => None,
        }
    }
}

/// The settings as keys and values, in the order in which the panel lists them.
pub open spec fn config_pairs(cfg: UiConfigView) -> Seq<(Seq<char>, Seq<char>)> {
    seq![
        ("kill_switch"@, bool_word(cfg.kill_switch)),
        ("dns_protection"@, bool_word(cfg.dns_protection)),
        ("key_exchange"@, protocol_word(cfg.key_exchange)),
        ("auto_connect"@, bool_word(cfg.auto_connect)),
        ("server_region"@, cfg.server_region),
        ("split_tunnel"@, bool_word(cfg.split_tunnel)),
    ]
}

/// What the word `value` sets a toggle to, if it is one of the two words.
fn parse_toggle(value: &str) -> (r: Option<bool>)
    ensures
        r == toggle_of(value@),
{
    if str_eq(value, "true") {
        Some(true)
    } else if str_eq(value, "false") {
        Some(false)
    } else {
        None
    }
}

/// The message that rejects `value` as the value of a toggle.
fn toggle_rejection(value: &str) -> (r: String)
    ensures
        r@ == "Invalid toggle value: "@ + value@,
{
    "Invalid toggle value: ".to_owned().concat(value)
}

/// The word for a toggle, as an owned string.
fn bool_text(b: bool) -> (r: String)
    ensures
        r@ == bool_word(b),
{
    if b {
        "true".to_owned()
    } else {
        "false".to_owned()
    }
}

/// Category under which a panel is listed.
#[derive(Debug, Clone, Copy, PartialEq, Eq, Structural)]
#[non_exhaustive]
pub enum PanelCategory {
    /// Security and privacy.
    Security,
}

/// What a panel can do.
#[derive(Debug, Clone, Copy, PartialEq, Eq, Structural)]
pub enum PanelCapability {
    /// It has settings.
    Configuration,
    /// It streams status frames.
    Streaming,
    /// It has a place on the dashboard.
    Dashboard,
}

/// How a panel presents itself.
#[derive(Debug)]
pub struct PanelInfo {
    /// Identifier of the panel.
    pub id: String,
    /// Name that the panel shows.
    pub name: String,
    /// Category under which it is listed.
    pub category: PanelCategory,
    /// Glyph of its icon.
    pub icon: Option<String>,
    /// Rank in its category.
    pub priority: u32,
    /// What it can do.
    pub capabilities: Vec<PanelCapability>,
}

/// Kind of a setting.
#[derive(Debug)]
pub enum FieldKind {
    /// On or off, with the value it starts with.
    Toggle(bool),
    /// One of a list of words.
    Select(Vec<String>),
}

/// One setting of the panel, as the schema describes it.
#[derive(Debug)]
pub struct SchemaField {
    /// Key under which the setting is written.
    pub key: String,
    /// Label that the panel shows.
    pub label: String,
    /// Kind of the setting.
    pub kind: FieldKind,
    /// What the setting does.
    pub description: String,
    /// Group under which the panel lists it.
    pub group: String,
}

/// The characters of a list of strings.
pub open spec fn texts(words: Seq<String>) -> Seq<Seq<char>> {
    Seq::new(words.len(), |i: int| words[i]@)
}

/// Whether `field` is the toggle with these texts that starts as `initial`.
pub open spec fn is_toggle(
    field: SchemaField,
    key: Seq<char>,
    label: Seq<char>,
    initial: bool,
    description: Seq<char>,
    group: Seq<char>,
) -> bool {
    &&& field.key@ == key
    &&& field.label@ == label
    &&& field.kind == FieldKind::Toggle(initial)
    &&& field.description@ == description
    &&& field.group@ == group
}

/// Whether `field` is the selection with these texts among `options`.
pub open spec fn is_select(
    field: SchemaField,
    key: Seq<char>,
    label: Seq<char>,
    options: Seq<Seq<char>>,
    description: Seq<char>,
    group: Seq<char>,
) -> bool {
    &&& field.key@ == key
    &&& field.label@ == label
    &&& field.kind matches FieldKind::Select(words) && texts(words@) == options
    &&& field.description@ == description
    &&& field.group@ == group
}

/// The words that select a key-exchange protocol, as the schema lists them.
pub open spec fn protocol_options() -> Seq<Seq<char>> {
    seq!["ml_kem"@, "hybrid_ml_kem"@, "x25519"@]
}

/// The server regions, as the schema lists them.
pub open spec fn region_options() -> Seq<Seq<char>> {
    seq!["auto"@, "us-east"@, "us-west"@, "eu-west"@, "eu-central"@, "asia-pacific"@]
}

/// Whether `schema` lists the six settings of the panel, in their order.
pub open spec fn is_panel_schema(schema: Seq<SchemaField>) -> bool {
    &&& schema.len() == 6
    &&& is_toggle(
        schema[0],
        "kill_switch"@,
        "Kill Switch"@,
        true,
        "Block all traffic if VPN disconnects"@,
        "Security"@,
    )
    &&& is_toggle(
        schema[1],
        "dns_protection"@,
        "DNS Leak Protection"@,
        true,
        "Prevent DNS queries outside VPN tunnel"@,
        "Security"@,
    )
    &&& is_select(
        schema[2],
        "key_exchange"@,
        "Key Exchange Protocol"@,
        protocol_options(),
        "Post-quantum key exchange algorithm"@,
        "Security"@,
    )
    &&& is_toggle(
        schema[3],
        "auto_connect"@,
        "Auto-Connect"@,
        false,
        "Connect automatically on application start"@,
        "Connection"@,
    )
    &&& is_select(
        schema[4],
        "server_region"@,
        "Server Region"@,
        region_options(),
        "Preferred server region for connection"@,
        "Connection"@,
    )
    &&& is_toggle(
        schema[5],
        "split_tunnel"@,
        "Split Tunneling"@,
        false,
        "Allow some apps to bypass VPN"@,
        "Advanced"@,
    )
}

/// The toggle with these texts that starts as `initial`.
fn toggle(key: &str, label: &str, initial: bool, description: &str, group: &str) -> (r:
    SchemaField)
    ensures
        is_toggle(r, key@, label@, initial, description@, group@),
{
    SchemaField {
        key: key.to_owned(),
        label: label.to_owned(),
        kind: FieldKind::Toggle(initial),
        description: description.to_owned(),
        group: group.to_owned(),
    }
}

/// The selection with these texts among `options`.
fn select(key: &str, label: &str, options: Vec<String>, description: &str, group: &str) -> (r:
    SchemaField)
    ensures
        is_select(r, key@, label@, texts(options@), description@, group@),
{
    SchemaField {
        key: key.to_owned(),
        label: label.to_owned(),
        kind: FieldKind::Select(options),
        description: description.to_owned(),
        group: group.to_owned(),
    }
}


/// Number of status frames per second that the stream aims at.
pub const STATUS_FRAMES_PER_SECOND: u32 = 5;

/// The panel's side of the control plane.
#[derive(Debug)]
pub struct VpnPluginFlexForge {
    config: VpnUiConfig,
    stream_active: bool,
    stream_id: Option<u64>,
    next_id: u64,
    connection_state: ConnectionState,
}

impl VpnPluginFlexForge {
    /// The settings.
    pub closed spec fn spec_config(self) -> VpnUiConfig {
        self.config
    }

    /// Whether a stream is active.
    pub closed spec fn spec_stream_active(self) -> bool {
        self.stream_active
    }

    /// The identifier of the active stream.
    pub closed spec fn spec_stream_id(self) -> Option<u64> {
        self.stream_id
    }

    /// The identifier that the next stream will get.
    pub closed spec fn spec_next_id(self) -> u64 {
        self.next_id
    }

    /// The state of the connection, as last set.
    pub closed spec fn spec_connection_state(self) -> ConnectionState {
        self.connection_state
    }

    /// Whether `other` differs from the panel at most in its settings.
    pub open spec fn same_but_config(self, other: VpnPluginFlexForge) -> bool {
        &&& self.spec_stream_active() == other.spec_stream_active()
        &&& self.spec_stream_id() == other.spec_stream_id()
        &&& self.spec_next_id() == other.spec_next_id()
        &&& self.spec_connection_state() == other.spec_connection_state()
    }

    /// Whether `other` differs from the panel at most in its stream.
    pub open spec fn same_but_stream(self, other: VpnPluginFlexForge) -> bool {
        &&& self.spec_config() == other.spec_config()
        &&& self.spec_connection_state() == other.spec_connection_state()
    }

    /// Whether the stream with the identifier `stream_id` is the active one.
    pub open spec fn spec_streams(self, stream_id: u64) -> bool {
        self.spec_stream_active() && self.spec_stream_id() == Some(stream_id)
    }

    /// A panel with the default settings, no stream, and no connection.
    pub fn new() -> (r: Self)
        ensures
            r.spec_config()@ == default_ui_config(),
            !r.spec_stream_active(),
            r.spec_stream_id() is None,
            r.spec_next_id() == 1,
            r.spec_connection_state() == ConnectionState::Disconnected,
    {
        VpnPluginFlexForge {
            config: VpnUiConfig::default(),
            stream_active: false,
            stream_id: None,
            next_id: 1,
            connection_state: ConnectionState::Disconnected,
        }
    }

    /// The settings.
    pub fn config(&self) -> (r: &VpnUiConfig)
        ensures
            *r == self.spec_config(),
    {
        &self.config
    }

    /// The state of the connection, as last set.
    pub fn connection_state(&self) -> (r: ConnectionState)
        ensures
            r == self.spec_connection_state(),
    {
        self.connection_state
    }

    /// Sets the state of the connection.
    pub fn set_connection_state(&mut self, state: ConnectionState)
        ensures
            final(self).spec_connection_state() == state,
            final(self).spec_config() == old(self).spec_config(),
            final(self).spec_stream_active() == old(self).spec_stream_active(),
            final(self).spec_stream_id() == old(self).spec_stream_id(),
            final(self).spec_next_id() == old(self).spec_next_id(),
    {
        self.connection_state = state;
    }

    /// Hands out the next stream identifier; after the greatest one the
    /// count starts again at zero.
    fn next_stream_id(&mut self) -> (id: u64)
        ensures
            id == old(self).spec_next_id(),
            final(self).spec_next_id() == (if id == u64::MAX {
                0
            } else {
                id + 1
            }),
            final(self).spec_config() == old(self).spec_config(),
            final(self).spec_connection_state() == old(self).spec_connection_state(),
            final(self).spec_stream_active() == old(self).spec_stream_active(),
            final(self).spec_stream_id() == old(self).spec_stream_id(),
    {
        let id: u64 = self.next_id;
        self.next_id = id.wrapping_add(1);
        id
    }

    /// The identifier of the panel.
    pub fn panel_id(&self) -> (r: &'static str)
        ensures
            r@ == "essentia_vpn_plugin"@,
    {
        "essentia_vpn_plugin"
    }

    /// The name that the panel shows.
    pub fn display_name(&self) -> (r: &'static str)
        ensures
            r@ == "VPN & Tunnels"@,
    {
        "VPN & Tunnels"
    }

    /// The rank of the panel in its category.
    pub fn priority(&self) -> (r: u32)
        ensures
            r == 10,
    {
        10
    }

    /// The category under which the panel is listed.
    pub fn category(&self) -> (r: PanelCategory)
        ensures
            r == PanelCategory::Security,
    {
        PanelCategory::Security
    }

    /// The glyph of the panel's icon: a shield with a lock.
    pub fn icon_glyph(&self) -> (r: Option<&'static str>)
        ensures
            r matches Some(glyph) && glyph@ == "\u{E839}"@,
    {
        Some("\u{E839}")
    }

    /// How the panel presents itself: its identifier, name, category, icon
    /// and rank, and that it has settings, a stream and a place on the
    /// dashboard.
    pub fn panel_info(&self) -> (r: PanelInfo)
        ensures
            r.id@ == "essentia_vpn_plugin"@,
            r.name@ == "VPN & Tunnels"@,
            r.category == PanelCategory::Security,
            r.icon matches Some(glyph) && glyph@ == "\u{E839}"@,
            r.priority == 10,
            r.capabilities@ == seq![
                PanelCapability::Configuration,
                PanelCapability::Streaming,
                PanelCapability::Dashboard,
            ],
    {
        let icon: Option<String> = match self.icon_glyph() {
            Some(glyph) => Some(glyph.to_owned()),
            None => None,
        };
        let mut capabilities: Vec<PanelCapability> = Vec::new();
        capabilities.push(PanelCapability::Configuration);
        capabilities.push(PanelCapability::Streaming);
        capabilities.push(PanelCapability::Dashboard);
        assert(capabilities@ =~= seq![
            PanelCapability::Configuration,
            PanelCapability::Streaming,
            PanelCapability::Dashboard,
        ]);
        PanelInfo {
            id: self.panel_id().to_owned(),
            name: self.display_name().to_owned(),
            category: self.category(),
            icon,
            priority: self.priority(),
            capabilities,
        }
    }

    /// The settings of the panel, as a schema: each with its key, label,
    /// kind, description and group, in the order in which the panel lists
    /// them.
    pub fn config_schema(&self) -> (r: Vec<SchemaField>)
        ensures
            is_panel_schema(r@),
    {
        let mut protocols: Vec<String> = Vec::new();
        protocols.push("ml_kem".to_owned());
        protocols.push("hybrid_ml_kem".to_owned());
        protocols.push("x25519".to_owned());
        assert(texts(protocols@) =~= protocol_options());
        let mut regions: Vec<String> = Vec::new();
        regions.push("auto".to_owned());
        regions.push("us-east".to_owned());
        regions.push("us-west".to_owned());
        regions.push("eu-west".to_owned());
        regions.push("eu-central".to_owned());
        regions.push("asia-pacific".to_owned());
        assert(texts(regions@) =~= region_options());
        let mut schema: Vec<SchemaField> = Vec::new();
        schema.push(
            toggle(
                "kill_switch",
                "Kill Switch",
                true,
                "Block all traffic if VPN disconnects",
                "Security",
            ),
        );
        schema.push(
            toggle(
                "dns_protection",
                "DNS Leak Protection",
                true,
                "Prevent DNS queries outside VPN tunnel",
                "Security",
            ),
        );
        schema.push(
            select(
                "key_exchange",
                "Key Exchange Protocol",
                protocols,
                "Post-quantum key exchange algorithm",
                "Security",
            ),
        );
        schema.push(
            toggle(
                "auto_connect",
                "Auto-Connect",
                false,
                "Connect automatically on application start",
                "Connection",
            ),
        );
        schema.push(
            select(
                "server_region",
                "Server Region",
                regions,
                "Preferred server region for connection",
                "Connection",
            ),
        );
        schema.push(
            toggle(
                "split_tunnel",
                "Split Tunneling",
                false,
                "Allow some apps to bypass VPN",
                "Advanced",
            ),
        );
        schema
    }

    /// Starts the stream when the panel comes into view, unless one is active.
    pub fn on_panel_activate(&mut self)
        ensures
            old(self).spec_stream_active() ==> *final(self) == *old(self),
            !old(self).spec_stream_active() ==> Self::stream_started(
                *old(self),
                *final(self),
                Ok(old(self).spec_next_id()),
            ),
    {
        if !self.stream_active {
            let _ = self.start_stream();
        }
    }

    /// Stops the active stream when the panel goes out of view.
    pub fn on_panel_deactivate(&mut self)
        ensures
            final(self).same_but_stream(*old(self)),
            final(self).spec_next_id() == old(self).spec_next_id(),
            if old(self).spec_stream_active() && old(self).spec_stream_id() is Some {
                !final(self).spec_stream_active() && final(self).spec_stream_id() is None
            } else {
                *final(self) == *old(self)
            },
    {
        if self.stream_active {
            match self.stream_id {
                Some(id) => {
                    let _ = self.stop_stream(id);
                },
                None => {},
            }
        }
    }

    /// Whether the panel is to be drawn again: while a stream is active.
    pub fn on_refresh(&mut self) -> (r: bool)
        ensures
            r == old(self).spec_stream_active(),
            *final(self) == *old(self),
    {
        self.stream_active
    }

    /// Writes `value` under `key`.
    ///
    /// The keys are `kill_switch`, `dns_protection`, `key_exchange`,
    /// `auto_connect`, `server_region` and `split_tunnel`. A toggle takes
    /// the words `true` and `false` and no other. A write under another
    /// key, of another word under the key of a toggle, or of a value that
    /// names no protocol under `key_exchange`, is rejected with a message,
    /// and nothing changes.
    pub fn on_config_changed(&mut self, key: &str, value: &str) -> (r: Result<(), String>)
        ensures
            final(self).same_but_config(*old(self)),
            match r {
                Ok(_) => config_after(old(self).spec_config()@, key@, value@) == Some(
                    final(self).spec_config()@,
                ),
                Err(message) => {
                    &&& config_after(old(self).spec_config()@, key@, value@) is None
                    &&& message@ == rejection(key@, value@)
                    &&& *final(self) == *old(self)
                },
            },
    {
        proof {
            lemma_keys_differ();
        }
        if str_eq(key, "kill_switch") {
            match parse_toggle(value) {
                Some(on) => {
                    self.config.kill_switch = on;
                    Ok(())
                },
                None => Err(toggle_rejection(value)),
            }
        } else if str_eq(key, "dns_protection") {
            match parse_toggle(value) {
                Some(on) => {
                    self.config.dns_protection = on;
                    Ok(())
                },
                None => Err(toggle_rejection(value)),
            }
        } else if str_eq(key, "key_exchange") {
            if str_eq(value, "ml_kem") {
                self.config.key_exchange = KeyExchangeProtocol::MlKem;
                Ok(())
            } else if str_eq(value, "hybrid_ml_kem") {
                self.config.key_exchange = KeyExchangeProtocol::HybridMlKem;
                Ok(())
            } else if str_eq(value, "x25519") {
                self.config.key_exchange = KeyExchangeProtocol::X25519;
                Ok(())
            } else {
                Err("Unknown key exchange: ".to_owned().concat(value))
            }
        } else if str_eq(key, "auto_connect") {
            match parse_toggle(value) {
                Some(on) => {
                    self.config.auto_connect = on;
                    Ok(())
                },
                None => Err(toggle_rejection(value)),
            }
        } else if str_eq(key, "server_region") {
            self.config.server_region = value.to_owned();
            Ok(())
        } else if str_eq(key, "split_tunnel") {
            match parse_toggle(value) {
                Some(on) => {
                    self.config.split_tunnel = on;
                    Ok(())
                },
                None => Err(toggle_rejection(value)),
            }
        } else {
            Err("Unknown configuration key: ".to_owned().concat(key))
        }
    }

    /// Writes the keys and values of `config` in order, and stops at the
    /// first that is rejected: those before it stay written, and the
    /// result is the message of the rejection.
    pub fn apply_config(&mut self, config: &[(String, String)]) -> (r: Result<(), String>)
        ensures
            final(self).same_but_config(*old(self)),
            match r {
                Ok(_) => config_after_first(
                    old(self).spec_config()@,
                    pairs_view(config@),
                    config@.len(),
                ) == Some(final(self).spec_config()@),
                Err(message) => exists|i: int|
                    {
                        &&& 0 <= i < config@.len()
                        &&& #[trigger] config_after_first(
                            old(self).spec_config()@,
                            pairs_view(config@),
                            i as nat,
                        ) == Some(final(self).spec_config()@)
                        &&& config_after(
                            final(self).spec_config()@,
                            pairs_view(config@)[i].0,
                            pairs_view(config@)[i].1,
                        ) is None
                        &&& message@ == rejection(
                            pairs_view(config@)[i].0,
                            pairs_view(config@)[i].1,
                        )
                    },
            },
    {
        let ghost pairs = pairs_view(config@);
        let ghost start = self.spec_config()@;
        let n: usize = config.len();
        let mut i: usize = 0;
        while i < n
            invariant
                i <= n,
                n == config@.len(),
                pairs == pairs_view(config@),
                start == old(self).spec_config()@,
                self.same_but_config(*old(self)),
                config_after_first(start, pairs, i as nat) == Some(self.spec_config()@),
            decreases n - i,
        {
            let pair = &config[i];
            match self.on_config_changed(pair.0.as_str(), pair.1.as_str()) {
                Ok(_) => {},
                Err(message) => {
                    proof {
                        let k = i as int;
                        assert(pairs[k] == (pair.0@, pair.1@));
                        assert(config_after_first(start, pairs, k as nat) == Some(
                            self.spec_config()@,
                        ));
                    }
                    return Err(message);
                },
            }
            assert(pairs[i as int] == (pair.0@, pair.1@));
            i = i + 1;
        }
        Ok(())
    }

    /// The settings as keys and values, in the order in which the panel
    /// lists them.
    pub fn get_current_config(&self) -> (r: Vec<(String, String)>)
        ensures
            pairs_view(r@) == config_pairs(self.spec_config()@),
    {
        let key_exchange: &str = match self.config.key_exchange {
            KeyExchangeProtocol::MlKem => "ml_kem",
            KeyExchangeProtocol::HybridMlKem => "hybrid_ml_kem",
            KeyExchangeProtocol::X25519 => "x25519",
        };
        let mut pairs: Vec<(String, String)> = Vec::new();
        pairs.push(("kill_switch".to_owned(), bool_text(self.config.kill_switch)));
        pairs.push(("dns_protection".to_owned(), bool_text(self.config.dns_protection)));
        pairs.push(("key_exchange".to_owned(), key_exchange.to_owned()));
        pairs.push(("auto_connect".to_owned(), bool_text(self.config.auto_connect)));
        pairs.push(("server_region".to_owned(), self.config.server_region.clone()));
        pairs.push(("split_tunnel".to_owned(), bool_text(self.config.split_tunnel)));
        assert(pairs_view(pairs@) =~= config_pairs(self.spec_config()@));
        pairs
    }

    /// Puts the default settings back.
    pub fn reset_to_defaults(&mut self)
        ensures
            final(self).spec_config()@ == default_ui_config(),
            final(self).same_but_config(*old(self)),
    {
        self.config = VpnUiConfig::default();
    }

    /// Whether a stream is active.
    pub fn is_streaming(&self) -> (r: bool)
        ensures
            r == self.spec_stream_active(),
    {
        self.stream_active
    }

    /// What `start_stream` does. While a stream is active it fails and
    /// changes nothing. Otherwise the new stream gets the next identifier.
    pub open spec fn stream_started(
        pre: VpnPluginFlexForge,
        post: VpnPluginFlexForge,
        r: Result<u64, String>,
    ) -> bool {
        &&& post.same_but_stream(pre)
        &&& match r {
            Ok(id) => {
                &&& !pre.spec_stream_active()
                &&& id == pre.spec_next_id()
                &&& post.spec_stream_active()
                &&& post.spec_stream_id() == Some(id)
                &&& post.spec_next_id() == (if id == u64::MAX {
                    0
                } else {
                    id + 1
                })
            },
            Err(message) => {
                &&& pre.spec_stream_active()
                &&& message@ == "Stream already active"@
                &&& post == pre
            },
        }
    }

    /// What `stop_stream` does. It succeeds exactly where `stream_id` is
    /// the active stream, and then no stream is active. Otherwise it fails
    /// and changes nothing.
    pub open spec fn stream_stopped(
        pre: VpnPluginFlexForge,
        stream_id: u64,
        post: VpnPluginFlexForge,
        r: Result<(), String>,
    ) -> bool {
        &&& post.same_but_stream(pre)
        &&& post.spec_next_id() == pre.spec_next_id()
        &&& match r {
            Ok(_) => {
                &&& pre.spec_streams(stream_id)
                &&& !post.spec_stream_active()
                &&& post.spec_stream_id() is None
            },
            Err(message) => {
                &&& !pre.spec_streams(stream_id)
                &&& post == pre
                &&& message@ == (if !pre.spec_stream_active() {
                    "No active stream"@
                } else {
                    "Invalid stream ID"@
                })
            },
        }
    }

    /// Starts a stream and returns its identifier.
    pub fn start_stream(&mut self) -> (r: Result<u64, String>)
        ensures
            Self::stream_started(*old(self), *final(self), r),
    {
        if self.stream_active {
            return Err("Stream already active".to_owned());
        }
        let stream_id: u64 = self.next_stream_id();
        self.stream_id = Some(stream_id);
        self.stream_active = true;
        Ok(stream_id)
    }

    /// Stops the stream with the identifier `stream_id`.
    pub fn stop_stream(&mut self, stream_id: u64) -> (r: Result<(), String>)
        ensures
            Self::stream_stopped(*old(self), stream_id, *final(self), r),
    {
        if !self.stream_active {
            return Err("No active stream".to_owned());
        }
        let current: bool = match self.stream_id {
            Some(id) => id == stream_id,
            None => false,
        };
        if !current {
            return Err("Invalid stream ID".to_owned());
        }
        self.stream_active = false;
        self.stream_id = None;
        Ok(())
    }

    /// Number of status frames per second that the stream aims at.
    pub fn target_fps(&self) -> (r: u32)
        ensures
            r == STATUS_FRAMES_PER_SECOND,
    {
        STATUS_FRAMES_PER_SECOND
    }

    /// Whether a status frame is due for the stream `stream_id`: exactly
    /// where it is the active stream.
    pub fn render_frame(&mut self, stream_id: u64) -> (r: bool)
        ensures
            r == old(self).spec_streams(stream_id),
            *final(self) == *old(self),
    {
        let current: bool = match self.stream_id {
            Some(id) => id == stream_id,
            None => false,
        };
        self.stream_active && current
    }
}

impl Default for VpnPluginFlexForge {
    fn default() -> (r: Self)
        ensures
            r.spec_config()@ == default_ui_config(),
            !r.spec_stream_active(),
            r.spec_stream_id() is None,
            r.spec_next_id() == 1,
            r.spec_connection_state() == ConnectionState::Disconnected,
    {
        VpnPluginFlexForge::new()
    }
}

/// The six keys of the settings differ from one another.
pub proof fn lemma_keys_differ()
    ensures
        "kill_switch"@ != "dns_protection"@,
        "kill_switch"@ != "key_exchange"@,
        "kill_switch"@ != "auto_connect"@,
        "kill_switch"@ != "server_region"@,
        "kill_switch"@ != "split_tunnel"@,
        "dns_protection"@ != "key_exchange"@,
        "dns_protection"@ != "auto_connect"@,
        "dns_protection"@ != "server_region"@,
        "dns_protection"@ != "split_tunnel"@,
        "key_exchange"@ != "auto_connect"@,
        "key_exchange"@ != "server_region"@,
        "key_exchange"@ != "split_tunnel"@,
        "auto_connect"@ != "server_region"@,
        "auto_connect"@ != "split_tunnel"@,
        "server_region"@ != "split_tunnel"@,
{
    reveal_strlit("kill_switch");
    reveal_strlit("dns_protection");
    reveal_strlit("key_exchange");
    reveal_strlit("auto_connect");
    reveal_strlit("server_region");
    reveal_strlit("split_tunnel");
    assert("kill_switch"@.len() == 11 && "kill_switch"@[0] == 'k');
    assert("dns_protection"@.len() == 14 && "dns_protection"@[0] == 'd');
    assert("key_exchange"@.len() == 12 && "key_exchange"@[0] == 'k');
    assert("auto_connect"@.len() == 12 && "auto_connect"@[0] == 'a');
    assert("server_region"@.len() == 13 && "server_region"@[0] == 's');
    assert("split_tunnel"@.len() == 12 && "split_tunnel"@[0] == 's');
}

/// The word of a toggle sets the toggle to what it was.
pub proof fn lemma_bool_word(b: bool)
    ensures
        toggle_of(bool_word(b)) == Some(b),
{
    reveal_strlit("true");
    reveal_strlit("false");
    assert("true"@.len() == 4);
    assert("false"@.len() == 5);
}

/// The word of a protocol selects that protocol.
pub proof fn lemma_protocol_word(protocol: KeyExchangeProtocol)
    ensures
        protocol_of(protocol_word(protocol)) == Some(protocol),
{
    reveal_strlit("ml_kem");
    reveal_strlit("hybrid_ml_kem");
    reveal_strlit("x25519");
    assert("ml_kem"@.len() == 6 && "ml_kem"@[0] == 'm');
    assert("hybrid_ml_kem"@.len() == 13);
    assert("x25519"@.len() == 6 && "x25519"@[0] == 'x');
}

/// What `get_current_config` lists, `apply_config` accepts, and it brings
/// back the settings that were listed, whatever the settings were before.
pub proof fn lemma_listed_config_restores(listed: UiConfigView, before: UiConfigView)
    ensures
        config_after_first(before, config_pairs(listed), 6) == Some(listed),
{
    lemma_keys_differ();
    lemma_bool_word(listed.kill_switch);
    lemma_bool_word(listed.dns_protection);
    lemma_bool_word(listed.auto_connect);
    lemma_bool_word(listed.split_tunnel);
    lemma_protocol_word(listed.key_exchange);
    let pairs = config_pairs(listed);
    let c0 = before;
    let c1 = UiConfigView { kill_switch: listed.kill_switch, ..c0 };
    let c2 = UiConfigView { dns_protection: listed.dns_protection, ..c1 };
    let c3 = UiConfigView { key_exchange: listed.key_exchange, ..c2 };
    let c4 = UiConfigView { auto_connect: listed.auto_connect, ..c3 };
    let c5 = UiConfigView { server_region: listed.server_region, ..c4 };
    let c6 = UiConfigView { split_tunnel: listed.split_tunnel, ..c5 };
    assert(config_after_first(c0, pairs, 0) == Some(c0));
    assert(config_after_first(c0, pairs, 1) == Some(c1));
    assert(config_after_first(c0, pairs, 2) == Some(c2));
    assert(config_after_first(c0, pairs, 3) == Some(c3));
    assert(config_after_first(c0, pairs, 4) == Some(c4));
    assert(config_after_first(c0, pairs, 5) == Some(c5));
    assert(config_after_first(c0, pairs, 6) == Some(c6));
    assert(c6 == listed);
}

/// A toggle takes two words: under the key of a toggle every word but
/// `true` and `false` is rejected, whatever the settings are, and the
/// rejection names the word.
pub proof fn lemma_malformed_toggle_is_rejected(
    cfg: UiConfigView,
    key: Seq<char>,
    value: Seq<char>,
)
    requires
        is_toggle_key(key),
        value != "true"@,
        value != "false"@,
    ensures
        config_after(cfg, key, value) is None,
        rejection(key, value) == "Invalid toggle value: "@ + value,
{
    lemma_keys_differ();
}

/// A write is rejected exactly in three cases: the word under the key of
/// a toggle is not one of its two, the word under `key_exchange` names no
/// protocol, or the key is not one of the six.
pub proof fn lemma_rejected_writes(cfg: UiConfigView, key: Seq<char>, value: Seq<char>)
    ensures
        config_after(cfg, key, value) is None <==> {
            ||| is_toggle_key(key) && toggle_of(value) is None
            ||| key == "key_exchange"@ && protocol_of(value) is None
            ||| !is_toggle_key(key) && key != "key_exchange"@ && key != "server_region"@
        },
{
    lemma_keys_differ();
}

} // verus!
