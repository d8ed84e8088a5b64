//! The protocol engine capability and the registry that holds the one
//! active engine.

use vstd::prelude::*;

use crate::config::ProtocolKind;
use crate::shadowsocks::ShadowsocksEngine;
use crate::trojan::TrojanEngine;
use crate::v2ray::V2RayEngine;

verus! {

/// Lifecycle status of a protocol engine.
#[derive(Clone, Copy, Debug, PartialEq, Eq, Structural)]
pub enum VpnStatus {
    Disconnected,
    Connecting,
    Connected,
    Disconnecting,
    Error,
}

/// The capability every protocol engine variant offers: start and stop a
/// tunnel, and report the engine's lifecycle status. An engine is constructed
/// Disconnected; start leaves it Connected and stop leaves it Disconnected,
/// passing through Connecting and Disconnecting on the way. Start and stop
/// are idempotent: invoked again from the state they establish, they succeed
/// and leave that state in place.
pub trait VpnEngine: Sized {
    /// The engine's current lifecycle status.
    spec fn state(&self) -> VpnStatus;

    /// The configuration text the engine was constructed with.
    spec fn config_text(&self) -> Seq<char>;

    fn start(&mut self) -> (r: Result<(), String>)
        ensures
            r is Ok,
            final(self).state() == VpnStatus::Connected,
            final(self).config_text() == old(self).config_text(),
    ;

    fn stop(&mut self) -> (r: Result<(), String>)
        ensures
            r is Ok,
            final(self).state() == VpnStatus::Disconnected,
            final(self).config_text() == old(self).config_text(),
    ;

    fn status(&self) -> (s: VpnStatus)
        ensures
            s == self.state(),
    ;
}

/// The closed set of engine variants the config resolver can select.
pub enum ActiveEngine {
    V2Ray(V2RayEngine),
    Trojan(TrojanEngine),
    Shadowsocks(ShadowsocksEngine),
}

impl ActiveEngine {
    /// The protocol family this engine serves.
    pub open spec fn kind(&self) -> ProtocolKind {
        match self {
            ActiveEngine::V2Ray(_) => ProtocolKind::V2RayFamily,
            ActiveEngine::Trojan(_) => ProtocolKind::Trojan,
            ActiveEngine::Shadowsocks(_) => ProtocolKind::Shadowsocks,
        }
    }

    /// The engine's current lifecycle status.
    pub open spec fn state(&self) -> VpnStatus {
        match self {
            ActiveEngine::V2Ray(e) => e.state(),
            ActiveEngine::Trojan(e) => e.state(),
            ActiveEngine::Shadowsocks(e) => e.state(),
        }
    }

    /// The configuration text the engine was constructed with.
    pub open spec fn config_text(&self) -> Seq<char> {
        match self {
            ActiveEngine::V2Ray(e) => e.config_text(),
            ActiveEngine::Trojan(e) => e.config_text(),
            ActiveEngine::Shadowsocks(e) => e.config_text(),
        }
    }

    /// Starts the engine; it ends Connected whatever it was before.
    pub fn start(&mut self) -> (r: Result<(), String>)
        ensures
            r is Ok,
            final(self).state() == VpnStatus::Connected,
            final(self).kind() == old(self).kind(),
            final(self).config_text() == old(self).config_text(),
    {
        match self {
            ActiveEngine::V2Ray(e) => e.start(),
            ActiveEngine::Trojan(e) => e.start(),
            ActiveEngine::Shadowsocks(e) => e.start(),
        }
    }

    /// Stops the engine; it ends Disconnected whatever it was before.
    pub fn stop(&mut self) -> (r: Result<(), String>)
        ensures
            r is Ok,
            final(self).state() == VpnStatus::Disconnected,
            final(self).kind() == old(self).kind(),
            final(self).config_text() == old(self).config_text(),
    {
        match self {
            ActiveEngine::V2Ray(e) => e.stop(),
            ActiveEngine::Trojan(e) => e.stop(),
            ActiveEngine::Shadowsocks(e) => e.stop(),
        }
    }

    /// Reports the engine's lifecycle status.
    pub fn status(&self) -> (s: VpnStatus)
        ensures
            s == self.state(),
    {
        match self {
            ActiveEngine::V2Ray(e) => e.status(),
            ActiveEngine::Trojan(e) => e.status(),
            ActiveEngine::Shadowsocks(e) => e.status(),
        }
    }
}

/// Process-wide slot holding at most one active protocol engine. The host
/// must guard a registry shared between threads with its own mutual-exclusion
/// primitive; these operations describe one owner's view of the slot.
pub struct EngineRegistry {
    pub slot: Option<ActiveEngine>,
}

impl EngineRegistry {
    /// A registry with no engine installed.
    pub fn new() -> (r: EngineRegistry)
        ensures
            r.slot is None,
    {
        EngineRegistry { slot: None }
    }

    /// Unconditionally replaces the slot's contents with the given engine.
    /// A replaced engine is dropped as it stands; no stop is performed on it.
    pub fn set_active_engine(&mut self, engine: ActiveEngine)
        ensures
            final(self).slot == Some(engine),
    {
        self.slot = Some(engine);
    }

    /// The installed engine, or `None` if the slot is empty.
    pub fn get_active_engine(&self) -> (r: Option<&ActiveEngine>)
        ensures
            match r {
                Some(engine) => self.slot == Some(*engine),
                None => self.slot is None,
            },
    {
        self.slot.as_ref()
    }
}

} // verus!
