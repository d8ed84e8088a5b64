//! Engine variant for the V2Ray protocol family (vless / vmess outbounds).
//! Scaffolding only: it owns the shared lifecycle state machine; the real
//! handshake and forwarding logic would be inserted where the status moves.

use vstd::prelude::*;

use crate::config::ProtocolKind;
use crate::vpn_engine::{ActiveEngine, EngineRegistry, VpnEngine, VpnStatus};

verus! {

pub struct V2RayEngine {
    config: String,
    status: VpnStatus,
}

impl V2RayEngine {
    /// A fresh engine holding the configuration text, not yet started.
    pub fn new(config: &str) -> (e: V2RayEngine)
        ensures
            e.state() == VpnStatus::Disconnected,
            e.config_text() == config@,
    {
        V2RayEngine { config: config.to_owned(), status: VpnStatus::Disconnected }
    }
}

impl VpnEngine for V2RayEngine {
    closed spec fn state(&self) -> VpnStatus {
        self.status
    }

    closed spec fn config_text(&self) -> Seq<char> {
        self.config@
    }

    fn start(&mut self) -> (r: Result<(), String>) {
        self.status = VpnStatus::Connecting;
        // protocol negotiation would run here; the placeholder connects at once
        self.status = VpnStatus::Connected;
        Ok(())
    }

    fn stop(&mut self) -> (r: Result<(), String>) {
        self.status = VpnStatus::Disconnecting;
        // connection teardown would run here; the placeholder finishes at once
        self.status = VpnStatus::Disconnected;
        Ok(())
    }

    fn status(&self) -> (s: VpnStatus) {
        self.status
    }
}

/// Constructs a V2Ray-family engine for the configuration and installs it as
/// the active engine, replacing whatever the slot held.
pub fn initialize(registry: &mut EngineRegistry, config: &str) -> (r: Result<(), String>)
    ensures
        r is Ok,
        (match final(registry).slot {
            Some(engine) => {
                &&& engine.kind() == ProtocolKind::V2RayFamily
                &&& engine.state() == VpnStatus::Disconnected
                &&& engine.config_text() == config@
            },
            None => false,
        }),
{
    let engine = V2RayEngine::new(config);
    registry.set_active_engine(ActiveEngine::V2Ray(engine));
    Ok(())
}

} // verus!
