//! Tests of the protocol engine variants, their shared state machine, and the
//! engine registry.

use vpn_core::config::ProtocolKind;
use vpn_core::shadowsocks::ShadowsocksEngine;
use vpn_core::trojan::TrojanEngine;
use vpn_core::v2ray::V2RayEngine;
use vpn_core::vpn_engine::{ActiveEngine, EngineRegistry, VpnEngine, VpnStatus};
use vpn_core::{shadowsocks, trojan, v2ray};

#[test]
fn v2ray_engine_state_machine() {
    let mut engine = V2RayEngine::new("{}");
    assert_eq!(engine.status(), VpnStatus::Disconnected);
    assert!(engine.start().is_ok());
    assert_eq!(engine.status(), VpnStatus::Connected);
    assert!(engine.stop().is_ok());
    assert_eq!(engine.status(), VpnStatus::Disconnected);
}

#[test]
fn trojan_engine_state_machine() {
    let mut engine = TrojanEngine::new("{}");
    assert_eq!(engine.status(), VpnStatus::Disconnected);
    assert!(engine.start().is_ok());
    assert_eq!(engine.status(), VpnStatus::Connected);
    assert!(engine.stop().is_ok());
    assert_eq!(engine.status(), VpnStatus::Disconnected);
}

#[test]
fn shadowsocks_engine_state_machine() {
    let mut engine = ShadowsocksEngine::new("{}");
    assert_eq!(engine.status(), VpnStatus::Disconnected);
    assert!(engine.start().is_ok());
    assert_eq!(engine.status(), VpnStatus::Connected);
    assert!(engine.stop().is_ok());
    assert_eq!(engine.status(), VpnStatus::Disconnected);
}

#[test]
fn start_is_idempotent_on_an_engine() {
    let mut engine = V2RayEngine::new("{}");
    assert!(engine.start().is_ok());
    assert!(engine.start().is_ok());
    assert_eq!(engine.status(), VpnStatus::Connected);
}

#[test]
fn registry_starts_empty_and_replaces_wholesale() {
    let mut registry = EngineRegistry::new();
    assert!(registry.get_active_engine().is_none());
    registry.set_active_engine(ActiveEngine::V2Ray(V2RayEngine::new("{}")));
    match registry.get_active_engine() {
        Some(ActiveEngine::V2Ray(_)) => {}
        _ => panic!("expected the installed V2Ray engine"),
    }
    registry.set_active_engine(ActiveEngine::Trojan(TrojanEngine::new("{}")));
    match registry.get_active_engine() {
        Some(ActiveEngine::Trojan(_)) => {}
        _ => panic!("expected the replacing Trojan engine"),
    }
}

#[test]
fn module_initializers_install_their_variant() {
    let mut registry = EngineRegistry::new();

    assert!(v2ray::initialize(&mut registry, "{}").is_ok());
    let engine = registry.get_active_engine().expect("engine installed");
    assert_eq!(engine.status(), VpnStatus::Disconnected);
    assert!(matches!(engine, ActiveEngine::V2Ray(_)));

    assert!(trojan::initialize(&mut registry, "{}").is_ok());
    assert!(matches!(
        registry.get_active_engine().expect("engine installed"),
        ActiveEngine::Trojan(_)
    ));

    assert!(shadowsocks::initialize(&mut registry, "{}").is_ok());
    assert!(matches!(
        registry.get_active_engine().expect("engine installed"),
        ActiveEngine::Shadowsocks(_)
    ));
}

#[test]
fn active_engine_dispatches_the_capability() {
    let mut engine = ActiveEngine::Shadowsocks(ShadowsocksEngine::new("{}"));
    assert_eq!(engine.status(), VpnStatus::Disconnected);
    assert!(engine.start().is_ok());
    assert_eq!(engine.status(), VpnStatus::Connected);
    assert!(engine.stop().is_ok());
    assert_eq!(engine.status(), VpnStatus::Disconnected);
}

#[test]
fn protocol_kind_is_comparable() {
    assert_eq!(ProtocolKind::Trojan, ProtocolKind::Trojan);
    assert_ne!(ProtocolKind::Trojan, ProtocolKind::Unsupported);
}
