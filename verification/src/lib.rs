//! Lifecycle coordinator for a host-driven VPN tunnel.
//!
//! The host drives the core through a small set of boundary operations:
//! initialize (select and install a protocol engine from a configuration
//! document), start, stop, a status query, and three telemetry readers.
//! Every operation resolves to a fixed integer result code; no error value
//! crosses the boundary.

use vstd::prelude::*;

pub mod config;
pub mod laws;
pub mod shadowsocks;
pub mod traffic_stats;
pub mod trojan;
pub mod v2ray;
pub mod vpn_engine;

use crate::config::{config_protocol, kind_of_protocol, ConfigScan, ProtocolKind};
use crate::traffic_stats::TrafficStats;
use crate::vpn_engine::{EngineRegistry, VpnStatus};

verus! {

/// The integer a status query reports for each engine status.
pub open spec fn spec_status_code(s: VpnStatus) -> int {
    match s {
        VpnStatus::Disconnected => 0,
        VpnStatus::Connecting => 1,
        VpnStatus::Connected => 2,
        VpnStatus::Disconnecting => 3,
        VpnStatus::Error => 4,
    }
}

/// Translates an engine status into the boundary's status code.
pub fn status_code(s: VpnStatus) -> (c: i32)
    ensures
        c as int == spec_status_code(s),
{
    match s {
        VpnStatus::Disconnected => 0,
        VpnStatus::Connecting => 1,
        VpnStatus::Connected => 2,
        VpnStatus::Disconnecting => 3,
        VpnStatus::Error => 4,
    }
}

/// The whole coordinator: the engine slot and the traffic counters. The host
/// owns exactly one and shares it across its boundary calls behind its own
/// mutual-exclusion primitive.
pub struct VpnCore {
    pub registry: EngineRegistry,
    pub stats: TrafficStats,
}

impl VpnCore {
    pub open spec fn wf(&self) -> bool {
        self.stats.wf()
    }

    /// A fresh core: no engine installed, counters zeroed, no monitoring.
    pub fn new() -> (core: VpnCore)
        ensures
            core.registry.slot is None,
            core.stats == (TrafficStats {
                downloaded_bytes: 0,
                uploaded_bytes: 0,
                ping_ms: 0,
                monitoring: false,
            }),
            core.wf(),
    {
        VpnCore { registry: EngineRegistry::new(), stats: TrafficStats::new() }
    }
}

/// How the host's configuration-path argument resolved before the boundary
/// logic runs. Checking the pointer and reading the file happen at the host
/// edge; the outcome comes in as a plain value.
pub enum ConfigSource {
    /// The path argument was null.
    NullPath,
    /// The path argument was not valid text.
    InvalidText,
    /// The file at the path could not be read.
    Unreadable,
    /// The text read from the file.
    Text(String),
}

/// The engine variant an initialize call selects: the kind named by the
/// configuration's first outbound protocol, or Unsupported when the argument,
/// the file, the document or the identifier rules the call out.
pub open spec fn spec_selected_kind(source: ConfigSource) -> ProtocolKind {
    match source {
        ConfigSource::Text(text) => match config_protocol(text@) {
            Some(Some(name)) => kind_of_protocol(name),
            _ => ProtocolKind::Unsupported,
        },
        _ => ProtocolKind::Unsupported,
    }
}

/// The code an initialize call reports: 0 on success; -1 null path, -2 path
/// not text, -3 file unreadable, -4 document unparseable, -8 unsupported or
/// missing protocol identifier.
pub open spec fn spec_initialize_code(source: ConfigSource) -> int {
    match source {
        ConfigSource::NullPath => -1,
        ConfigSource::InvalidText => -2,
        ConfigSource::Unreadable => -3,
        ConfigSource::Text(text) => match config_protocol(text@) {
            None => -4,
            Some(_) => if spec_selected_kind(source) == ProtocolKind::Unsupported {
                -8
            } else {
                0
            },
        },
    }
}

/// Relates a core before an initialize call to the core and code after it:
/// on success the selected engine stands in the slot, constructed
/// Disconnected from the configuration text, and the counters are untouched;
/// on failure nothing changes.
pub open spec fn initialize_post(pre: VpnCore, source: ConfigSource, post: VpnCore, code: int) -> bool {
    &&& code == spec_initialize_code(source)
    &&& code != 0 ==> post == pre
    &&& code == 0 ==> {
        &&& post.stats == pre.stats
        &&& match post.registry.slot {
            Some(engine) => {
                &&& engine.kind() == spec_selected_kind(source)
                &&& engine.state() == VpnStatus::Disconnected
                &&& source matches ConfigSource::Text(text) && engine.config_text() == text@
            },
            None => false,
        }
    }
}

/// Installs the engine the configuration selects, replacing any previous one.
/// A replaced engine is dropped without an implicit stop: hosts must stop
/// before re-initializing. Returns 0 on success and a distinct negative code
/// for each way the call can be ruled out. The codes -5, -6 and -7 are
/// reserved for a failure constructing the selected variant; the placeholder
/// engines never report one, so the contract rules those codes out.
pub fn initialize_vpn(core: &mut VpnCore, source: ConfigSource) -> (code: i32)
    ensures
        initialize_post(*old(core), source, *final(core), code as int),
{
    match source {
        ConfigSource::NullPath => -1,
        ConfigSource::InvalidText => -2,
        ConfigSource::Unreadable => -3,
        ConfigSource::Text(text) => {
            match config::scan_config_text(text.as_str()) {
                ConfigScan::Unparseable => -4,
                ConfigScan::NoProtocol => -8,
                ConfigScan::Protocol(name) => {
                    match config::resolve_protocol_name(name.as_str()) {
                        ProtocolKind::V2RayFamily => {
                            match v2ray::initialize(&mut core.registry, text.as_str()) {
                                Ok(()) => 0,
                                Err(_) => -5,
                            }
                        },
                        ProtocolKind::Trojan => {
                            match trojan::initialize(&mut core.registry, text.as_str()) {
                                Ok(()) => 0,
                                Err(_) => -6,
                            }
                        },
                        ProtocolKind::Shadowsocks => {
                            match shadowsocks::initialize(&mut core.registry, text.as_str()) {
                                Ok(()) => 0,
                                Err(_) => -7,
                            }
                        },
                        ProtocolKind::Unsupported => -8,
                    }
                },
            }
        },
    }
}

/// The code a start or stop call reports: 0 with an engine installed, -1
/// without one. The placeholder engines themselves never fail.
pub open spec fn spec_engine_op_code(core: VpnCore) -> int {
    if core.registry.slot is Some {
        0
    } else {
        -1
    }
}

/// Relates a core before a start call to the core and code after it: with an
/// engine installed the engine ends Connected, the counters are reset to zero
/// and a monitoring session is active; with none, nothing changes.
pub open spec fn start_post(pre: VpnCore, post: VpnCore, code: int) -> bool {
    &&& code == spec_engine_op_code(pre)
    &&& pre.registry.slot is None ==> post == pre
    &&& match pre.registry.slot {
        Some(before) => match post.registry.slot {
            Some(after) => {
                &&& after.kind() == before.kind()
                &&& after.config_text() == before.config_text()
                &&& after.state() == VpnStatus::Connected
                &&& post.stats == (TrafficStats {
                    downloaded_bytes: 0,
                    uploaded_bytes: 0,
                    ping_ms: 0,
                    monitoring: true,
                })
            },
            None => false,
        },
        None => true,
    }
}

/// Starts the installed engine; on success the counters are reset to zero and
/// a monitoring session begins. Fails with -1 when no engine is installed.
pub fn start_vpn(core: &mut VpnCore) -> (code: i32)
    ensures
        start_post(*old(core), *final(core), code as int),
{
    match &mut core.registry.slot {
        None => -1,
        Some(engine) => {
            match engine.start() {
                Ok(()) => {
                    traffic_stats::reset_stats(&mut core.stats);
                    traffic_stats::start_monitoring(&mut core.stats);
                    0
                },
                Err(_) => -2,
            }
        },
    }
}

/// Relates a core before a stop call to the core and code after it: with an
/// engine installed the engine ends Disconnected and the monitoring session
/// ends, while the counters keep their values; with none, nothing changes.
/// Stopping twice is deterministic: the second call succeeds as a no-op.
pub open spec fn stop_post(pre: VpnCore, post: VpnCore, code: int) -> bool {
    &&& code == spec_engine_op_code(pre)
    &&& pre.registry.slot is None ==> post == pre
    &&& match pre.registry.slot {
        Some(before) => match post.registry.slot {
            Some(after) => {
                &&& after.kind() == before.kind()
                &&& after.config_text() == before.config_text()
                &&& after.state() == VpnStatus::Disconnected
                &&& post.stats == (TrafficStats { monitoring: false, ..pre.stats })
            },
            None => false,
        },
        None => true,
    }
}

/// Stops the installed engine and ends the monitoring session; the counters
/// are not reset (only the next successful start resets them). Fails with -1
/// when no engine is installed.
pub fn stop_vpn(core: &mut VpnCore) -> (code: i32)
    ensures
        stop_post(*old(core), *final(core), code as int),
{
    match &mut core.registry.slot {
        None => -1,
        Some(engine) => {
            match engine.stop() {
                Ok(()) => {
                    traffic_stats::stop_monitoring(&mut core.stats);
                    0
                },
                Err(_) => -2,
            }
        },
    }
}

/// The status a query reports: 0 (Disconnected) with no engine installed,
/// otherwise the installed engine's status code.
pub open spec fn spec_status_of(core: VpnCore) -> int {
    match core.registry.slot {
        None => 0,
        Some(engine) => spec_status_code(engine.state()),
    }
}

/// Reports the installed engine's status as an integer in 0..=4; with no
/// engine installed the core counts as Disconnected. Never fails.
pub fn check_vpn_status(core: &VpnCore) -> (code: i32)
    ensures
        code as int == spec_status_of(*core),
{
    match core.registry.get_active_engine() {
        None => 0,
        Some(engine) => status_code(engine.status()),
    }
}

/// Reads the downloaded-bytes counter.
pub fn get_downloaded_bytes(core: &VpnCore) -> (bytes: i64)
    ensures
        bytes == core.stats.downloaded_bytes,
{
    traffic_stats::get_downloaded_bytes(&core.stats)
}

/// Reads the uploaded-bytes counter.
pub fn get_uploaded_bytes(core: &VpnCore) -> (bytes: i64)
    ensures
        bytes == core.stats.uploaded_bytes,
{
    traffic_stats::get_uploaded_bytes(&core.stats)
}

/// Reads the latest latency reading, in milliseconds.
pub fn get_ping(core: &VpnCore) -> (ping: i32)
    ensures
        ping == core.stats.ping_ms,
{
    traffic_stats::get_ping(&core.stats)
}

/// The boundary operations, named for their fault sentinels.
pub enum BoundaryOp {
    Initialize,
    Start,
    Stop,
    QueryStatus,
}

/// The reserved code an operation reports when its body faulted instead of
/// producing a code: 4 (Error) for a status query, -100 for the others.
pub open spec fn spec_fault_code(op: BoundaryOp) -> int {
    match op {
        BoundaryOp::QueryStatus => 4,
        _ => -100,
    }
}

/// Resolves one boundary call at the fault-isolation layer: the code the
/// operation's body produced, or, when the body faulted before producing one,
/// the operation's reserved sentinel. No fault crosses the boundary.
pub fn resolve_outcome(outcome: Option<i32>, op: BoundaryOp) -> (code: i32)
    ensures
        outcome matches Some(c) ==> code == c,
        outcome is None ==> code as int == spec_fault_code(op),
{
    match outcome {
        Some(c) => c,
        None => match op {
            BoundaryOp::QueryStatus => 4,
            _ => -100,
        },
    }
}

/// Resolves a telemetry byte-counter read at the fault-isolation layer: the
/// value read, or 0 when the read faulted.
pub fn resolve_counter_outcome(outcome: Option<i64>) -> (bytes: i64)
    ensures
        outcome matches Some(v) ==> bytes == v,
        outcome is None ==> bytes == 0,
{
    match outcome {
        Some(v) => v,
        None => 0,
    }
}

/// Resolves a latency read at the fault-isolation layer: the value read, or
/// 0 when the read faulted.
pub fn resolve_ping_outcome(outcome: Option<i32>) -> (ping: i32)
    ensures
        outcome matches Some(v) ==> ping == v,
        outcome is None ==> ping == 0,
{
    match outcome {
        Some(v) => v,
        None => 0,
    }
}

} // verus!
