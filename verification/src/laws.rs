//! Laws the coordinator obeys across calls, proved from the boundary
//! operations' contracts.

use vstd::prelude::*;

use crate::config::ProtocolKind;
use crate::traffic_stats::{spec_record, TrafficStats};
use crate::vpn_engine::VpnStatus;
use crate::{
    initialize_post, spec_selected_kind, spec_status_of, start_post, stop_post, ConfigSource,
    VpnCore,
};

verus! {

/// Law: after a successful initialize the core reports Disconnected (0); a
/// start then succeeds (0) and the core reports Connected (2); a stop after
/// that succeeds (0) and the core reports Disconnected (0) again.
pub proof fn lemma_lifecycle(
    c0: VpnCore,
    source: ConfigSource,
    c1: VpnCore,
    c2: VpnCore,
    c3: VpnCore,
    start_code: int,
    stop_code: int,
)
    requires
        initialize_post(c0, source, c1, 0),
        start_post(c1, c2, start_code),
        stop_post(c2, c3, stop_code),
    ensures
        spec_status_of(c1) == 0,
        start_code == 0,
        spec_status_of(c2) == 2,
        stop_code == 0,
        spec_status_of(c3) == 0,
{
}

/// Law: a start with no engine installed fails with -1 and changes nothing.
pub proof fn lemma_start_without_engine(pre: VpnCore, post: VpnCore, code: int)
    requires
        pre.registry.slot is None,
        start_post(pre, post, code),
    ensures
        code == -1,
        post == pre,
{
}

/// Law: stopping twice in a row is deterministic; the second stop reports the
/// same code as the first and leaves the core as the first left it.
pub proof fn lemma_stop_idempotent(
    c0: VpnCore,
    c1: VpnCore,
    c2: VpnCore,
    first_code: int,
    second_code: int,
)
    requires
        stop_post(c0, c1, first_code),
        stop_post(c1, c2, second_code),
    ensures
        second_code == first_code,
        c2.stats == c1.stats,
        spec_status_of(c2) == spec_status_of(c1),
        match (c1.registry.slot, c2.registry.slot) {
            (Some(e1), Some(e2)) => e2.kind() == e1.kind() && e2.state() == e1.state()
                && e2.config_text() == e1.config_text(),
            (None, None) => true,
            _ => false,
        },
{
}

/// Law: the byte counters are reset to zero exactly when a start succeeds —
/// a stop keeps them — and a sampling step never decreases them, so they are
/// monotonically non-decreasing while a monitoring session runs.
pub proof fn lemma_counter_lifecycle(
    pre: VpnCore,
    post: VpnCore,
    code: int,
    s: TrafficStats,
    download_delta: u64,
    upload_delta: u64,
    ping_sample: i32,
)
    requires
        s.wf(),
    ensures
        start_post(pre, post, 0) ==> post.stats.downloaded_bytes == 0
            && post.stats.uploaded_bytes == 0,
        stop_post(pre, post, code) ==> post.stats.downloaded_bytes
            == pre.stats.downloaded_bytes && post.stats.uploaded_bytes
            == pre.stats.uploaded_bytes,
        spec_record(s, download_delta, upload_delta, ping_sample).downloaded_bytes
            >= s.downloaded_bytes,
        spec_record(s, download_delta, upload_delta, ping_sample).uploaded_bytes
            >= s.uploaded_bytes,
{
}

/// Law: no reachable core ever shows a negative byte counter — a fresh core,
/// and every boundary operation and sampling step on a well-formed core,
/// leave the counters non-negative.
pub proof fn lemma_counters_never_negative(
    pre: VpnCore,
    source: ConfigSource,
    post: VpnCore,
    code: int,
    s: TrafficStats,
    download_delta: u64,
    upload_delta: u64,
    ping_sample: i32,
)
    requires
        pre.wf(),
        s.wf(),
    ensures
        initialize_post(pre, source, post, code) ==> post.wf(),
        start_post(pre, post, code) ==> post.wf(),
        stop_post(pre, post, code) ==> post.wf(),
        spec_record(s, download_delta, upload_delta, ping_sample).wf(),
{
}

/// Law: a successful initialize installs exactly the engine variant the
/// configuration's first outbound protocol names, constructed Disconnected.
pub proof fn lemma_initialize_selects(pre: VpnCore, source: ConfigSource, post: VpnCore)
    requires
        initialize_post(pre, source, post, 0),
    ensures
        spec_selected_kind(source) != ProtocolKind::Unsupported,
        match post.registry.slot {
            Some(engine) => engine.kind() == spec_selected_kind(source)
                && engine.state() == VpnStatus::Disconnected,
            None => false,
        },
{
}

} // verus!

