//! The snapshot export payload: which values an export must carry and
//! how large its process list may grow. Writing the payload out in a
//! file format is the host program's job.

use vstd::prelude::*;
use crate::process::ProcessRecord;
use crate::theme::ThemeKind;

verus! {

/// Everything one exported snapshot carries.
#[derive(Debug, Clone)]
pub struct ExportPayload {
    pub timestamp: String,
    pub version: String,
    pub theme: ThemeKind,
    pub cpu_milli_percent: u32,
    pub memory_milli_percent: u32,
    pub net_rx_bps: u64,
    pub net_tx_bps: u64,
    pub top_processes: Vec<ProcessRecord>,
}

/// How many processes an export carries at most.
pub const EXPORT_TOP_LIMIT: usize = 5;

/// Assemble the payload, bounding the process list to the export limit.
pub fn build_export_payload(
    timestamp: String,
    version: String,
    theme: ThemeKind,
    cpu_milli_percent: u32,
    memory_milli_percent: u32,
    net_rx_bps: u64,
    net_tx_bps: u64,
    top: Vec<ProcessRecord>,
) -> (p: ExportPayload)
    ensures
        p.timestamp == timestamp,
        p.version == version,
        p.theme == theme,
        p.cpu_milli_percent == cpu_milli_percent,
        p.memory_milli_percent == memory_milli_percent,
        p.net_rx_bps == net_rx_bps,
        p.net_tx_bps == net_tx_bps,
        p.top_processes@.len() <= EXPORT_TOP_LIMIT,
        p.top_processes@ == top@.take(
            if top@.len() <= EXPORT_TOP_LIMIT {
                top@.len() as int
            } else {
                EXPORT_TOP_LIMIT as int
            },
        ),
{
    let mut top = top;
    top.truncate(EXPORT_TOP_LIMIT);
    ExportPayload {
        timestamp,
        version,
        theme,
        cpu_milli_percent,
        memory_milli_percent,
        net_rx_bps,
        net_tx_bps,
        top_processes: top,
    }
}

} // verus!
