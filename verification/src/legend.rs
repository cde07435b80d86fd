//! Which figure of the measurements colors the map and its legend.

use vstd::prelude::*;
use crate::models::measurement::Measurement;

verus! {

/// The figure by which measurements are colored.
#[derive(Debug, Clone, Copy, PartialEq, Eq, Structural)]
pub enum ColorMetric {
    SmbMbps,
    IperfMbps,
    SignalDbm,
}

/// Samba throughput when any measurement has one, else iperf throughput
/// when any has one, else signal level.
pub open spec fn metric_for(ms: Seq<Measurement>) -> ColorMetric {
    if exists|k: int| 0 <= k < ms.len() && (#[trigger] ms[k]).smb_mbps_bits is Some {
        ColorMetric::SmbMbps
    } else if exists|k: int| 0 <= k < ms.len() && (#[trigger] ms[k]).iperf_mbps_bits is Some {
        ColorMetric::IperfMbps
    } else {
        ColorMetric::SignalDbm
    }
}

/// The figure that colors these measurements.
pub fn active_metric(measurements: &[Measurement]) -> (m: ColorMetric)
    ensures
        m == metric_for(measurements@),
{
    let mut k: usize = 0;
    while k < measurements.len()
        invariant
            k <= measurements@.len(),
            forall|q: int| 0 <= q < k ==> (#[trigger] measurements@[q]).smb_mbps_bits is None,
        decreases measurements@.len() - k,
    {
        if measurements[k].smb_mbps_bits.is_some() {
            return ColorMetric::SmbMbps;
        }
        k = k + 1;
    }
    let mut k: usize = 0;
    while k < measurements.len()
        invariant
            k <= measurements@.len(),
            forall|q: int| 0 <= q < measurements@.len() ==> (#[trigger] measurements@[q]).smb_mbps_bits is None,
            forall|q: int| 0 <= q < k ==> (#[trigger] measurements@[q]).iperf_mbps_bits is None,
        decreases measurements@.len() - k,
    {
        if measurements[k].iperf_mbps_bits.is_some() {
            return ColorMetric::IperfMbps;
        }
        k = k + 1;
    }
    ColorMetric::SignalDbm
}

} // verus!
