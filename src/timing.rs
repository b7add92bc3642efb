use vstd::prelude::*;

use crate::text::{decimal_digits, decimal_string, is_prefix, starts_with_str, views};

verus! {

/// Cumulative offsets from the start of the request, in whole milliseconds.
#[derive(Clone, Copy, Debug, PartialEq, Eq, Structural)]
pub struct CumulativeMs {
    pub namelookup: u64,
    pub connect: u64,
    pub pretransfer: u64,
    pub starttransfer: u64,
    pub total: u64,
}

/// How long each phase of the request took, in milliseconds.
#[derive(Clone, Copy, Debug, PartialEq, Eq, Structural)]
pub struct PhaseDurations {
    pub dns: u64,
    pub connect: u64,
    pub tls: u64,
    pub server: u64,
    pub transfer: u64,
}

/// The two shapes of the timing chart.
#[derive(Clone, Copy, Debug, PartialEq, Eq, Structural)]
pub enum ChartLayout {
    /// DNS, TCP, server processing, content transfer.
    FourPhase,
    /// DNS, TCP, TLS handshake, server processing, content transfer.
    FivePhase,
}

impl CumulativeMs {
    /// The offsets never decrease along the request.
    pub open spec fn is_monotone(&self) -> bool {
        self.namelookup <= self.connect <= self.pretransfer <= self.starttransfer <= self.total
    }
}

impl PhaseDurations {
    /// The sum of all phases.
    pub open spec fn sum(&self) -> int {
        self.dns + self.connect + self.tls + self.server + self.transfer
    }
}

/// `a - b`, or zero where `b` is larger: a phase never goes negative.
pub open spec fn clamped_sub(a: int, b: int) -> int {
    if a >= b {
        a - b
    } else {
        0
    }
}

/// The scheme prefix that selects the TLS-inclusive chart.
pub const HTTPS_PREFIX: &'static str = "https://";

/// The URL names the HTTPS scheme: a literal prefix check.
pub open spec fn is_https_url(url: Seq<char>) -> bool {
    is_prefix(HTTPS_PREFIX@, url)
}

/// Whether the URL begins with `https://`.
pub fn url_is_https(url: &str) -> (r: bool)
    ensures
        r == is_https_url(url@),
{
    starts_with_str(url, HTTPS_PREFIX)
}

/// The chart layout for a URL: five phases for `https://`, four otherwise.
pub fn chart_layout(url: &str) -> (r: ChartLayout)
    ensures
        r == (if is_https_url(url@) {
            ChartLayout::FivePhase
        } else {
            ChartLayout::FourPhase
        }),
{
    if url_is_https(url) {
        ChartLayout::FivePhase
    } else {
        ChartLayout::FourPhase
    }
}

/// The phase durations of cumulative offsets, by successive subtraction.
/// The TLS phase is zero unless `https`. Where the offsets go backwards
/// (a redirect can do that) a phase that would be negative is zero.
pub open spec fn phases_of(t: CumulativeMs, https: bool) -> PhaseDurations {
    let dns = t.namelookup as int;
    let connect = clamped_sub(t.connect as int, dns);
    let tls = if https {
        clamped_sub(t.pretransfer as int, dns + connect)
    } else {
        0
    };
    let server = clamped_sub(t.starttransfer as int, dns + connect + tls);
    let transfer = clamped_sub(t.total as int, dns + connect + tls + server);
    PhaseDurations {
        dns: dns as u64,
        connect: connect as u64,
        tls: tls as u64,
        server: server as u64,
        transfer: transfer as u64,
    }
}

/// Splits cumulative offsets into phase durations.
pub fn phase_durations(t: &CumulativeMs, https: bool) -> (r: PhaseDurations)
    ensures
        r == phases_of(*t, https),
{
    let dns = t.namelookup;
    let connect = t.connect.saturating_sub(dns);
    // each partial sum is the largest offset seen so far, so it fits
    let before_tls = dns + connect;
    let tls = if https {
        t.pretransfer.saturating_sub(before_tls)
    } else {
        0
    };
    let before_server = before_tls + tls;
    let server = t.starttransfer.saturating_sub(before_server);
    let before_transfer = before_server + server;
    let transfer = t.total.saturating_sub(before_transfer);
    PhaseDurations { dns, connect, tls, server, transfer }
}

/// A duration label: the number of milliseconds followed by `ms`.
pub open spec fn ms_label_of(ms: u64) -> Seq<char> {
    decimal_digits(ms as nat) + "ms"@
}

/// The chart's column labels, left to right: the TLS column only in the
/// five-phase layout.
pub open spec fn phase_labels_of(p: PhaseDurations, layout: ChartLayout) -> Seq<Seq<char>> {
    match layout {
        ChartLayout::FivePhase => seq![
            ms_label_of(p.dns),
            ms_label_of(p.connect),
            ms_label_of(p.tls),
            ms_label_of(p.server),
            ms_label_of(p.transfer),
        ],
        ChartLayout::FourPhase => seq![
            ms_label_of(p.dns),
            ms_label_of(p.connect),
            ms_label_of(p.server),
            ms_label_of(p.transfer),
        ],
    }
}

/// Writes a duration label.
pub fn ms_label(ms: u64) -> (r: String)
    ensures
        r@ == ms_label_of(ms),
{
    let mut r = decimal_string(ms);
    r.append("ms");
    r
}

/// The labels of the chart's columns for a layout.
pub fn phase_labels(p: &PhaseDurations, layout: ChartLayout) -> (r: Vec<String>)
    ensures
        views(r@) == phase_labels_of(*p, layout),
{
    let mut r: Vec<String> = Vec::new();
    r.push(ms_label(p.dns));
    r.push(ms_label(p.connect));
    if layout == ChartLayout::FivePhase {
        r.push(ms_label(p.tls));
    }
    r.push(ms_label(p.server));
    r.push(ms_label(p.transfer));
    assert(views(r@) =~= phase_labels_of(*p, layout));
    r
}

/// For offsets that never decrease, every phase is the gap between two
/// consecutive offsets, and the phases add up exactly to the total time,
/// with or without the TLS phase.
pub proof fn lemma_phases_sum_to_total(t: CumulativeMs, https: bool)
    requires
        t.is_monotone(),
    ensures
        phases_of(t, https).sum() == t.total,
        phases_of(t, https).dns == t.namelookup,
        phases_of(t, https).connect == t.connect - t.namelookup,
        phases_of(t, https).tls == (if https {
            t.pretransfer - t.connect
        } else {
            0
        }),
        phases_of(t, https).server == t.starttransfer - (if https {
            t.pretransfer
        } else {
            t.connect
        }),
        phases_of(t, https).transfer == t.total - t.starttransfer,
{
}

} // verus!
