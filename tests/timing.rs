use httpstat::{
    chart_layout, ms_label, phase_durations, phase_labels, url_is_https, ChartLayout,
    CumulativeMs, PhaseDurations,
};

fn offsets(n: u64, c: u64, p: u64, s: u64, t: u64) -> CumulativeMs {
    CumulativeMs { namelookup: n, connect: c, pretransfer: p, starttransfer: s, total: t }
}

#[test]
fn https_uses_five_phases() {
    assert_eq!(chart_layout("https://example.com"), ChartLayout::FivePhase);
    assert_eq!(chart_layout("http://example.com"), ChartLayout::FourPhase);
    assert_eq!(chart_layout("example.com"), ChartLayout::FourPhase);
    assert_eq!(chart_layout("HTTPS://example.com"), ChartLayout::FourPhase);
    assert!(url_is_https("https://"));
    assert!(!url_is_https("https:/"));
}

#[test]
fn phases_with_tls() {
    let p = phase_durations(&offsets(10, 30, 80, 120, 150), true);
    assert_eq!(p, PhaseDurations { dns: 10, connect: 20, tls: 50, server: 40, transfer: 30 });
    assert_eq!(p.dns + p.connect + p.tls + p.server + p.transfer, 150);
}

#[test]
fn phases_without_tls() {
    let p = phase_durations(&offsets(10, 30, 80, 120, 150), false);
    assert_eq!(p, PhaseDurations { dns: 10, connect: 20, tls: 0, server: 90, transfer: 30 });
    assert_eq!(p.dns + p.connect + p.server + p.transfer, 150);
}

#[test]
fn phases_all_zero() {
    let p = phase_durations(&offsets(0, 0, 0, 0, 0), true);
    assert_eq!(p, PhaseDurations { dns: 0, connect: 0, tls: 0, server: 0, transfer: 0 });
}

#[test]
fn backwards_offsets_clamp_to_zero() {
    let p = phase_durations(&offsets(50, 30, 20, 120, 100), true);
    assert_eq!(p, PhaseDurations { dns: 50, connect: 0, tls: 0, server: 70, transfer: 0 });
}

#[test]
fn largest_offsets_do_not_overflow() {
    let m = u64::MAX;
    let p = phase_durations(&offsets(m, m, m, m, m), true);
    assert_eq!(p, PhaseDurations { dns: m, connect: 0, tls: 0, server: 0, transfer: 0 });
}

#[test]
fn labels_follow_layout() {
    let p = PhaseDurations { dns: 1, connect: 22, tls: 333, server: 0, transfer: 4000 };
    assert_eq!(phase_labels(&p, ChartLayout::FivePhase), vec!["1ms", "22ms", "333ms", "0ms", "4000ms"]);
    assert_eq!(phase_labels(&p, ChartLayout::FourPhase), vec!["1ms", "22ms", "0ms", "4000ms"]);
    assert_eq!(ms_label(1234567), "1234567ms");
}
