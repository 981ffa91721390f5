use secure_passage::ui::log_line_visible;
use secure_passage::vpn::vpn_verdict;

#[test]
fn hosting_providers_are_flagged() {
    let (detected, detail) = vpn_verdict(
        Some("1.2.3.4".into()),
        Some("DigitalOcean, LLC".into()),
        None,
    );
    assert!(detected);
    assert_eq!(detail, "Public IP: 1.2.3.4 — Org: digitalocean, llc");
}

#[test]
fn host_name_counts_too() {
    let (detected, _) = vpn_verdict(None, Some("Some ISP".into()), Some("node.Mullvad.net".into()));
    assert!(detected);
}

#[test]
fn residential_lines_are_not_flagged() {
    let (detected, detail) = vpn_verdict(None, None, None);
    assert!(!detected);
    assert_eq!(detail, "Public IP: unknown — Org: unknown");
    let (detected, _) = vpn_verdict(Some("9.9.9.9".into()), Some("Deutsche Telekom AG".into()), Some("p5.dip0.t-ipconnect.de".into()));
    assert!(!detected);
}

#[test]
fn log_filter_ignores_case() {
    assert!(log_line_visible("[t] [INFO] Connected", ""));
    assert!(log_line_visible("[t] [INFO] Connected", "connected"));
    assert!(log_line_visible("[t] [ERROR] boom", "ERROR"));
    assert!(!log_line_visible("[t] [INFO] Connected", "error"));
    assert!(!log_line_visible("ab", "abc"));
}
