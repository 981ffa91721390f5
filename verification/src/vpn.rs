//! The verdict of the optional VPN check: whether the public IP's
//! organisation or host name looks like a VPN, proxy, or hosting provider.
use vstd::prelude::*;

use crate::bindings::{lowercase, str_to_lowercase};
use crate::encoding::{contains_str, contains_text};

verus! {

/// How many keywords mark a VPN, proxy or hosting provider.
pub const VPN_KEYWORD_COUNT: usize = 16;

/// The keywords, in the order they are tried.
pub open spec fn vpn_keyword(i: int) -> Seq<char> {
    if i == 0 {
        "vpn"@
    } else if i == 1 {
        "proxy"@
    } else if i == 2 {
        "hosting"@
    } else if i == 3 {
        "cloud"@
    } else if i == 4 {
        "datacenter"@
    } else if i == 5 {
        "digitalocean"@
    } else if i == 6 {
        "amazon"@
    } else if i == 7 {
        "google"@
    } else if i == 8 {
        "microsoft"@
    } else if i == 9 {
        "ovh"@
    } else if i == 10 {
        "hetzner"@
    } else if i == 11 {
        "linode"@
    } else if i == 12 {
        "mullvad"@
    } else if i == 13 {
        "nordvpn"@
    } else if i == 14 {
        "expressvpn"@
    } else {
        "proton"@
    }
}

fn keyword(i: usize) -> (k: &'static str)
    requires
        i < VPN_KEYWORD_COUNT,
    ensures
        k@ == vpn_keyword(i as int),
{
    match i {
        0 => "vpn",
        1 => "proxy",
        2 => "hosting",
        3 => "cloud",
        4 => "datacenter",
        5 => "digitalocean",
        6 => "amazon",
        7 => "google",
        8 => "microsoft",
        9 => "ovh",
        10 => "hetzner",
        11 => "linode",
        12 => "mullvad",
        13 => "nordvpn",
        14 => "expressvpn",
        _ => "proton",
    }
}

/// The text searched for keywords: the lower-cased organisation and host
/// name, separated by a space.
pub open spec fn vpn_haystack(org_lower: Seq<char>, host_lower: Seq<char>) -> Seq<char> {
    org_lower + " "@ + host_lower
}

/// Some keyword occurs in `hay`.
pub open spec fn has_vpn_keyword(hay: Seq<char>) -> bool {
    exists|i: int| 0 <= i < VPN_KEYWORD_COUNT && #[trigger] contains_text(hay, vpn_keyword(i))
}

/// The keywords are exactly vpn, proxy, hosting, cloud, datacenter,
/// digitalocean, amazon, google, microsoft, ovh, hetzner, linode, mullvad,
/// nordvpn, expressvpn and proton: a text holds a keyword exactly when it
/// contains one of these words.
pub proof fn lemma_vpn_keywords(hay: Seq<char>)
    ensures
        has_vpn_keyword(hay) <==> (contains_text(hay, "vpn"@) || contains_text(hay, "proxy"@)
            || contains_text(hay, "hosting"@) || contains_text(hay, "cloud"@) || contains_text(
            hay,
            "datacenter"@,
        ) || contains_text(hay, "digitalocean"@) || contains_text(hay, "amazon"@) || contains_text(
            hay,
            "google"@,
        ) || contains_text(hay, "microsoft"@) || contains_text(hay, "ovh"@) || contains_text(
            hay,
            "hetzner"@,
        ) || contains_text(hay, "linode"@) || contains_text(hay, "mullvad"@) || contains_text(
            hay,
            "nordvpn"@,
        ) || contains_text(hay, "expressvpn"@) || contains_text(hay, "proton"@)),
{
    assert(vpn_keyword(0) == "vpn"@);
    assert(vpn_keyword(1) == "proxy"@);
    assert(vpn_keyword(2) == "hosting"@);
    assert(vpn_keyword(3) == "cloud"@);
    assert(vpn_keyword(4) == "datacenter"@);
    assert(vpn_keyword(5) == "digitalocean"@);
    assert(vpn_keyword(6) == "amazon"@);
    assert(vpn_keyword(7) == "google"@);
    assert(vpn_keyword(8) == "microsoft"@);
    assert(vpn_keyword(9) == "ovh"@);
    assert(vpn_keyword(10) == "hetzner"@);
    assert(vpn_keyword(11) == "linode"@);
    assert(vpn_keyword(12) == "mullvad"@);
    assert(vpn_keyword(13) == "nordvpn"@);
    assert(vpn_keyword(14) == "expressvpn"@);
    assert(vpn_keyword(15) == "proton"@);
    if has_vpn_keyword(hay) {
        let i = choose|i: int| 0 <= i < VPN_KEYWORD_COUNT && #[trigger] contains_text(hay, vpn_keyword(i));
        assert(0 <= i < 16);
    }
}

/// The verdict of a public-IP lookup that returned `ip`, `org` and
/// `hostname` (each possibly missing): whether a VPN is likely, and the
/// line shown to the user. A missing IP or organisation reads "unknown", a
/// missing host name is empty.
pub fn vpn_verdict(ip: Option<String>, org: Option<String>, hostname: Option<String>) -> (verdict: (
    bool,
    String,
))
    ensures
        ({
            let ip_text = match ip {
                Some(s) => s@,
                None => "unknown"@,
            };
            let org_lower = lowercase(
                match org {
                    Some(s) => s@,
                    None => "unknown"@,
                },
            );
            let host_lower = lowercase(
                match hostname {
                    Some(s) => s@,
                    None => Seq::<char>::empty(),
                },
            );
            &&& verdict.0 == has_vpn_keyword(vpn_haystack(org_lower, host_lower))
            &&& verdict.1@ == "Public IP: "@ + ip_text + " \u{2014} Org: "@ + org_lower
        }),
{
    let ip_text = match ip {
        Some(s) => s,
        None => "unknown".to_owned(),
    };
    let org_text = match org {
        Some(s) => s,
        None => "unknown".to_owned(),
    };
    let host_text = match hostname {
        Some(s) => s,
        None => String::new(),
    };
    let org_lower = str_to_lowercase(org_text.as_str());
    let host_lower = str_to_lowercase(host_text.as_str());
    let mut hay = org_lower.clone();
    hay.append(" ");
    hay.append(host_lower.as_str());
    let mut detected = false;
    let mut i: usize = 0;
    while i < VPN_KEYWORD_COUNT
        invariant
            i <= VPN_KEYWORD_COUNT,
            detected == exists|j: int| 0 <= j < i && #[trigger] contains_text(hay@, vpn_keyword(j)),
        decreases VPN_KEYWORD_COUNT - i,
    {
        if contains_str(hay.as_str(), keyword(i)) {
            detected = true;
        }
        i += 1;
    }
    let mut detail = "Public IP: ".to_owned();
    detail.append(ip_text.as_str());
    detail.append(" \u{2014} Org: ");
    detail.append(org_lower.as_str());
    (detected, detail)
}

} // verus!
