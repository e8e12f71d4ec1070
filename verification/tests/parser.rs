use devtunnel::parser::{
    parse_port_show, parse_tunnel_list, parse_tunnel_list_at, parse_tunnel_show, parse_user_info,
    user_info_from_groups,
};
use devtunnel::types::{AuthProvider, Protocol, TunnelStatus};

const LISTING: &str = "Found 2 tunnels.\n\nTunnel ID                           Host Connections     Labels                    Ports                Expiration                Description\nbch.asse                            1                                              8                    30 days\ntest2.asse                          0                                              0                    30 days                   test\n";

#[test]
fn test_parse_user_info() {
    let output = "Logged in as Bae-ChangHyun using GitHub.";
    let info = parse_user_info(output).unwrap();
    assert_eq!(info.user_name, Some("Bae-ChangHyun".to_string()));
}

#[test]
fn test_parse_tunnel_list() {
    let output = r#"Found 2 tunnels.

Tunnel ID                           Host Connections     Labels                    Ports                Expiration                Description
bch.asse                            1                                              8                    30 days
test2.asse                          0                                              0                    30 days                   test
"#;
    let tunnels = parse_tunnel_list(output);
    assert_eq!(tunnels.len(), 2);
    assert_eq!(tunnels[0].tunnel_id, "bch.asse");
}

#[test]
fn user_info_has_name_provider_and_flag() {
    let info = parse_user_info("Logged in as Bae-ChangHyun using GitHub.").unwrap();
    assert_eq!(info.user_id, "Bae-ChangHyun");
    assert_eq!(info.user_name, Some("Bae-ChangHyun".to_string()));
    assert_eq!(info.email, None);
    assert_eq!(info.provider, AuthProvider::GitHub);
    assert!(info.is_authenticated);
}

#[test]
fn user_info_microsoft_provider() {
    let info = parse_user_info("x\nLogged in as a b using Microsoft. trailing").unwrap();
    assert_eq!(info.user_id, "a b");
    assert_eq!(info.provider, AuthProvider::Microsoft);
}

#[test]
fn user_info_absent_without_the_line() {
    assert!(parse_user_info("").is_none());
    assert!(parse_user_info("Not logged in.").is_none());
    assert!(parse_user_info("Logged in as bob using GitLab.").is_none());
    assert!(parse_user_info("Logged in as  using GitHub").is_none());
}

fn groups(name: Option<&str>, provider: Option<&str>) -> Option<Vec<Option<String>>> {
    Some(vec![
        Some("whole".to_string()),
        name.map(|s| s.to_string()),
        provider.map(|s| s.to_string()),
    ])
}

#[test]
fn user_info_from_groups_needs_both_groups() {
    let out = "Logged in as ann using Microsoft.";
    assert!(user_info_from_groups(out, None).is_none());
    assert!(user_info_from_groups(out, Some(vec![Some("x".to_string())])).is_none());
    assert!(user_info_from_groups(out, groups(None, Some("Microsoft"))).is_none());
    assert!(user_info_from_groups(out, groups(Some("ann"), None)).is_none());
    let info = user_info_from_groups(out, groups(Some("ann"), Some("Microsoft"))).unwrap();
    assert_eq!(info.user_id, "ann");
    assert_eq!(info.user_name, Some("ann".to_string()));
    assert_eq!(info.provider, AuthProvider::Microsoft);
}

#[test]
fn user_info_from_groups_must_be_named_in_the_output() {
    let out = "Logged in as ann using Microsoft.";
    assert!(user_info_from_groups(out, groups(Some("bob"), Some("Microsoft"))).is_none());
    assert!(user_info_from_groups(out, groups(Some("ann"), Some("GitHub"))).is_none());
    assert!(user_info_from_groups(out, groups(Some("ann"), Some("Other"))).is_none());
    assert!(user_info_from_groups(out, groups(Some(""), Some("Microsoft"))).is_none());
    assert!(user_info_from_groups(
        "Logged in as a\nb using GitHub.",
        groups(Some("a\nb"), Some("GitHub"))
    )
    .is_none());
    assert!(user_info_from_groups("", groups(Some("ann"), Some("Microsoft"))).is_none());
}

#[test]
fn user_info_takes_the_leftmost_and_shortest_name() {
    let info = parse_user_info("Logged in as a using GitHub. and using Microsoft.").unwrap();
    assert_eq!(info.user_id, "a");
    assert_eq!(info.provider, AuthProvider::GitHub);
    let info =
        parse_user_info("Logged in as Logged in as x using Microsoft. using GitHub.").unwrap();
    assert_eq!(info.user_id, "Logged in as x");
    assert_eq!(info.provider, AuthProvider::Microsoft);
    let info = parse_user_info("Logged in as a\nb using GitHub.\nLogged in as c using GitHub.")
        .unwrap();
    assert_eq!(info.user_id, "c");
}

#[test]
fn tunnel_list_records_at_a_fixed_moment() {
    let tunnels = parse_tunnel_list_at(LISTING, Some(1_000_000));
    assert_eq!(tunnels.len(), 2);
    assert_eq!(tunnels[0].tunnel_id, "bch.asse");
    assert_eq!(tunnels[0].description, None);
    assert_eq!(tunnels[0].expires_at, Some("3592000".to_string()));
    assert_eq!(tunnels[0].tags, None);
    assert!(tunnels[0].ports.is_empty());
    assert_eq!(tunnels[0].status, TunnelStatus::Active);
    assert_eq!(tunnels[1].tunnel_id, "test2.asse");
    assert_eq!(tunnels[1].description, Some("test".to_string()));
    assert_eq!(tunnels[1].expires_at, Some("3592000".to_string()));
    assert!(tunnels[1].ports.is_empty());
}

#[test]
fn tunnel_list_expiry_is_about_thirty_days_from_now() {
    let before = std::time::SystemTime::now()
        .duration_since(std::time::UNIX_EPOCH)
        .unwrap()
        .as_secs();
    let tunnels = parse_tunnel_list(LISTING);
    let after = std::time::SystemTime::now()
        .duration_since(std::time::UNIX_EPOCH)
        .unwrap()
        .as_secs();
    for tunnel in &tunnels {
        let at: u64 = tunnel.expires_at.clone().unwrap().parse().unwrap();
        assert!(before + 30 * 86400 <= at && at <= after + 30 * 86400);
    }
}

#[test]
fn tunnel_list_description_is_rejoined_with_single_spaces() {
    let out = "h1\nh2\nh3\n  my.id   2   1 day    a   long\tdescription  \n";
    let tunnels = parse_tunnel_list_at(out, Some(10));
    assert_eq!(tunnels.len(), 1);
    assert_eq!(tunnels[0].tunnel_id, "my.id");
    assert_eq!(tunnels[0].description, Some("a long description".to_string()));
    assert_eq!(tunnels[0].expires_at, Some("86410".to_string()));
}

#[test]
fn tunnel_list_without_unit_has_no_expiration_and_no_description() {
    let out = "h1\nh2\nh3\nalpha 1 2 never described\n\n   \nbeta\n";
    let tunnels = parse_tunnel_list_at(out, Some(10));
    assert_eq!(tunnels.len(), 2);
    assert_eq!(tunnels[0].tunnel_id, "alpha");
    assert_eq!(tunnels[0].expires_at, None);
    assert_eq!(tunnels[0].description, None);
    assert_eq!(tunnels[1].tunnel_id, "beta");
}

#[test]
fn tunnel_list_edge_counts() {
    let out = "h1\nh2\nh3\na 0 days\nb -3 days\nc x days\ndays 5\ne 106751991167301 days\nf +2 days\ng 9223372036854775808 days\n";
    let tunnels = parse_tunnel_list_at(out, Some(0));
    assert_eq!(tunnels.len(), 7);
    assert_eq!(tunnels[0].expires_at, Some("0".to_string()));
    assert_eq!(tunnels[1].expires_at, None);
    assert_eq!(tunnels[2].expires_at, None);
    assert_eq!(tunnels[3].tunnel_id, "days");
    assert_eq!(tunnels[3].expires_at, None);
    assert_eq!(tunnels[3].description, Some("5".to_string()));
    assert_eq!(tunnels[4].expires_at, Some("9223372036854806400".to_string()));
    assert_eq!(tunnels[5].expires_at, Some("172800".to_string()));
    assert_eq!(tunnels[6].expires_at, None);
}

#[test]
fn a_count_of_no_days_expires_at_the_moment_of_reading() {
    let out = "a\nb\nc\nt1  0  0  0 days  tmp";
    let tunnels = parse_tunnel_list_at(out, Some(1_700_000_000));
    assert_eq!(tunnels.len(), 1);
    assert_eq!(tunnels[0].tunnel_id, "t1");
    assert_eq!(tunnels[0].expires_at, Some("1700000000".to_string()));
    assert_eq!(tunnels[0].description, Some("tmp".to_string()));
    let before = std::time::SystemTime::now()
        .duration_since(std::time::UNIX_EPOCH)
        .unwrap()
        .as_secs();
    let tunnels = parse_tunnel_list(out);
    let after = std::time::SystemTime::now()
        .duration_since(std::time::UNIX_EPOCH)
        .unwrap()
        .as_secs();
    let at: u64 = tunnels[0].expires_at.clone().unwrap().parse().unwrap();
    assert!(before <= at && at <= after);
    assert_eq!(tunnels[0].description, Some("tmp".to_string()));
}

#[test]
fn no_moment_is_too_late_to_expire_at() {
    let out = "a\nb\nc\nt1 9223372036854775807 days\nt2 30 days\n";
    let tunnels = parse_tunnel_list_at(out, Some(u64::MAX));
    assert_eq!(tunnels[0].expires_at, Some("796917790728326339276415".to_string()));
    assert_eq!(tunnels[1].expires_at, Some("18446744073712143615".to_string()));
}

#[test]
fn tunnel_list_without_a_clock_has_no_expiration() {
    let tunnels = parse_tunnel_list_at(LISTING, None);
    assert_eq!(tunnels.len(), 2);
    assert_eq!(tunnels[0].expires_at, None);
    assert_eq!(tunnels[1].description, Some("test".to_string()));
}

#[test]
fn tunnel_list_skips_a_three_line_header() {
    assert!(parse_tunnel_list_at("", Some(1)).is_empty());
    assert!(parse_tunnel_list_at("a\nb\nc", Some(1)).is_empty());
    assert!(parse_tunnel_list_at("a\nb\nc\n", Some(1)).is_empty());
    assert_eq!(parse_tunnel_list_at("a\r\nb\r\nc\r\nd\r\n", Some(1)).len(), 1);
    assert_eq!(parse_tunnel_list_at("a\r\nb\r\nc\r\nd\r\n", Some(1))[0].tunnel_id, "d");
}

#[test]
fn tunnel_show_ports_section() {
    let out = "Tunnel ID : x\nPorts                 : 1\n  3002  http  https://x\nAccess control : none\n  4000 http\n";
    assert_eq!(parse_tunnel_show(out), vec![3002]);
}

#[test]
fn tunnel_show_several_ports_and_blank_lines() {
    let out = "Ports\n 80 http\n\n 443 https\n+8080 auto\n65536 no\n 1 x\n";
    assert_eq!(parse_tunnel_show(out), vec![80, 443, 8080]);
}

#[test]
fn tunnel_show_without_section_is_empty() {
    assert!(parse_tunnel_show("").is_empty());
    assert!(parse_tunnel_show("3002 http\n").is_empty());
    assert!(parse_tunnel_show("Ports\n").is_empty());
    assert!(parse_tunnel_show("Ports\n-1 x\n").is_empty());
}

#[test]
fn tunnel_show_section_heading_may_repeat() {
    let out = "Ports\n1\nPorts again\n2\nend\n3\n";
    assert_eq!(parse_tunnel_show(out), vec![1, 2]);
}

#[test]
fn port_show_reads_the_fields() {
    let out = "Tunnel ID             : main.asse\nPort Number           : 8001\nProtocol              : auto\nDescription           : landing_web\nAccess control        : {Inherited: +Anonymous [connect]}\nClient connections    : 0\n";
    let port = parse_port_show(out).unwrap();
    assert_eq!(port.port_number, 8001);
    assert_eq!(port.protocol, Protocol::Auto);
    assert_eq!(port.description, Some("landing_web".to_string()));
    assert_eq!(port.port_forwarding_uris, None);
    assert_eq!(port.inspect_uri, None);
}

#[test]
fn port_show_protocols() {
    assert_eq!(
        parse_port_show("Port Number: 1\nProtocol: http").unwrap().protocol,
        Protocol::Http
    );
    assert_eq!(
        parse_port_show("Port Number: 1\nProtocol: https").unwrap().protocol,
        Protocol::Https
    );
    assert_eq!(
        parse_port_show("Port Number: 1\nProtocol: tcp").unwrap().protocol,
        Protocol::Auto
    );
    assert_eq!(
        parse_port_show("Port Number: 1\nProtocol: HTTP").unwrap().protocol,
        Protocol::Auto
    );
}

#[test]
fn port_show_without_a_protocol_value_finds_no_protocol() {
    assert!(parse_port_show("Port Number : 80\nProtocol :").is_none());
    assert!(parse_port_show("Port Number: 1\nProtocol:").is_none());
    assert!(parse_port_show("Port Number: 1\nProtocol:   \n").is_none());
    assert_eq!(
        parse_port_show("Protocol: http\nProtocol:\nPort Number: 1").unwrap().protocol,
        Protocol::Http
    );
}

#[test]
fn port_show_needs_number_and_protocol() {
    assert!(parse_port_show("").is_none());
    assert!(parse_port_show("Port Number : 80\n").is_none());
    assert!(parse_port_show("Protocol : http\n").is_none());
    assert!(parse_port_show("Port Number : eighty\nProtocol : http\n").is_none());
    assert!(parse_port_show("Port Number 80\nProtocol : http\n").is_none());
    assert!(parse_port_show("Port Number : 80\nProtocol : http\nPort Number : x\n").is_none());
}

#[test]
fn port_show_description_and_colons() {
    let port =
        parse_port_show("Port Number : 80\nProtocol : http\nDescription : a: b \nDescription :  \n")
            .unwrap();
    assert_eq!(port.description, Some("a: b".to_string()));
    let port = parse_port_show("Port Number : 80\nProtocol : http\nDescription :\n").unwrap();
    assert_eq!(port.description, None);
}

fn render(tunnels: &[devtunnel::types::TunnelListItem], now: u64) -> String {
    let mut text = "Found some tunnels.\n\nTunnel ID  Expiration  Description\n".to_string();
    for t in tunnels {
        text.push_str(&t.tunnel_id);
        if t.expires_at.is_some() || t.description.is_some() {
            match &t.expires_at {
                Some(at) => {
                    let at: u128 = at.parse().unwrap();
                    text.push_str(&format!(" {}", (at - now as u128) / 86400));
                }
                None => text.push_str(" -"),
            }
            text.push_str(" days");
            if let Some(d) = &t.description {
                text.push_str(&format!(" {}", d));
            }
        }
        text.push('\n');
    }
    text
}

#[test]
fn a_rendered_listing_reads_as_the_same_tunnels() {
    let now = 1_700_000_000;
    let first = parse_tunnel_list_at(LISTING, Some(now));
    let again = parse_tunnel_list_at(&render(&first, now), Some(now));
    assert_eq!(again, first);
    assert_eq!(again.len(), 2);
    assert_eq!(again[0].expires_at, Some((now + 30 * 86400).to_string()));
    assert_eq!(again[1].expires_at, again[0].expires_at);
    assert_eq!(again[1].description, Some("test".to_string()));
}

#[test]
fn every_small_listing_survives_its_rendering() {
    let words = ["a", "5", "0", "-2", "days", "day", "x.y", "+3"];
    let mut lines: Vec<String> = vec![String::new()];
    let mut last: Vec<String> = vec![String::new()];
    for _ in 0..4 {
        let mut next = Vec::new();
        for line in &last {
            for w in words {
                next.push(format!("{}  {}", line, w));
            }
        }
        lines.extend(next.iter().cloned());
        last = next;
    }
    let mut checked = 0;
    for now in [0u64, 1_700_000_000, u64::MAX] {
        for (i, line) in lines.iter().enumerate() {
            let other = &lines[(i * 7 + 3) % lines.len()];
            let text = format!("h\nh\nh\n{}\n\n{}\r\n", line, other);
            let first = parse_tunnel_list_at(&text, Some(now));
            if first.iter().any(|t| t.tunnel_id == "day" || t.tunnel_id == "days") {
                continue;
            }
            let again = parse_tunnel_list_at(&render(&first, now), Some(now));
            assert_eq!(again, first, "{:?}", text);
            checked += 1;
        }
    }
    assert!(checked > 5000);
}

#[test]
fn an_identifier_that_is_the_unit_does_not_survive() {
    let first = parse_tunnel_list_at("h\nh\nh\ndays x\n", Some(5));
    assert_eq!(first[0].tunnel_id, "days");
    assert_eq!(first[0].description, Some("x".to_string()));
    let again = parse_tunnel_list_at(&render(&first, 5), Some(5));
    assert_ne!(again, first);
}
