use devtunnel::args::{
    build_create_access_args, build_create_port_args, build_create_tunnel_args,
    build_delete_all_tunnels_args, build_delete_port_args, build_delete_tunnel_args,
    build_host_tunnel_args, build_list_access_args, build_list_clusters_args,
    build_list_ports_args, build_list_tunnels_args, build_login_args, build_logout_args,
    build_reset_access_args, build_show_port_args, build_show_tunnel_args,
    build_update_port_description_args, build_update_tunnel_args, build_user_show_args,
};
use devtunnel::types::{
    AccessControlEntry, CreateAccessRequest, CreatePortRequest, CreateTunnelRequest,
    HostTunnelRequest, ListTunnelsRequest, Protocol, UpdatePortRequest, UpdateTunnelRequest,
};

fn s(text: &str) -> Option<String> {
    Some(text.to_string())
}

fn strings(words: &[&str]) -> Vec<String> {
    words.iter().map(|w| w.to_string()).collect()
}

fn count(args: &[String], word: &str) -> usize {
    args.iter().filter(|a| a.as_str() == word).count()
}

#[test]
fn login_args_by_provider_and_device_code() {
    assert_eq!(build_login_args("github", true), strings(&["user", "login", "-g", "-d"]));
    assert_eq!(build_login_args("github", false), strings(&["user", "login", "-g"]));
    assert_eq!(build_login_args("microsoft", true), strings(&["user", "login", "-d"]));
    assert_eq!(build_login_args("GitHub", false), strings(&["user", "login"]));
}

#[test]
fn fixed_argument_vectors() {
    assert_eq!(build_logout_args(), strings(&["user", "logout"]));
    assert_eq!(build_user_show_args(), strings(&["user", "show"]));
    assert_eq!(build_delete_all_tunnels_args(), strings(&["delete-all"]));
    assert_eq!(build_delete_tunnel_args("t1"), strings(&["delete", "t1"]));
    assert_eq!(build_list_ports_args("t1"), strings(&["port", "list", "t1", "-j"]));
    assert_eq!(
        build_show_port_args("t1", 8080),
        strings(&["port", "show", "t1", "--port-number", "8080"])
    );
    assert_eq!(build_delete_port_args("t1", 0), strings(&["port", "delete", "t1", "-p", "0"]));
    assert_eq!(
        build_delete_port_args("t1", 65535),
        strings(&["port", "delete", "t1", "-p", "65535"])
    );
    assert_eq!(build_list_access_args("t1"), strings(&["access", "list", "t1"]));
    assert_eq!(build_reset_access_args("t1"), strings(&["access", "reset", "t1"]));
    assert_eq!(build_list_clusters_args(false), strings(&["clusters", "-j"]));
    assert_eq!(build_list_clusters_args(true), strings(&["clusters", "-j", "--ping"]));
    assert_eq!(build_show_tunnel_args(&None), strings(&["show"]));
    assert_eq!(build_show_tunnel_args(&s("t1")), strings(&["show", "t1"]));
}

#[test]
fn create_tunnel_with_everything() {
    let req = CreateTunnelRequest {
        tunnel_id: s("my-tunnel"),
        description: s("a b"),
        tags: Some(strings(&["x", "y", "z"])),
        allow_anonymous: Some(true),
        expiration: s("2d"),
    };
    assert_eq!(
        build_create_tunnel_args(&req),
        strings(&[
            "create",
            "my-tunnel",
            "-a",
            "-d",
            "a b",
            "--tags",
            "x",
            "y",
            "z",
            "--expiration",
            "2d"
        ])
    );
}

#[test]
fn create_tunnel_with_nothing() {
    let req = CreateTunnelRequest {
        tunnel_id: None,
        description: None,
        tags: None,
        allow_anonymous: None,
        expiration: None,
    };
    assert_eq!(build_create_tunnel_args(&req), strings(&["create"]));
    let req = CreateTunnelRequest {
        tunnel_id: None,
        description: None,
        tags: Some(vec![]),
        allow_anonymous: Some(false),
        expiration: None,
    };
    assert_eq!(build_create_tunnel_args(&req), strings(&["create"]));
}

#[test]
fn absent_fields_leave_no_flag_and_present_ones_leave_one() {
    for description in [None, s("d")] {
        for expiration in [None, s("1h")] {
            for anonymous in [None, Some(false), Some(true)] {
                for tags in [None, Some(vec![]), Some(strings(&["t1", "t2"]))] {
                    let req = CreateTunnelRequest {
                        tunnel_id: s("id"),
                        description: description.clone(),
                        tags: tags.clone(),
                        allow_anonymous: anonymous,
                        expiration: expiration.clone(),
                    };
                    let args = build_create_tunnel_args(&req);
                    assert_eq!(count(&args, "-d"), description.is_some() as usize);
                    assert_eq!(count(&args, "--expiration"), expiration.is_some() as usize);
                    assert_eq!(count(&args, "-a"), (anonymous == Some(true)) as usize);
                    let tagged = tags.as_ref().map_or(false, |t| !t.is_empty());
                    assert_eq!(count(&args, "--tags"), tagged as usize);
                    if tagged {
                        let at = args.iter().position(|a| a == "--tags").unwrap();
                        assert_eq!(args[at + 1], "t1");
                        assert_eq!(args[at + 2], "t2");
                    }
                }
            }
        }
    }
}

#[test]
fn list_tunnels_tag_filters() {
    assert_eq!(build_list_tunnels_args(&None), strings(&["list"]));
    let req = ListTunnelsRequest { tags: None, all_tags: Some(true) };
    assert_eq!(build_list_tunnels_args(&Some(req)), strings(&["list"]));
    let req = ListTunnelsRequest { tags: Some(strings(&["a", "b"])), all_tags: None };
    assert_eq!(build_list_tunnels_args(&Some(req)), strings(&["list", "--tags", "a", "b"]));
    let req = ListTunnelsRequest { tags: Some(strings(&["a", "b"])), all_tags: Some(true) };
    assert_eq!(build_list_tunnels_args(&Some(req)), strings(&["list", "--all-tags", "a", "b"]));
    let req = ListTunnelsRequest { tags: Some(vec![]), all_tags: Some(false) };
    assert_eq!(build_list_tunnels_args(&Some(req)), strings(&["list", "--tags"]));
}

#[test]
fn update_tunnel_remove_tags_takes_precedence() {
    let req = UpdateTunnelRequest {
        tunnel_id: "t".to_string(),
        description: s("d"),
        tags: Some(strings(&["a"])),
        remove_tags: Some(true),
        expiration: s("1d"),
    };
    assert_eq!(
        build_update_tunnel_args(&req),
        strings(&["update", "t", "-d", "d", "--remove-tags", "--expiration", "1d"])
    );
    let req = UpdateTunnelRequest { remove_tags: Some(false), ..req };
    assert_eq!(
        build_update_tunnel_args(&req),
        strings(&["update", "t", "-d", "d", "--tags", "a", "--expiration", "1d"])
    );
    let req = UpdateTunnelRequest {
        tunnel_id: "t".to_string(),
        description: None,
        tags: None,
        remove_tags: None,
        expiration: None,
    };
    assert_eq!(build_update_tunnel_args(&req), strings(&["update", "t"]));
}

#[test]
fn create_port_protocols_and_description() {
    let req = CreatePortRequest {
        tunnel_id: "t".to_string(),
        port_number: 3000,
        protocol: None,
        description: None,
    };
    assert_eq!(build_create_port_args(&req), strings(&["port", "create", "t", "-p", "3000"]));
    for (protocol, name) in
        [(Protocol::Http, "http"), (Protocol::Https, "https"), (Protocol::Auto, "auto")]
    {
        let req = CreatePortRequest {
            tunnel_id: "t".to_string(),
            port_number: 1,
            protocol: Some(protocol),
            description: s("web"),
        };
        assert_eq!(
            build_create_port_args(&req),
            strings(&["port", "create", "t", "-p", "1", "--protocol", name, "--description", "web"])
        );
    }
}

#[test]
fn update_port_description_args() {
    let req = UpdatePortRequest {
        tunnel_id: "t".to_string(),
        port_number: 443,
        description: s("x"),
        protocol: Some(Protocol::Https),
    };
    assert_eq!(
        build_update_port_description_args(&req),
        strings(&["port", "update", "t", "-p", "443", "--description", "x"])
    );
    let req = UpdatePortRequest { description: None, ..req };
    assert_eq!(
        build_update_port_description_args(&req),
        strings(&["port", "update", "t", "-p", "443"])
    );
}

fn entry(kind: &str) -> AccessControlEntry {
    AccessControlEntry {
        entry_type: kind.to_string(),
        scopes: None,
        expiration: None,
        ports: None,
        organization_id: None,
    }
}

#[test]
fn create_access_kinds() {
    let req = CreateAccessRequest { tunnel_id: "t".to_string(), entry: entry("anonymous") };
    assert_eq!(build_create_access_args(&req), strings(&["access", "create", "t", "--anonymous"]));
    let req = CreateAccessRequest { tunnel_id: "t".to_string(), entry: entry("organization") };
    assert_eq!(build_create_access_args(&req), strings(&["access", "create", "t"]));
    let mut e = entry("organization");
    e.organization_id = s("org1");
    let req = CreateAccessRequest { tunnel_id: "t".to_string(), entry: e };
    assert_eq!(
        build_create_access_args(&req),
        strings(&["access", "create", "t", "--org", "org1"])
    );
    let mut e = entry("tenant");
    e.organization_id = s("org1");
    e.scopes = Some(strings(&["connect"]));
    let req = CreateAccessRequest { tunnel_id: "t".to_string(), entry: e };
    assert_eq!(build_create_access_args(&req), strings(&["access", "create", "t"]));
    let mut e = entry("anonymous");
    e.organization_id = s("org1");
    let req = CreateAccessRequest { tunnel_id: "t".to_string(), entry: e };
    assert_eq!(build_create_access_args(&req), strings(&["access", "create", "t", "--anonymous"]));
}

#[test]
fn create_access_one_pair_per_port_in_order() {
    let mut e = entry("anonymous");
    e.ports = Some(vec![8080, 80, 8080, 65535]);
    e.expiration = s("30d");
    let req = CreateAccessRequest { tunnel_id: "t".to_string(), entry: e };
    let args = build_create_access_args(&req);
    assert_eq!(
        args,
        strings(&[
            "access",
            "create",
            "t",
            "--anonymous",
            "-p",
            "8080",
            "-p",
            "80",
            "-p",
            "8080",
            "-p",
            "65535",
            "--expiration",
            "30d"
        ])
    );
    assert_eq!(count(&args, "-p"), 4);
    let mut e = entry("anonymous");
    e.ports = Some(vec![]);
    let req = CreateAccessRequest { tunnel_id: "t".to_string(), entry: e };
    assert_eq!(build_create_access_args(&req), strings(&["access", "create", "t", "--anonymous"]));
}

#[test]
fn host_args_leave_out_ports_and_protocol() {
    let req = HostTunnelRequest {
        tunnel_id: s("t"),
        ports: vec![3000, 3001],
        protocol: Some(Protocol::Https),
        allow_anonymous: Some(true),
        expiration: s("1d"),
    };
    assert_eq!(
        build_host_tunnel_args(&req),
        strings(&["host", "t", "--allow-anonymous", "--expiration", "1d"])
    );
    let req = HostTunnelRequest {
        tunnel_id: None,
        ports: vec![1],
        protocol: None,
        allow_anonymous: None,
        expiration: None,
    };
    assert_eq!(build_host_tunnel_args(&req), strings(&["host"]));
}

#[test]
fn a_value_that_looks_like_a_flag_is_passed_as_it_is() {
    let req = CreateTunnelRequest {
        tunnel_id: s("-d"),
        description: None,
        tags: None,
        allow_anonymous: None,
        expiration: None,
    };
    assert_eq!(build_create_tunnel_args(&req), strings(&["create", "-d"]));
}
