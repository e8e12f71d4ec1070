use devtunnel::client::{check, DevTunnelClient};
use devtunnel::process::{
    Completion, ErrorKind, Invocation, ProcessOutput, Step, TunnelError,
};
use devtunnel::types::{
    AccessControlEntry, AuthProvider, Cluster, CommandResponse, CreateAccessRequest,
    CreatePortRequest, CreateTunnelRequest, Port, Protocol, UpdatePortRequest, UpdateTunnelRequest,
};

fn client() -> DevTunnelClient {
    DevTunnelClient::new("/usr/bin/devtunnel".to_string())
}

fn strings(words: &[&str]) -> Vec<String> {
    words.iter().map(|w| w.to_string()).collect()
}

fn ok(stdout: &str) -> Vec<Completion> {
    vec![Completion::Exited(ProcessOutput {
        success: true,
        stdout: stdout.to_string(),
        stderr: "ignored".to_string(),
    })]
}

fn failed(stderr: &str) -> Vec<Completion> {
    vec![Completion::Exited(ProcessOutput {
        success: false,
        stdout: "ignored".to_string(),
        stderr: stderr.to_string(),
    })]
}

fn unspawned() -> Vec<Completion> {
    vec![Completion::SpawnFailed]
}

fn runs<T>(words: &[&str]) -> Step<T> {
    Step::Run(Invocation { program: "/usr/bin/devtunnel".to_string(), args: strings(words) })
}

fn gives(text: &str) -> Step<String> {
    Step::Done(Ok(text.to_string()))
}

fn fails<T>(kind: ErrorKind, message: &str) -> Step<T> {
    Step::Done(Err(TunnelError { kind, message: message.to_string() }))
}

#[test]
fn new_client_keeps_its_path_and_tracks_nothing() {
    let c = client();
    assert_eq!(c.binary_path(), "/usr/bin/devtunnel");
    assert!(c.get_active_hosts().is_empty());
}

#[test]
fn login_steps() {
    let c = client();
    assert_eq!(c.login("github", true, &vec![]), runs(&["user", "login", "-g", "-d"]));
    assert_eq!(c.login("github", true, &ok("Welcome\n")), gives("Welcome\n"));
    assert_eq!(
        c.login("github", true, &failed("denied")),
        fails(ErrorKind::Exit, "Login failed: denied")
    );
    assert_eq!(
        c.login("github", true, &unspawned()),
        fails(ErrorKind::Spawn, "Failed to execute devtunnel login")
    );
}

#[test]
fn logout_steps() {
    let c = client();
    assert_eq!(c.logout(&vec![]), runs(&["user", "logout"]));
    assert_eq!(c.logout(&ok("bye")), gives("Logged out successfully"));
    assert_eq!(c.logout(&failed("e")), fails(ErrorKind::Exit, "Logout failed: e"));
    assert_eq!(
        c.logout(&unspawned()),
        fails(ErrorKind::Spawn, "Failed to execute devtunnel logout")
    );
}

#[test]
fn user_info_steps() {
    let c = client();
    assert_eq!(c.get_user_info(&vec![]), runs(&["user", "show"]));
    match c.get_user_info(&ok("Logged in as Bae-ChangHyun using GitHub.\n")) {
        Step::Done(Ok(info)) => {
            assert_eq!(info.user_id, "Bae-ChangHyun");
            assert_eq!(info.provider, AuthProvider::GitHub);
            assert!(info.is_authenticated);
        }
        other => panic!("unexpected step {:?}", other),
    }
    assert_eq!(
        c.get_user_info(&ok("nothing to see")),
        fails(ErrorKind::Parse, "Failed to parse user info")
    );
    assert_eq!(
        c.get_user_info(&failed("Logged in as a using GitHub.")),
        fails(ErrorKind::Exit, "Not authenticated")
    );
    assert_eq!(c.get_user_info(&unspawned()), fails(ErrorKind::Spawn, "Failed to get user info"));
}

#[test]
fn create_tunnel_steps() {
    let c = client();
    let req = CreateTunnelRequest {
        tunnel_id: Some("t".to_string()),
        description: None,
        tags: None,
        allow_anonymous: Some(true),
        expiration: None,
    };
    assert_eq!(c.create_tunnel(&req, &vec![]), runs(&["create", "t", "-a"]));
    assert_eq!(c.create_tunnel(&req, &ok("made")), gives("made"));
    assert_eq!(
        c.create_tunnel(&req, &failed("no")),
        fails(ErrorKind::Exit, "Failed to create tunnel: no")
    );
    assert_eq!(
        c.create_tunnel(&req, &unspawned()),
        fails(ErrorKind::Spawn, "Failed to create tunnel")
    );
}

#[test]
fn list_tunnels_light_steps() {
    let c = client();
    assert_eq!(c.list_tunnels_light(&None, &vec![]), runs(&["list"]));
    match c.list_tunnels_light(&None, &ok("h\nh\nh\none 1 2 3 days\ntwo\n")) {
        Step::Done(Ok(tunnels)) => {
            assert_eq!(tunnels.len(), 2);
            assert_eq!(tunnels[0].tunnel_id, "one");
            assert!(tunnels[0].expires_at.is_some());
            assert!(tunnels[0].ports.is_empty());
            assert_eq!(tunnels[1].tunnel_id, "two");
            assert_eq!(tunnels[1].expires_at, None);
        }
        other => panic!("unexpected step {:?}", other),
    }
    assert_eq!(
        c.list_tunnels_light(&None, &failed("x")),
        fails(ErrorKind::Exit, "Failed to list tunnels: x")
    );
    assert_eq!(
        c.list_tunnels_light(&None, &unspawned()),
        fails(ErrorKind::Spawn, "Failed to list tunnels")
    );
}

#[test]
fn show_update_delete_tunnel_steps() {
    let c = client();
    assert_eq!(c.show_tunnel(&None, &vec![]), runs(&["show"]));
    assert_eq!(c.show_tunnel(&Some("t".to_string()), &vec![]), runs(&["show", "t"]));
    assert_eq!(c.show_tunnel(&None, &ok("detail")), gives("detail"));
    assert_eq!(
        c.show_tunnel(&None, &failed("e")),
        fails(ErrorKind::Exit, "Failed to show tunnel: e")
    );
    assert_eq!(c.show_tunnel(&None, &unspawned()), fails(ErrorKind::Spawn, "Failed to show tunnel"));

    let req = UpdateTunnelRequest {
        tunnel_id: "t".to_string(),
        description: Some("d".to_string()),
        tags: None,
        remove_tags: None,
        expiration: None,
    };
    assert_eq!(c.update_tunnel(&req, &vec![]), runs(&["update", "t", "-d", "d"]));
    assert_eq!(c.update_tunnel(&req, &ok("up")), gives("up"));
    assert_eq!(
        c.update_tunnel(&req, &failed("e")),
        fails(ErrorKind::Exit, "Failed to update tunnel: e")
    );
    assert_eq!(
        c.update_tunnel(&req, &unspawned()),
        fails(ErrorKind::Spawn, "Failed to update tunnel")
    );

    assert_eq!(c.delete_tunnel("t", &vec![]), runs(&["delete", "t"]));
    assert_eq!(c.delete_tunnel("t", &ok("x")), gives("Tunnel deleted successfully"));
    assert_eq!(
        c.delete_tunnel("t", &failed("e")),
        fails(ErrorKind::Exit, "Failed to delete tunnel: e")
    );
    assert_eq!(
        c.delete_tunnel("t", &unspawned()),
        fails(ErrorKind::Spawn, "Failed to delete tunnel")
    );

    assert_eq!(c.delete_all_tunnels(&vec![]), runs(&["delete-all"]));
    assert_eq!(c.delete_all_tunnels(&ok("x")), gives("All tunnels deleted successfully"));
    assert_eq!(
        c.delete_all_tunnels(&failed("e")),
        fails(ErrorKind::Exit, "Failed to delete all tunnels: e")
    );
    assert_eq!(
        c.delete_all_tunnels(&unspawned()),
        fails(ErrorKind::Spawn, "Failed to delete all tunnels")
    );
}

#[test]
fn port_steps() {
    let c = client();
    let req = CreatePortRequest {
        tunnel_id: "t".to_string(),
        port_number: 80,
        protocol: Some(Protocol::Http),
        description: None,
    };
    assert_eq!(
        c.create_port(&req, &vec![]),
        runs(&["port", "create", "t", "-p", "80", "--protocol", "http"])
    );
    assert_eq!(c.create_port(&req, &ok("p")), gives("p"));
    assert_eq!(
        c.create_port(&req, &failed("e")),
        fails(ErrorKind::Exit, "Failed to create port: e")
    );
    assert_eq!(c.create_port(&req, &unspawned()), fails(ErrorKind::Spawn, "Failed to create port"));

    assert_eq!(
        c.show_port("t", 80, &vec![]),
        runs(&["port", "show", "t", "--port-number", "80"])
    );
    match c.show_port("t", 80, &ok("Port Number : 80\nProtocol : https\n")) {
        Step::Done(Ok(port)) => {
            assert_eq!(port.port_number, 80);
            assert_eq!(port.protocol, Protocol::Https);
        }
        other => panic!("unexpected step {:?}", other),
    }
    assert_eq!(
        c.show_port("t", 80, &ok("nothing")),
        fails(ErrorKind::Parse, "Failed to parse port details")
    );
    assert_eq!(
        c.show_port("t", 80, &failed("e")),
        fails(ErrorKind::Exit, "Failed to show port: e")
    );
    assert_eq!(c.show_port("t", 80, &unspawned()), fails(ErrorKind::Spawn, "Failed to show port"));

    let req = UpdatePortRequest {
        tunnel_id: "t".to_string(),
        port_number: 80,
        description: Some("d".to_string()),
        protocol: None,
    };
    assert_eq!(
        c.update_port_description(&req, &vec![]),
        runs(&["port", "update", "t", "-p", "80", "--description", "d"])
    );
    assert_eq!(c.update_port_description(&req, &ok("u")), gives("u"));
    assert_eq!(
        c.update_port_description(&req, &failed("e")),
        fails(ErrorKind::Exit, "Failed to update port: e")
    );
    assert_eq!(
        c.update_port_description(&req, &unspawned()),
        fails(ErrorKind::Spawn, "Failed to update port")
    );

    assert_eq!(c.delete_port("t", 80, &vec![]), runs(&["port", "delete", "t", "-p", "80"]));
    assert_eq!(c.delete_port("t", 80, &ok("x")), gives("Port deleted successfully"));
    assert_eq!(
        c.delete_port("t", 80, &failed("e")),
        fails(ErrorKind::Exit, "Failed to delete port: e")
    );
    assert_eq!(c.delete_port("t", 80, &unspawned()), fails(ErrorKind::Spawn, "Failed to delete port"));
}

fn port(n: u16) -> Port {
    Port {
        port_number: n,
        protocol: Protocol::Auto,
        description: None,
        port_forwarding_uris: None,
        inspect_uri: None,
    }
}

#[test]
fn list_ports_steps() {
    let c = client();
    assert_eq!(c.list_ports("t", &vec![], None), runs(&["port", "list", "t", "-j"]));
    assert_eq!(
        c.list_ports("t", &ok("[..]"), Some(vec![port(1), port(2)])),
        Step::Done(Ok(vec![port(1), port(2)]))
    );
    assert_eq!(c.list_ports("t", &ok("not json"), None), Step::Done(Ok(vec![])));
    assert_eq!(
        c.list_ports("t", &failed("e"), Some(vec![port(1)])),
        fails(ErrorKind::Exit, "Failed to list ports: e")
    );
    assert_eq!(
        c.list_ports("t", &unspawned(), None),
        fails(ErrorKind::Spawn, "Failed to list ports")
    );
}

#[test]
fn list_clusters_steps() {
    let c = client();
    let cluster = Cluster {
        cluster_id: "asse".to_string(),
        uri: "https://asse".to_string(),
        region: None,
        latency: Some(12),
    };
    assert_eq!(c.list_clusters(true, &vec![], None), runs(&["clusters", "-j", "--ping"]));
    assert_eq!(c.list_clusters(false, &vec![], None), runs(&["clusters", "-j"]));
    assert_eq!(
        c.list_clusters(true, &ok("[]"), Some(vec![cluster.clone()])),
        Step::Done(Ok(vec![cluster]))
    );
    assert_eq!(c.list_clusters(true, &ok("oops"), None), Step::Done(Ok(vec![])));
    assert_eq!(
        c.list_clusters(true, &failed("e"), None),
        fails(ErrorKind::Exit, "Failed to list clusters: e")
    );
    assert_eq!(
        c.list_clusters(true, &unspawned(), None),
        fails(ErrorKind::Spawn, "Failed to list clusters")
    );
}

#[test]
fn access_steps() {
    let c = client();
    let req = CreateAccessRequest {
        tunnel_id: "t".to_string(),
        entry: AccessControlEntry {
            entry_type: "anonymous".to_string(),
            scopes: None,
            expiration: None,
            ports: Some(vec![1]),
            organization_id: None,
        },
    };
    assert_eq!(
        c.create_access(&req, &vec![]),
        runs(&["access", "create", "t", "--anonymous", "-p", "1"])
    );
    assert_eq!(c.create_access(&req, &ok("a")), gives("a"));
    assert_eq!(
        c.create_access(&req, &failed("e")),
        fails(ErrorKind::Exit, "Failed to create access: e")
    );
    assert_eq!(
        c.create_access(&req, &unspawned()),
        fails(ErrorKind::Spawn, "Failed to create access")
    );
    assert_eq!(c.list_access("t", &vec![]), runs(&["access", "list", "t"]));
    assert_eq!(c.list_access("t", &ok("raw text")), gives("raw text"));
    assert_eq!(
        c.list_access("t", &failed("e")),
        fails(ErrorKind::Exit, "Failed to list access: e")
    );
    assert_eq!(c.list_access("t", &unspawned()), fails(ErrorKind::Spawn, "Failed to list access"));
    assert_eq!(c.reset_access("t", &vec![]), runs(&["access", "reset", "t"]));
    assert_eq!(c.reset_access("t", &ok("x")), gives("Access reset successfully"));
    assert_eq!(
        c.reset_access("t", &failed("e")),
        fails(ErrorKind::Exit, "Failed to reset access: e")
    );
    assert_eq!(c.reset_access("t", &unspawned()), fails(ErrorKind::Spawn, "Failed to reset access"));
}

#[test]
fn check_reads_a_completion() {
    let done = ok("out");
    assert_eq!(check(&done[0], "ctx", "pre: "), Ok(&"out".to_string()));
    let done = failed("err");
    let e = check(&done[0], "ctx", "pre: ").unwrap_err();
    assert_eq!(e.kind, ErrorKind::Exit);
    assert_eq!(e.to_string(), "pre: err");
    let e = check(&Completion::SpawnFailed, "ctx", "pre: ").unwrap_err();
    assert_eq!(e.kind, ErrorKind::Spawn);
    assert_eq!(e.to_string(), "ctx");
}

#[test]
fn later_completions_do_not_matter_to_a_single_run() {
    let c = client();
    let mut done = ok("first");
    done.extend(failed("second"));
    assert_eq!(c.show_tunnel(&None, &done), gives("first"));
}

#[test]
fn response_envelope_is_success_or_error() {
    let r = CommandResponse::success(5u32);
    assert!(r.success);
    assert_eq!(r.data, Some(5));
    assert_eq!(r.error, None);
    let r: CommandResponse<u32> = CommandResponse::error("bad".to_string());
    assert!(!r.success);
    assert_eq!(r.data, None);
    assert_eq!(r.error, Some("bad".to_string()));
}
