use devtunnel::client::DevTunnelClient;
use devtunnel::process::{Completion, ErrorKind, Invocation, ProcessOutput, Step, TunnelError};
use devtunnel::types::{Protocol, UpdatePortRequest};
use devtunnel::workflow::{copy_text, Probe};

const LISTING: &str = "Found 3 tunnels.\n\nTunnel ID  Host Connections  Labels  Ports  Expiration  Description\none.asse  1  2  30 days\ntwo.asse  0  0  30 days  second\nthree.asse  0  1  30 days\n";

fn client() -> DevTunnelClient {
    DevTunnelClient::new("dt".to_string())
}

fn strings(words: &[&str]) -> Vec<String> {
    words.iter().map(|w| w.to_string()).collect()
}

fn ok(stdout: &str) -> Completion {
    Completion::Exited(ProcessOutput {
        success: true,
        stdout: stdout.to_string(),
        stderr: String::new(),
    })
}

fn failed(stderr: &str) -> Completion {
    Completion::Exited(ProcessOutput {
        success: false,
        stdout: String::new(),
        stderr: stderr.to_string(),
    })
}

fn runs<T>(words: &[&str]) -> Step<T> {
    Step::Run(Invocation { program: "dt".to_string(), args: strings(words) })
}

fn gives(text: &str) -> Step<String> {
    Step::Done(Ok(text.to_string()))
}

fn fails<T>(kind: ErrorKind, message: &str) -> Step<T> {
    Step::Done(Err(TunnelError { kind, message: message.to_string() }))
}

fn update(protocol: Option<Protocol>) -> UpdatePortRequest {
    UpdatePortRequest {
        tunnel_id: "t".to_string(),
        port_number: 8080,
        description: Some("web".to_string()),
        protocol,
    }
}

const DESCRIBE: [&str; 7] = ["port", "update", "t", "-p", "8080", "--description", "web"];
const SHOW: [&str; 5] = ["port", "show", "t", "--port-number", "8080"];
const DELETE: [&str; 5] = ["port", "delete", "t", "-p", "8080"];

#[test]
fn description_only_update_is_one_run() {
    let c = client();
    let req = update(None);
    assert_eq!(c.update_port(&req, &vec![]), runs(&DESCRIBE));
    assert_eq!(c.update_port(&req, &vec![ok("updated")]), gives("updated"));
    assert_eq!(
        c.update_port(&req, &vec![failed("e")]),
        fails(ErrorKind::Exit, "Failed to update port: e")
    );
    assert_eq!(
        c.update_port(&req, &vec![Completion::SpawnFailed]),
        fails(ErrorKind::Spawn, "Failed to update port")
    );
}

#[test]
fn protocol_change_deletes_then_creates() {
    let c = client();
    let req = update(Some(Protocol::Https));
    let probe = ok("Port Number : 8080\nProtocol : http\n");
    assert_eq!(c.update_port(&req, &vec![]), runs(&SHOW));
    assert_eq!(c.update_port(&req, &vec![probe.clone()]), runs(&DELETE));
    let create = c.update_port(&req, &vec![probe.clone(), ok("gone")]);
    assert_eq!(
        create,
        runs(&["port", "create", "t", "-p", "8080", "--protocol", "https", "--description", "web"])
    );
    assert_ne!(create, runs(&DELETE));
    assert_eq!(
        c.update_port(&req, &vec![probe.clone(), ok("gone"), ok("created")]),
        gives("created")
    );
    assert_eq!(
        c.update_port(&req, &vec![probe.clone(), ok("gone"), failed("late")]),
        fails(ErrorKind::Exit, "Failed to create port: late")
    );
    assert_eq!(
        c.update_port(&req, &vec![probe.clone(), ok("gone"), Completion::SpawnFailed]),
        fails(ErrorKind::Spawn, "Failed to create port")
    );
}

#[test]
fn protocol_change_stops_when_the_deletion_fails() {
    let c = client();
    let req = update(Some(Protocol::Auto));
    let probe = ok("Port Number : 8080\nProtocol : http\n");
    assert_eq!(
        c.update_port(&req, &vec![probe.clone(), failed("busy")]),
        fails(ErrorKind::Exit, "Failed to delete port: busy")
    );
    assert_eq!(
        c.update_port(&req, &vec![probe.clone(), Completion::SpawnFailed]),
        fails(ErrorKind::Spawn, "Failed to delete port")
    );
    assert_eq!(
        c.update_port(&req, &vec![probe, failed("busy"), ok("never looked at")]),
        fails(ErrorKind::Exit, "Failed to delete port: busy")
    );
}

#[test]
fn same_protocol_updates_the_description_only() {
    let c = client();
    let req = update(Some(Protocol::Http));
    let probe = ok("Port Number : 8080\nProtocol : http\n");
    assert_eq!(c.update_port(&req, &vec![probe.clone()]), runs(&DESCRIBE));
    assert_eq!(c.update_port(&req, &vec![probe.clone(), ok("u")]), gives("u"));
    assert_eq!(
        c.update_port(&req, &vec![probe, failed("e")]),
        fails(ErrorKind::Exit, "Failed to update port: e")
    );
}

#[test]
fn a_probe_that_finds_no_port_updates_the_description_only() {
    let c = client();
    let req = update(Some(Protocol::Https));
    for probe in [failed("no such port"), Completion::SpawnFailed, ok("garbage")] {
        assert_eq!(c.update_port(&req, &vec![probe.clone()]), runs(&DESCRIBE));
        assert_eq!(c.update_port(&req, &vec![probe, ok("u")]), gives("u"));
    }
}

#[test]
fn copy_text_copies() {
    assert_eq!(copy_text(&None), None);
    assert_eq!(copy_text(&Some("a".to_string())), Some("a".to_string()));
}

#[test]
fn full_listing_shows_each_tunnel_in_turn() {
    let c = client();
    assert_eq!(c.list_tunnels(&None, &vec![]), runs(&["list"]));
    let mut done = vec![ok(LISTING)];
    assert_eq!(c.list_tunnels(&None, &done), runs(&["show", "one.asse"]));
    done.push(ok("Ports : 2\n 3000 http\n 3001 http\n"));
    assert_eq!(c.list_tunnels(&None, &done), runs(&["show", "two.asse"]));
    done.push(failed("gone"));
    assert_eq!(c.list_tunnels(&None, &done), runs(&["show", "three.asse"]));
    done.push(ok("Ports : 1\n 8080 auto\nend\n"));
    match c.list_tunnels(&None, &done) {
        Step::Done(Ok(tunnels)) => {
            assert_eq!(tunnels.len(), 3);
            assert_eq!(tunnels[0].tunnel_id, "one.asse");
            assert_eq!(tunnels[0].ports, vec![3000, 3001]);
            assert_eq!(tunnels[1].tunnel_id, "two.asse");
            assert_eq!(tunnels[1].description, Some("second".to_string()));
            assert!(tunnels[1].ports.is_empty());
            assert_eq!(tunnels[2].tunnel_id, "three.asse");
            assert_eq!(tunnels[2].ports, vec![8080]);
        }
        other => panic!("unexpected step {:?}", other),
    }
}

#[test]
fn full_listing_fails_with_the_list() {
    let c = client();
    assert_eq!(
        c.list_tunnels(&None, &vec![failed("nope")]),
        fails(ErrorKind::Exit, "Failed to list tunnels: nope")
    );
    assert_eq!(
        c.list_tunnels(&None, &vec![Completion::SpawnFailed]),
        fails(ErrorKind::Spawn, "Failed to list tunnels")
    );
    assert_eq!(c.list_tunnels(&None, &vec![ok("a\nb\nc\n")]), Step::Done(Ok(vec![])));
}

#[test]
fn enrichment_probes_one_show_per_tunnel() {
    let c = client();
    let probes = c.enrichment_probes(&strings(&["a", "b", "a"]));
    assert_eq!(
        probes,
        vec![
            Invocation { program: "dt".to_string(), args: strings(&["show", "a"]) },
            Invocation { program: "dt".to_string(), args: strings(&["show", "b"]) },
            Invocation { program: "dt".to_string(), args: strings(&["show", "a"]) },
        ]
    );
    assert!(c.enrichment_probes(&vec![]).is_empty());
}

fn probe(id: &str, completion: Completion) -> Probe {
    Probe { tunnel_id: id.to_string(), completion }
}

#[test]
fn enrichment_with_one_failed_probe_keeps_every_tunnel() {
    let c = client();
    let probes = vec![
        probe("three.asse", ok("Ports\n 8080 auto\n")),
        probe("two.asse", failed("boom")),
        probe("one.asse", ok("Ports\n 3000 http\n 3001 http\n")),
    ];
    assert_eq!(c.enrich_tunnel_details(&probes, &vec![]), runs(&["list"]));
    match c.enrich_tunnel_details(&probes, &vec![ok(LISTING)]) {
        Step::Done(Ok(tunnels)) => {
            assert_eq!(tunnels.len(), 3);
            assert_eq!(tunnels[0].tunnel_id, "one.asse");
            assert_eq!(tunnels[0].ports, vec![3000, 3001]);
            assert_eq!(tunnels[1].tunnel_id, "two.asse");
            assert!(tunnels[1].ports.is_empty());
            assert_eq!(tunnels[1].description, Some("second".to_string()));
            assert_eq!(tunnels[2].tunnel_id, "three.asse");
            assert_eq!(tunnels[2].ports, vec![8080]);
        }
        other => panic!("unexpected step {:?}", other),
    }
}

#[test]
fn enrichment_takes_the_first_probe_that_succeeded() {
    let c = client();
    let probes = vec![
        probe("one.asse", Completion::SpawnFailed),
        probe("one.asse", ok("Ports\n 1\n")),
        probe("one.asse", ok("Ports\n 2\n")),
        probe("unknown", ok("Ports\n 9\n")),
    ];
    match c.enrich_tunnel_details(&probes, &vec![ok(LISTING)]) {
        Step::Done(Ok(tunnels)) => {
            assert_eq!(tunnels.len(), 3);
            assert_eq!(tunnels[0].ports, vec![1]);
            assert!(tunnels[1].ports.is_empty());
            assert!(tunnels[2].ports.is_empty());
        }
        other => panic!("unexpected step {:?}", other),
    }
}

#[test]
fn enrichment_fails_with_the_list() {
    let c = client();
    let probes = vec![probe("one.asse", ok("Ports\n 1\n"))];
    assert_eq!(
        c.enrich_tunnel_details(&probes, &vec![failed("x")]),
        fails(ErrorKind::Exit, "Failed to list tunnels: x")
    );
    assert_eq!(
        c.enrich_tunnel_details(&vec![], &vec![Completion::SpawnFailed]),
        fails(ErrorKind::Spawn, "Failed to list tunnels")
    );
}
