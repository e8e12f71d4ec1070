//! The argument builder: for every operation, the argument vector that the
//! external tool is to be started with.
//!
//! A required field becomes a positional argument or a flag with its value.
//! An optional field becomes a flag only where it is present. A collection
//! becomes its flag followed by one argument per element, in the caller's
//! order.

use crate::text::{decimal, decimal_string, str_is};
use crate::types::{
    CreateAccessRequest, CreatePortRequest, CreateTunnelRequest, HostTunnelRequest,
    ListTunnelsRequest, Protocol, UpdatePortRequest, UpdateTunnelRequest,
};
use vstd::prelude::*;

verus! {

/// The arguments that a switch contributes: the flag where the switch is
/// on, nothing where it is off.
pub open spec fn switch(on: bool, flag: Seq<char>) -> Seq<Seq<char>> {
    if on {
        seq![flag]
    } else {
        Seq::empty()
    }
}

/// The arguments that an optional positional value contributes.
pub open spec fn positional(value: Option<Seq<char>>) -> Seq<Seq<char>> {
    match value {
        Some(v) => seq![v],
        None => Seq::empty(),
    }
}

/// The arguments that an optional value contributes: the flag and the
/// value where it is present, nothing where it is absent.
pub open spec fn option(flag: Seq<char>, value: Option<Seq<char>>) -> Seq<Seq<char>> {
    match value {
        Some(v) => seq![flag, v],
        None => Seq::empty(),
    }
}

/// The arguments that a collection contributes under one flag: the flag,
/// then the elements in order.
pub open spec fn list(flag: Seq<char>, values: Seq<Seq<char>>) -> Seq<Seq<char>> {
    seq![flag] + values
}

/// The arguments that a collection contributes where every element takes
/// the flag anew: one flag and value pair per element, in order.
pub open spec fn pairs(flag: Seq<char>, values: Seq<Seq<char>>) -> Seq<Seq<char>>
    decreases values.len(),
{
    if values.len() == 0 {
        Seq::empty()
    } else {
        pairs(flag, values.drop_last()) + seq![flag, values.last()]
    }
}

/// The decimal texts of `ports`, in order.
pub open spec fn port_texts(ports: Seq<u16>) -> Seq<Seq<char>> {
    Seq::new(ports.len(), |i: int| decimal(ports[i] as nat))
}

/// The name by which the tool knows a protocol.
pub open spec fn protocol_name(protocol: Protocol) -> Seq<char> {
    match protocol {
        Protocol::Http => "http"@,
        Protocol::Https => "https"@,
        Protocol::Auto => "auto"@,
    }
}

/// Whether an optional switch is present and on.
pub open spec fn is_on(flag: Option<bool>) -> bool {
    flag == Some(true)
}

/// The arguments of `user login`: `-g` for the `github` provider, `-d` for
/// a login by device code.
pub open spec fn login_args(provider: Seq<char>, use_device_code: bool) -> Seq<Seq<char>> {
    seq!["user"@, "login"@] + switch(provider == "github"@, "-g"@) + switch(use_device_code, "-d"@)
}

/// The arguments of `user logout`.
pub open spec fn logout_args() -> Seq<Seq<char>> {
    seq!["user"@, "logout"@]
}

/// The arguments of `user show`.
pub open spec fn user_show_args() -> Seq<Seq<char>> {
    seq!["user"@, "show"@]
}

/// A tag list is passed only where it has an element.
pub open spec fn create_tunnel_args(req: &CreateTunnelRequest) -> Seq<Seq<char>> {
    seq!["create"@] + positional(req.tunnel_id.deep_view()) + switch(
        is_on(req.allow_anonymous),
        "-a"@,
    ) + option("-d"@, req.description.deep_view()) + (match req.tags.deep_view() {
        Some(tags) => if tags.len() > 0 {
            list("--tags"@, tags)
        } else {
            Seq::empty()
        },
        None => Seq::empty(),
    }) + option("--expiration"@, req.expiration.deep_view())
}

/// A filter with tags passes them under `--all-tags` where all of them are
/// asked for and under `--tags` otherwise.
pub open spec fn list_tunnels_args(req: &Option<ListTunnelsRequest>) -> Seq<Seq<char>> {
    seq!["list"@] + (match req {
        Some(r) => match r.tags.deep_view() {
            Some(tags) => list(
                if is_on(r.all_tags) {
                    "--all-tags"@
                } else {
                    "--tags"@
                },
                tags,
            ),
            None => Seq::empty(),
        },
        None => Seq::empty(),
    })
}

/// The arguments of `show`, for the tunnel named or for the current one.
pub open spec fn show_tunnel_args(tunnel_id: Option<Seq<char>>) -> Seq<Seq<char>> {
    seq!["show"@] + positional(tunnel_id)
}

/// Removing the tags takes precedence over a tag list.
pub open spec fn update_tunnel_args(req: &UpdateTunnelRequest) -> Seq<Seq<char>> {
    seq!["update"@, req.tunnel_id@] + option("-d"@, req.description.deep_view()) + (if is_on(
        req.remove_tags,
    ) {
        seq!["--remove-tags"@]
    } else {
        match req.tags.deep_view() {
            Some(tags) => list("--tags"@, tags),
            None => Seq::empty(),
        }
    }) + option("--expiration"@, req.expiration.deep_view())
}

/// The arguments of `delete`.
pub open spec fn delete_tunnel_args(tunnel_id: Seq<char>) -> Seq<Seq<char>> {
    seq!["delete"@, tunnel_id]
}

/// The arguments of `delete-all`.
pub open spec fn delete_all_tunnels_args() -> Seq<Seq<char>> {
    seq!["delete-all"@]
}

/// The arguments of `port create`: the tunnel and the port number, then
/// the protocol and the description where they are present.
pub open spec fn create_port_args(req: &CreatePortRequest) -> Seq<Seq<char>> {
    seq!["port"@, "create"@, req.tunnel_id@, "-p"@, decimal(req.port_number as nat)] + option(
        "--protocol"@,
        match req.protocol {
            Some(p) => Some(protocol_name(p)),
            None => None,
        },
    ) + option("--description"@, req.description.deep_view())
}

/// The arguments of `port list`, which asks for JSON.
pub open spec fn list_ports_args(tunnel_id: Seq<char>) -> Seq<Seq<char>> {
    seq!["port"@, "list"@, tunnel_id, "-j"@]
}

/// The arguments of `port show`.
pub open spec fn show_port_args(tunnel_id: Seq<char>, port_number: u16) -> Seq<Seq<char>> {
    seq!["port"@, "show"@, tunnel_id, "--port-number"@, decimal(port_number as nat)]
}

/// The arguments of `port update`: the tunnel and the port number, then
/// the description where it is present. The protocol is never passed.
pub open spec fn update_port_description_args(req: &UpdatePortRequest) -> Seq<Seq<char>> {
    seq!["port"@, "update"@, req.tunnel_id@, "-p"@, decimal(req.port_number as nat)] + option(
        "--description"@,
        req.description.deep_view(),
    )
}

/// The arguments of `port delete`.
pub open spec fn delete_port_args(tunnel_id: Seq<char>, port: u16) -> Seq<Seq<char>> {
    seq!["port"@, "delete"@, tunnel_id, "-p"@, decimal(port as nat)]
}

/// An anonymous entry passes `--anonymous`; an organization entry passes
/// its organization where it names one; any other kind passes nothing.
pub open spec fn create_access_args(req: &CreateAccessRequest) -> Seq<Seq<char>> {
    seq!["access"@, "create"@, req.tunnel_id@] + (if req.entry.entry_type@ == "anonymous"@ {
        seq!["--anonymous"@]
    } else if req.entry.entry_type@ == "organization"@ {
        option("--org"@, req.entry.organization_id.deep_view())
    } else {
        Seq::empty()
    }) + (match req.entry.ports {
        Some(ports) => pairs("-p"@, port_texts(ports@)),
        None => Seq::empty(),
    }) + option("--expiration"@, req.entry.expiration.deep_view())
}

/// The arguments of `access list`.
pub open spec fn list_access_args(tunnel_id: Seq<char>) -> Seq<Seq<char>> {
    seq!["access"@, "list"@, tunnel_id]
}

/// The arguments of `access reset`.
pub open spec fn reset_access_args(tunnel_id: Seq<char>) -> Seq<Seq<char>> {
    seq!["access"@, "reset"@, tunnel_id]
}

/// The arguments of `clusters`, which asks for JSON, and for latencies
/// where `ping` holds.
pub open spec fn list_clusters_args(ping: bool) -> Seq<Seq<char>> {
    seq!["clusters"@, "-j"@] + switch(ping, "--ping"@)
}

/// Hosting passes neither ports nor a protocol: the ports of a tunnel are
/// set up before it is hosted, and the tool refuses them here.
pub open spec fn host_tunnel_args(req: &HostTunnelRequest) -> Seq<Seq<char>> {
    seq!["host"@] + positional(req.tunnel_id.deep_view()) + switch(
        is_on(req.allow_anonymous),
        "--allow-anonymous"@,
    ) + option("--expiration"@, req.expiration.deep_view())
}

/// Appends `text` to `args`.
pub fn push_text(args: &mut Vec<String>, text: &str)
    ensures
        final(args).deep_view() == old(args).deep_view().push(text@),
{
    args.push(text.to_owned());
    assert(final(args).deep_view() =~= old(args).deep_view().push(text@));
}

/// Appends the string `text` to `args`.
pub fn push_string(args: &mut Vec<String>, text: String)
    ensures
        final(args).deep_view() == old(args).deep_view().push(text@),
{
    args.push(text);
    assert(final(args).deep_view() =~= old(args).deep_view().push(text@));
}

/// Appends the decimal text of `n` to `args`.
pub fn push_number(args: &mut Vec<String>, n: u16)
    ensures
        final(args).deep_view() == old(args).deep_view().push(decimal(n as nat)),
{
    args.push(decimal_string(n as u64));
    assert(final(args).deep_view() =~= old(args).deep_view().push(decimal(n as nat)));
}

/// Appends `flag` and `value` to `args` where there is a value.
pub fn push_option(args: &mut Vec<String>, flag: &str, value: &Option<String>)
    ensures
        final(args).deep_view() == old(args).deep_view() + option(flag@, value.deep_view()),
{
    match value {
        Some(v) => {
            push_text(args, flag);
            push_text(args, v.as_str());
        },
        None => {},
    }
    assert(final(args).deep_view() =~= old(args).deep_view() + option(flag@, value.deep_view()));
}

/// Appends `flag` to `args` where `on` holds.
pub fn push_switch(args: &mut Vec<String>, on: bool, flag: &str)
    ensures
        final(args).deep_view() == old(args).deep_view() + switch(on, flag@),
{
    if on {
        push_text(args, flag);
    }
    assert(final(args).deep_view() =~= old(args).deep_view() + switch(on, flag@));
}

/// Appends `flag` and then every one of `values` to `args`.
pub fn push_list(args: &mut Vec<String>, flag: &str, values: &Vec<String>)
    ensures
        final(args).deep_view() == old(args).deep_view() + list(flag@, values.deep_view()),
{
    push_text(args, flag);
    let mut i: usize = 0;
    while i < values.len()
        invariant
            i <= values.len(),
            args.deep_view() =~= old(args).deep_view() + list(
                flag@,
                values.deep_view().take(i as int),
            ),
        decreases values.len() - i,
    {
        push_text(args, values[i].as_str());
        i += 1;
    }
    assert(values.deep_view().take(values.len() as int) =~= values.deep_view());
}

/// Appends one `flag` and port number per element of `ports` to `args`.
pub fn push_port_pairs(args: &mut Vec<String>, flag: &str, ports: &Vec<u16>)
    ensures
        final(args).deep_view() == old(args).deep_view() + pairs(flag@, port_texts(ports@)),
{
    let ghost texts = port_texts(ports@);
    let mut i: usize = 0;
    assert(texts.take(0) =~= Seq::<Seq<char>>::empty());
    assert(args.deep_view() =~= old(args).deep_view() + pairs(flag@, texts.take(0)));
    while i < ports.len()
        invariant
            i <= ports.len(),
            texts == port_texts(ports@),
            args.deep_view() == old(args).deep_view() + pairs(flag@, texts.take(i as int)),
        decreases ports.len() - i,
    {
        let ghost before = args.deep_view();
        push_text(args, flag);
        push_number(args, ports[i]);
        assert(texts.take(i as int + 1).drop_last() =~= texts.take(i as int));
        assert(texts.take(i as int + 1).last() == decimal(ports[i as int] as nat));
        assert(args.deep_view() =~= old(args).deep_view() + pairs(
            flag@,
            texts.take(i as int + 1),
        ));
        i += 1;
    }
    assert(texts.take(ports.len() as int) =~= texts);
}

/// Builds the arguments of `user login`.
pub fn build_login_args(provider: &str, use_device_code: bool) -> (args: Vec<String>)
    ensures
        args.deep_view() == login_args(provider@, use_device_code),
{
    let mut args: Vec<String> = Vec::new();
    push_text(&mut args, "user");
    push_text(&mut args, "login");
    push_switch(&mut args, str_is(provider, "github"), "-g");
    push_switch(&mut args, use_device_code, "-d");
    assert(args.deep_view() =~= login_args(provider@, use_device_code));
    args
}

/// Builds the arguments of `user logout`.
pub fn build_logout_args() -> (args: Vec<String>)
    ensures
        args.deep_view() == logout_args(),
{
    let mut args: Vec<String> = Vec::new();
    push_text(&mut args, "user");
    push_text(&mut args, "logout");
    assert(args.deep_view() =~= logout_args());
    args
}

/// Builds the arguments of `user show`.
pub fn build_user_show_args() -> (args: Vec<String>)
    ensures
        args.deep_view() == user_show_args(),
{
    let mut args: Vec<String> = Vec::new();
    push_text(&mut args, "user");
    push_text(&mut args, "show");
    assert(args.deep_view() =~= user_show_args());
    args
}

/// Builds the arguments of `create`.
pub fn build_create_tunnel_args(req: &CreateTunnelRequest) -> (args: Vec<String>)
    ensures
        args.deep_view() == create_tunnel_args(req),
{
    let mut args: Vec<String> = Vec::new();
    push_text(&mut args, "create");
    match &req.tunnel_id {
        Some(id) => push_text(&mut args, id.as_str()),
        None => {},
    }
    let anonymous = match req.allow_anonymous {
        Some(b) => b,
        None => false,
    };
    push_switch(&mut args, anonymous, "-a");
    push_option(&mut args, "-d", &req.description);
    match &req.tags {
        Some(tags) => {
            if tags.len() > 0 {
                push_list(&mut args, "--tags", tags);
            }
        },
        None => {},
    }
    push_option(&mut args, "--expiration", &req.expiration);
    assert(args.deep_view() =~= create_tunnel_args(req));
    args
}

/// Builds the arguments of `list`.
pub fn build_list_tunnels_args(req: &Option<ListTunnelsRequest>) -> (args: Vec<String>)
    ensures
        args.deep_view() == list_tunnels_args(req),
{
    let mut args: Vec<String> = Vec::new();
    push_text(&mut args, "list");
    match req {
        Some(r) => {
            match &r.tags {
                Some(tags) => {
                    let all = match r.all_tags {
                        Some(b) => b,
                        None => false,
                    };
                    if all {
                        push_list(&mut args, "--all-tags", tags);
                    } else {
                        push_list(&mut args, "--tags", tags);
                    }
                },
                None => {},
            }
        },
        None => {},
    }
    assert(args.deep_view() =~= list_tunnels_args(req));
    args
}

/// Builds the arguments of `show`.
pub fn build_show_tunnel_args(tunnel_id: &Option<String>) -> (args: Vec<String>)
    ensures
        args.deep_view() == show_tunnel_args(tunnel_id.deep_view()),
{
    let mut args: Vec<String> = Vec::new();
    push_text(&mut args, "show");
    match tunnel_id {
        Some(id) => push_text(&mut args, id.as_str()),
        None => {},
    }
    assert(args.deep_view() =~= show_tunnel_args(tunnel_id.deep_view()));
    args
}

/// Builds the arguments of `update`.
pub fn build_update_tunnel_args(req: &UpdateTunnelRequest) -> (args: Vec<String>)
    ensures
        args.deep_view() == update_tunnel_args(req),
{
    let mut args: Vec<String> = Vec::new();
    push_text(&mut args, "update");
    push_text(&mut args, req.tunnel_id.as_str());
    push_option(&mut args, "-d", &req.description);
    let remove = match req.remove_tags {
        Some(b) => b,
        None => false,
    };
    if remove {
        push_text(&mut args, "--remove-tags");
    } else {
        match &req.tags {
            Some(tags) => push_list(&mut args, "--tags", tags),
            None => {},
        }
    }
    push_option(&mut args, "--expiration", &req.expiration);
    assert(args.deep_view() =~= update_tunnel_args(req));
    args
}

/// Builds the arguments of `delete`.
pub fn build_delete_tunnel_args(tunnel_id: &str) -> (args: Vec<String>)
    ensures
        args.deep_view() == delete_tunnel_args(tunnel_id@),
{
    let mut args: Vec<String> = Vec::new();
    push_text(&mut args, "delete");
    push_text(&mut args, tunnel_id);
    assert(args.deep_view() =~= delete_tunnel_args(tunnel_id@));
    args
}

/// Builds the arguments of `delete-all`.
pub fn build_delete_all_tunnels_args() -> (args: Vec<String>)
    ensures
        args.deep_view() == delete_all_tunnels_args(),
{
    let mut args: Vec<String> = Vec::new();
    push_text(&mut args, "delete-all");
    assert(args.deep_view() =~= delete_all_tunnels_args());
    args
}

/// Appends `port <verb> <tunnel> <flag> <number>` to `args`.
fn push_port_target(args: &mut Vec<String>, verb: &str, tunnel_id: &str, flag: &str, port: u16)
    ensures
        final(args).deep_view() == old(args).deep_view() + seq![
            "port"@,
            verb@,
            tunnel_id@,
            flag@,
            decimal(port as nat),
        ],
{
    push_text(args, "port");
    push_text(args, verb);
    push_text(args, tunnel_id);
    push_text(args, flag);
    push_number(args, port);
    assert(final(args).deep_view() =~= old(args).deep_view() + seq![
        "port"@,
        verb@,
        tunnel_id@,
        flag@,
        decimal(port as nat),
    ]);
}

/// Builds the arguments of `port create`.
pub fn build_create_port_args(req: &CreatePortRequest) -> (args: Vec<String>)
    ensures
        args.deep_view() == create_port_args(req),
{
    let mut args: Vec<String> = Vec::new();
    push_port_target(&mut args, "create", req.tunnel_id.as_str(), "-p", req.port_number);
    match req.protocol {
        Some(protocol) => {
            push_text(&mut args, "--protocol");
            match protocol {
                Protocol::Http => push_text(&mut args, "http"),
                Protocol::Https => push_text(&mut args, "https"),
                Protocol::Auto => push_text(&mut args, "auto"),
            }
        },
        None => {},
    }
    push_option(&mut args, "--description", &req.description);
    assert(args.deep_view() =~= create_port_args(req));
    args
}

/// Builds the arguments of `port list`.
pub fn build_list_ports_args(tunnel_id: &str) -> (args: Vec<String>)
    ensures
        args.deep_view() == list_ports_args(tunnel_id@),
{
    let mut args: Vec<String> = Vec::new();
    push_text(&mut args, "port");
    push_text(&mut args, "list");
    push_text(&mut args, tunnel_id);
    push_text(&mut args, "-j");
    assert(args.deep_view() =~= list_ports_args(tunnel_id@));
    args
}

/// Builds the arguments of `port show`.
pub fn build_show_port_args(tunnel_id: &str, port_number: u16) -> (args: Vec<String>)
    ensures
        args.deep_view() == show_port_args(tunnel_id@, port_number),
{
    let mut args: Vec<String> = Vec::new();
    push_port_target(&mut args, "show", tunnel_id, "--port-number", port_number);
    assert(args.deep_view() =~= show_port_args(tunnel_id@, port_number));
    args
}

/// Builds the arguments of `port update`.
pub fn build_update_port_description_args(req: &UpdatePortRequest) -> (args: Vec<String>)
    ensures
        args.deep_view() == update_port_description_args(req),
{
    let mut args: Vec<String> = Vec::new();
    push_port_target(&mut args, "update", req.tunnel_id.as_str(), "-p", req.port_number);
    push_option(&mut args, "--description", &req.description);
    assert(args.deep_view() =~= update_port_description_args(req));
    args
}

/// Builds the arguments of `port delete`.
pub fn build_delete_port_args(tunnel_id: &str, port: u16) -> (args: Vec<String>)
    ensures
        args.deep_view() == delete_port_args(tunnel_id@, port),
{
    let mut args: Vec<String> = Vec::new();
    push_port_target(&mut args, "delete", tunnel_id, "-p", port);
    assert(args.deep_view() =~= delete_port_args(tunnel_id@, port));
    args
}

/// Builds the arguments of `access create`.
pub fn build_create_access_args(req: &CreateAccessRequest) -> (args: Vec<String>)
    ensures
        args.deep_view() == create_access_args(req),
{
    let mut args: Vec<String> = Vec::new();
    push_text(&mut args, "access");
    push_text(&mut args, "create");
    push_text(&mut args, req.tunnel_id.as_str());
    if str_is(req.entry.entry_type.as_str(), "anonymous") {
        push_text(&mut args, "--anonymous");
    } else if str_is(req.entry.entry_type.as_str(), "organization") {
        push_option(&mut args, "--org", &req.entry.organization_id);
    }
    match &req.entry.ports {
        Some(ports) => push_port_pairs(&mut args, "-p", ports),
        None => {},
    }
    push_option(&mut args, "--expiration", &req.entry.expiration);
    assert(args.deep_view() =~= create_access_args(req));
    args
}

/// Builds the arguments of `access list`.
pub fn build_list_access_args(tunnel_id: &str) -> (args: Vec<String>)
    ensures
        args.deep_view() == list_access_args(tunnel_id@),
{
    let mut args: Vec<String> = Vec::new();
    push_text(&mut args, "access");
    push_text(&mut args, "list");
    push_text(&mut args, tunnel_id);
    assert(args.deep_view() =~= list_access_args(tunnel_id@));
    args
}

/// Builds the arguments of `access reset`.
pub fn build_reset_access_args(tunnel_id: &str) -> (args: Vec<String>)
    ensures
        args.deep_view() == reset_access_args(tunnel_id@),
{
    let mut args: Vec<String> = Vec::new();
    push_text(&mut args, "access");
    push_text(&mut args, "reset");
    push_text(&mut args, tunnel_id);
    assert(args.deep_view() =~= reset_access_args(tunnel_id@));
    args
}

/// Builds the arguments of `clusters`.
pub fn build_list_clusters_args(ping: bool) -> (args: Vec<String>)
    ensures
        args.deep_view() == list_clusters_args(ping),
{
    let mut args: Vec<String> = Vec::new();
    push_text(&mut args, "clusters");
    push_text(&mut args, "-j");
    push_switch(&mut args, ping, "--ping");
    assert(args.deep_view() =~= list_clusters_args(ping));
    args
}

/// Builds the arguments of `host`.
pub fn build_host_tunnel_args(req: &HostTunnelRequest) -> (args: Vec<String>)
    ensures
        args.deep_view() == host_tunnel_args(req),
{
    let mut args: Vec<String> = Vec::new();
    push_text(&mut args, "host");
    match &req.tunnel_id {
        Some(id) => push_text(&mut args, id.as_str()),
        None => {},
    }
    let anonymous = match req.allow_anonymous {
        Some(b) => b,
        None => false,
    };
    push_switch(&mut args, anonymous, "--allow-anonymous");
    push_option(&mut args, "--expiration", &req.expiration);
    assert(args.deep_view() =~= host_tunnel_args(req));
    args
}

/// How often `word` stands among `args`.
pub open spec fn occurrences(args: Seq<Seq<char>>, word: Seq<char>) -> nat
    decreases args.len(),
{
    if args.len() == 0 {
        0
    } else {
        occurrences(args.drop_last(), word) + count(args.last() == word)
    }
}

/// One where `present` holds, zero where it does not.
pub open spec fn count(present: bool) -> nat {
    if present {
        1
    } else {
        0
    }
}

/// Whether `word` has the shape of a flag: whether it begins with a
/// hyphen.
pub open spec fn is_flag(word: Seq<char>) -> bool {
    word.len() > 0 && word[0] == '-'
}

/// Whether an optional value, where present, is no flag.
pub open spec fn plain(value: Option<Seq<char>>) -> bool {
    value matches Some(v) ==> !is_flag(v)
}

/// Whether none of `values` is a flag.
pub open spec fn all_plain(values: Seq<Seq<char>>) -> bool {
    forall|i: int| 0 <= i < values.len() ==> !is_flag(#[trigger] values[i])
}

/// Occurrences add up over concatenation.
pub proof fn lemma_occurrences_add(a: Seq<Seq<char>>, b: Seq<Seq<char>>, w: Seq<char>)
    ensures
        occurrences(a + b, w) == occurrences(a, w) + occurrences(b, w),
    decreases b.len(),
{
    if b.len() == 0 {
        assert(a + b =~= a);
    } else {
        lemma_occurrences_add(a, b.drop_last(), w);
        assert((a + b).drop_last() =~= a + b.drop_last());
        assert((a + b).last() == b.last());
    }
}

/// A single word stands once where it is the word looked for.
pub proof fn lemma_occurrences_one(word: Seq<char>, w: Seq<char>)
    ensures
        occurrences(seq![word], w) == count(word == w),
{
    reveal_with_fuel(occurrences, 2);
    assert(seq![word].drop_last() =~= Seq::<Seq<char>>::empty());
    assert(seq![word].last() == word);
}

/// No word that has the shape of a flag stands among plain values.
pub proof fn lemma_occurrences_plain(values: Seq<Seq<char>>, w: Seq<char>)
    requires
        all_plain(values),
        is_flag(w),
    ensures
        occurrences(values, w) == 0,
    decreases values.len(),
{
    if values.len() > 0 {
        assert forall|i: int| 0 <= i < values.drop_last().len() implies !is_flag(
            #[trigger] values.drop_last()[i],
        ) by {
            assert(values.drop_last()[i] == values[i]);
        }
        lemma_occurrences_plain(values.drop_last(), w);
        assert(!is_flag(values[values.len() - 1]));
    }
}

/// A switch contributes its flag once where it is on, and nothing where
/// it is off.
pub proof fn lemma_switch(on: bool, flag: Seq<char>, w: Seq<char>)
    ensures
        occurrences(switch(on, flag), w) == count(on && flag == w),
{
    lemma_occurrences_one(flag, w);
}

/// A positional value contributes no flag where it is plain.
pub proof fn lemma_positional(value: Option<Seq<char>>, w: Seq<char>)
    requires
        plain(value),
        is_flag(w),
    ensures
        occurrences(positional(value), w) == 0,
{
    if value is Some {
        lemma_occurrences_one(value->0, w);
    }
}

/// An absent optional value contributes nothing at all. A present one
/// contributes its flag once, followed by the value.
pub proof fn lemma_option(flag: Seq<char>, value: Option<Seq<char>>, w: Seq<char>)
    requires
        plain(value),
        is_flag(w),
    ensures
        value is None ==> option(flag, value).len() == 0,
        value matches Some(v) ==> option(flag, value) == seq![flag, v],
        occurrences(option(flag, value), w) == count(value is Some && flag == w),
{
    if value is Some {
        lemma_occurrences_one(flag, w);
        lemma_occurrences_one(value->0, w);
        lemma_occurrences_add(seq![flag], seq![value->0], w);
        assert(seq![flag] + seq![value->0] =~= seq![flag, value->0]);
    }
}

/// A collection under one flag contributes the flag once, followed by
/// its elements in order.
pub proof fn lemma_list(flag: Seq<char>, values: Seq<Seq<char>>, w: Seq<char>)
    requires
        all_plain(values),
        is_flag(w),
    ensures
        list(flag, values).len() == 1 + values.len(),
        list(flag, values)[0] == flag,
        forall|k: int| 0 <= k < values.len() ==> #[trigger] list(flag, values)[1 + k] == values[k],
        occurrences(list(flag, values), w) == count(flag == w),
{
    lemma_occurrences_add(seq![flag], values, w);
    lemma_occurrences_plain(values, w);
    lemma_occurrences_one(flag, w);
}

/// A collection whose every element takes the flag contributes exactly
/// one flag and value pair per element, in the order of the elements.
pub proof fn lemma_pairs(flag: Seq<char>, values: Seq<Seq<char>>, w: Seq<char>)
    requires
        all_plain(values),
        is_flag(w),
    ensures
        pairs(flag, values).len() == 2 * values.len(),
        forall|k: int|
            0 <= k < values.len() ==> #[trigger] pairs(flag, values)[2 * k] == flag && pairs(
                flag,
                values,
            )[2 * k + 1] == values[k],
        occurrences(pairs(flag, values), w) == if flag == w {
            values.len()
        } else {
            0
        },
    decreases values.len(),
{
    if values.len() > 0 {
        let front = values.drop_last();
        assert forall|i: int| 0 <= i < front.len() implies !is_flag(#[trigger] front[i]) by {
            assert(front[i] == values[i]);
        }
        lemma_pairs(flag, front, w);
        let both = seq![flag, values.last()];
        lemma_occurrences_add(pairs(flag, front), both, w);
        lemma_occurrences_one(flag, w);
        lemma_occurrences_one(values.last(), w);
        lemma_occurrences_add(seq![flag], seq![values.last()], w);
        assert(seq![flag] + seq![values.last()] =~= both);
        assert(!is_flag(values[values.len() - 1]));
        assert forall|k: int| 0 <= k < values.len() implies #[trigger] pairs(flag, values)[2 * k]
            == flag && pairs(flag, values)[2 * k + 1] == values[k] by {
            if k < front.len() {
                assert(pairs(flag, front)[2 * k] == flag);
                assert(front[k] == values[k]);
            }
        }
    }
}

/// The decimal text of a number is no flag.
pub proof fn lemma_decimal_plain(n: nat)
    ensures
        !is_flag(decimal(n)),
    decreases n,
{
    if n >= 10 {
        lemma_decimal_plain(n / 10);
        assert(decimal(n)[0] == decimal(n / 10)[0]);
    }
}

/// The texts of port numbers are plain.
pub proof fn lemma_port_texts_plain(ports: Seq<u16>)
    ensures
        all_plain(port_texts(ports)),
{
    assert forall|i: int| 0 <= i < port_texts(ports).len() implies !is_flag(
        #[trigger] port_texts(ports)[i],
    ) by {
        lemma_decimal_plain(ports[i] as nat);
    }
}

/// Whether every tag of an optional tag list, where present, is no flag.
pub open spec fn plain_tags(tags: Option<Seq<Seq<char>>>) -> bool {
    tags matches Some(t) ==> all_plain(t)
}

/// Logging in passes each of its two switches exactly where it is on.
pub proof fn lemma_login_flags(provider: Seq<char>, use_device_code: bool, w: Seq<char>)
    requires
        is_flag(w),
    ensures
        occurrences(login_args(provider, use_device_code), w) == count(
            provider == "github"@ && w == "-g"@,
        ) + count(use_device_code && w == "-d"@),
{
    reveal_strlit("user");
    reveal_strlit("login");
    let head = seq!["user"@, "login"@];
    let g = switch(provider == "github"@, "-g"@);
    let d = switch(use_device_code, "-d"@);
    assert(head =~= seq!["user"@] + seq!["login"@]);
    lemma_occurrences_add(seq!["user"@], seq!["login"@], w);
    lemma_occurrences_one("user"@, w);
    lemma_occurrences_one("login"@, w);
    lemma_occurrences_add(head, g, w);
    lemma_occurrences_add(head + g, d, w);
    lemma_switch(provider == "github"@, "-g"@, w);
    lemma_switch(use_device_code, "-d"@, w);
}

/// Creating a tunnel passes a flag exactly for each field that is
/// present: `-a` where anonymous access is allowed, `-d` with a
/// description, `--tags` with a tag list that has an element,
/// `--expiration` with an expiration; and no other flag.
pub proof fn lemma_create_tunnel_flags(req: &CreateTunnelRequest, w: Seq<char>)
    requires
        is_flag(w),
        plain(req.tunnel_id.deep_view()),
        plain(req.description.deep_view()),
        plain_tags(req.tags.deep_view()),
        plain(req.expiration.deep_view()),
    ensures
        occurrences(create_tunnel_args(req), w) == count(is_on(req.allow_anonymous) && w == "-a"@)
            + count(req.description is Some && w == "-d"@) + count(
            req.tags is Some && req.tags->0.len() > 0 && w == "--tags"@,
        ) + count(req.expiration is Some && w == "--expiration"@),
{
    reveal_strlit("create");
    let head = seq!["create"@];
    let id = positional(req.tunnel_id.deep_view());
    let a = switch(is_on(req.allow_anonymous), "-a"@);
    let d = option("-d"@, req.description.deep_view());
    let t = match req.tags.deep_view() {
        Some(tags) => if tags.len() > 0 {
            list("--tags"@, tags)
        } else {
            Seq::empty()
        },
        None => Seq::empty(),
    };
    let e = option("--expiration"@, req.expiration.deep_view());
    lemma_occurrences_one("create"@, w);
    lemma_positional(req.tunnel_id.deep_view(), w);
    lemma_switch(is_on(req.allow_anonymous), "-a"@, w);
    lemma_option("-d"@, req.description.deep_view(), w);
    if req.tags is Some && req.tags->0.len() > 0 {
        lemma_list("--tags"@, req.tags.deep_view()->0, w);
    }
    lemma_option("--expiration"@, req.expiration.deep_view(), w);
    lemma_occurrences_add(head, id, w);
    lemma_occurrences_add(head + id, a, w);
    lemma_occurrences_add(head + id + a, d, w);
    lemma_occurrences_add(head + id + a + d, t, w);
    lemma_occurrences_add(head + id + a + d + t, e, w);
}

/// Listing passes one tag flag exactly where the filter has tags:
/// `--all-tags` where all of them are asked for, `--tags` otherwise.
pub proof fn lemma_list_tunnels_flags(req: &Option<ListTunnelsRequest>, w: Seq<char>)
    requires
        is_flag(w),
        req matches Some(r) ==> plain_tags(r.tags.deep_view()),
    ensures
        occurrences(list_tunnels_args(req), w) == count(
            req is Some && req->0.tags is Some && w == if is_on(req->0.all_tags) {
                "--all-tags"@
            } else {
                "--tags"@
            },
        ),
{
    reveal_strlit("list");
    let head = seq!["list"@];
    lemma_occurrences_one("list"@, w);
    match req {
        Some(r) => {
            match r.tags.deep_view() {
                Some(tags) => {
                    let flag = if is_on(r.all_tags) {
                        "--all-tags"@
                    } else {
                        "--tags"@
                    };
                    lemma_list(flag, tags, w);
                    lemma_occurrences_add(head, list(flag, tags), w);
                },
                None => {
                    lemma_occurrences_add(head, Seq::empty(), w);
                },
            }
        },
        None => {
            lemma_occurrences_add(head, Seq::empty(), w);
        },
    }
}

/// Updating a tunnel passes a flag exactly for each field that is
/// present, and of `--remove-tags` and `--tags` at most one: removing the
/// tags takes precedence over a tag list.
pub proof fn lemma_update_tunnel_flags(req: &UpdateTunnelRequest, w: Seq<char>)
    requires
        is_flag(w),
        !is_flag(req.tunnel_id@),
        plain(req.description.deep_view()),
        plain_tags(req.tags.deep_view()),
        plain(req.expiration.deep_view()),
    ensures
        occurrences(update_tunnel_args(req), w) == count(req.description is Some && w == "-d"@)
            + count(is_on(req.remove_tags) && w == "--remove-tags"@) + count(
            !is_on(req.remove_tags) && req.tags is Some && w == "--tags"@,
        ) + count(req.expiration is Some && w == "--expiration"@),
{
    reveal_strlit("update");
    let head = seq!["update"@, req.tunnel_id@];
    let d = option("-d"@, req.description.deep_view());
    let t = if is_on(req.remove_tags) {
        seq!["--remove-tags"@]
    } else {
        match req.tags.deep_view() {
            Some(tags) => list("--tags"@, tags),
            None => Seq::empty(),
        }
    };
    let e = option("--expiration"@, req.expiration.deep_view());
    assert(head =~= seq!["update"@] + seq![req.tunnel_id@]);
    lemma_occurrences_add(seq!["update"@], seq![req.tunnel_id@], w);
    lemma_occurrences_one("update"@, w);
    lemma_occurrences_one(req.tunnel_id@, w);
    lemma_option("-d"@, req.description.deep_view(), w);
    if is_on(req.remove_tags) {
        lemma_occurrences_one("--remove-tags"@, w);
    } else if req.tags is Some {
        lemma_list("--tags"@, req.tags.deep_view()->0, w);
    }
    lemma_option("--expiration"@, req.expiration.deep_view(), w);
    lemma_occurrences_add(head, d, w);
    lemma_occurrences_add(head + d, t, w);
    lemma_occurrences_add(head + d + t, e, w);
}

/// The words `port <verb> <tunnel> <flag> <number>` hold the flag once
/// and no other.
pub proof fn lemma_port_target_flags(
    verb: Seq<char>,
    tunnel_id: Seq<char>,
    flag: Seq<char>,
    port: u16,
    w: Seq<char>,
)
    requires
        is_flag(w),
        !is_flag(verb),
        !is_flag(tunnel_id),
    ensures
        occurrences(seq!["port"@, verb, tunnel_id, flag, decimal(port as nat)], w) == count(
            w == flag,
        ),
{
    reveal_strlit("port");
    lemma_decimal_plain(port as nat);
    let number = decimal(port as nat);
    let all = seq!["port"@, verb, tunnel_id, flag, number];
    assert(all =~= seq!["port"@] + seq![verb] + seq![tunnel_id] + seq![flag] + seq![number]);
    lemma_occurrences_one("port"@, w);
    lemma_occurrences_one(verb, w);
    lemma_occurrences_one(tunnel_id, w);
    lemma_occurrences_one(flag, w);
    lemma_occurrences_one(number, w);
    lemma_occurrences_add(seq!["port"@], seq![verb], w);
    lemma_occurrences_add(seq!["port"@] + seq![verb], seq![tunnel_id], w);
    lemma_occurrences_add(seq!["port"@] + seq![verb] + seq![tunnel_id], seq![flag], w);
    lemma_occurrences_add(
        seq!["port"@] + seq![verb] + seq![tunnel_id] + seq![flag],
        seq![number],
        w,
    );
}

/// Creating a port passes `-p` once, `--protocol` exactly with a
/// protocol and `--description` exactly with a description.
pub proof fn lemma_create_port_flags(req: &CreatePortRequest, w: Seq<char>)
    requires
        is_flag(w),
        !is_flag(req.tunnel_id@),
        plain(req.description.deep_view()),
    ensures
        occurrences(create_port_args(req), w) == count(w == "-p"@) + count(
            req.protocol is Some && w == "--protocol"@,
        ) + count(req.description is Some && w == "--description"@),
{
    reveal_strlit("create");
    reveal_strlit("http");
    reveal_strlit("https");
    reveal_strlit("auto");
    let head = seq!["port"@, "create"@, req.tunnel_id@, "-p"@, decimal(req.port_number as nat)];
    let protocol = match req.protocol {
        Some(p) => Some(protocol_name(p)),
        None => None,
    };
    let p = option("--protocol"@, protocol);
    let d = option("--description"@, req.description.deep_view());
    lemma_port_target_flags("create"@, req.tunnel_id@, "-p"@, req.port_number, w);
    lemma_option("--protocol"@, protocol, w);
    lemma_option("--description"@, req.description.deep_view(), w);
    lemma_occurrences_add(head, p, w);
    lemma_occurrences_add(head + p, d, w);
}

/// Updating a port's description passes `-p` once and `--description`
/// exactly with a description.
pub proof fn lemma_update_port_description_flags(req: &UpdatePortRequest, w: Seq<char>)
    requires
        is_flag(w),
        !is_flag(req.tunnel_id@),
        plain(req.description.deep_view()),
    ensures
        occurrences(update_port_description_args(req), w) == count(w == "-p"@) + count(
            req.description is Some && w == "--description"@,
        ),
{
    reveal_strlit("update");
    let head = seq!["port"@, "update"@, req.tunnel_id@, "-p"@, decimal(req.port_number as nat)];
    let d = option("--description"@, req.description.deep_view());
    lemma_port_target_flags("update"@, req.tunnel_id@, "-p"@, req.port_number, w);
    lemma_option("--description"@, req.description.deep_view(), w);
    lemma_occurrences_add(head, d, w);
}

/// Granting access passes the flag of the entry's kind, `-p` exactly once
/// per port of the entry, and `--expiration` exactly with an expiration.
pub proof fn lemma_create_access_flags(req: &CreateAccessRequest, w: Seq<char>)
    requires
        is_flag(w),
        !is_flag(req.tunnel_id@),
        plain(req.entry.organization_id.deep_view()),
        plain(req.entry.expiration.deep_view()),
    ensures
        occurrences(create_access_args(req), w) == count(
            req.entry.entry_type@ == "anonymous"@ && w == "--anonymous"@,
        ) + count(
            req.entry.entry_type@ == "organization"@ && req.entry.entry_type@ != "anonymous"@
                && req.entry.organization_id is Some && w == "--org"@,
        ) + (if req.entry.ports is Some && w == "-p"@ {
            req.entry.ports->0.len() as nat
        } else {
            0
        }) + count(req.entry.expiration is Some && w == "--expiration"@),
{
    reveal_strlit("access");
    reveal_strlit("create");
    let head = seq!["access"@, "create"@, req.tunnel_id@];
    let kind = if req.entry.entry_type@ == "anonymous"@ {
        seq!["--anonymous"@]
    } else if req.entry.entry_type@ == "organization"@ {
        option("--org"@, req.entry.organization_id.deep_view())
    } else {
        Seq::empty()
    };
    let p = match req.entry.ports {
        Some(ports) => pairs("-p"@, port_texts(ports@)),
        None => Seq::empty(),
    };
    let e = option("--expiration"@, req.entry.expiration.deep_view());
    assert(head =~= seq!["access"@] + seq!["create"@] + seq![req.tunnel_id@]);
    lemma_occurrences_one("access"@, w);
    lemma_occurrences_one("create"@, w);
    lemma_occurrences_one(req.tunnel_id@, w);
    lemma_occurrences_add(seq!["access"@], seq!["create"@], w);
    lemma_occurrences_add(seq!["access"@] + seq!["create"@], seq![req.tunnel_id@], w);
    if req.entry.entry_type@ == "anonymous"@ {
        lemma_occurrences_one("--anonymous"@, w);
    } else if req.entry.entry_type@ == "organization"@ {
        lemma_option("--org"@, req.entry.organization_id.deep_view(), w);
    }
    if req.entry.ports is Some {
        lemma_port_texts_plain(req.entry.ports->0@);
        lemma_pairs("-p"@, port_texts(req.entry.ports->0@), w);
    }
    lemma_option("--expiration"@, req.entry.expiration.deep_view(), w);
    lemma_occurrences_add(head, kind, w);
    lemma_occurrences_add(head + kind, p, w);
    lemma_occurrences_add(head + kind + p, e, w);
}

/// Listing the clusters passes `-j` once and `--ping` exactly where a
/// ping is asked for.
pub proof fn lemma_list_clusters_flags(ping: bool, w: Seq<char>)
    requires
        is_flag(w),
    ensures
        occurrences(list_clusters_args(ping), w) == count(w == "-j"@) + count(
            ping && w == "--ping"@,
        ),
{
    reveal_strlit("clusters");
    let head = seq!["clusters"@, "-j"@];
    assert(head =~= seq!["clusters"@] + seq!["-j"@]);
    lemma_occurrences_one("clusters"@, w);
    lemma_occurrences_one("-j"@, w);
    lemma_occurrences_add(seq!["clusters"@], seq!["-j"@], w);
    lemma_switch(ping, "--ping"@, w);
    lemma_occurrences_add(head, switch(ping, "--ping"@), w);
}

/// Hosting passes `--allow-anonymous` exactly where anonymous access is
/// allowed and `--expiration` exactly with an expiration. It passes no
/// other flag, whatever ports and protocol the request names.
pub proof fn lemma_host_tunnel_flags(req: &HostTunnelRequest, w: Seq<char>)
    requires
        is_flag(w),
        plain(req.tunnel_id.deep_view()),
        plain(req.expiration.deep_view()),
    ensures
        occurrences(host_tunnel_args(req), w) == count(
            is_on(req.allow_anonymous) && w == "--allow-anonymous"@,
        ) + count(req.expiration is Some && w == "--expiration"@),
{
    reveal_strlit("host");
    let head = seq!["host"@];
    let id = positional(req.tunnel_id.deep_view());
    let a = switch(is_on(req.allow_anonymous), "--allow-anonymous"@);
    let e = option("--expiration"@, req.expiration.deep_view());
    lemma_occurrences_one("host"@, w);
    lemma_positional(req.tunnel_id.deep_view(), w);
    lemma_switch(is_on(req.allow_anonymous), "--allow-anonymous"@, w);
    lemma_option("--expiration"@, req.expiration.deep_view(), w);
    lemma_occurrences_add(head, id, w);
    lemma_occurrences_add(head + id, a, w);
    lemma_occurrences_add(head + id + a, e, w);
}

/// Whether `section` stands among `args` at offset `at`, whole and in
/// order.
pub open spec fn stands_at(args: Seq<Seq<char>>, section: Seq<Seq<char>>, at: int) -> bool {
    0 <= at && at + section.len() <= args.len() && args.subrange(at, at + section.len())
        == section
}

/// Whether `section` stands somewhere among `args`, whole and in order.
pub open spec fn stands_in(args: Seq<Seq<char>>, section: Seq<Seq<char>>) -> bool {
    exists|at: int| stands_at(args, section, at)
}

/// What stands between two runs of arguments stands among the whole.
pub proof fn lemma_stands_between(
    before: Seq<Seq<char>>,
    section: Seq<Seq<char>>,
    after: Seq<Seq<char>>,
)
    ensures
        stands_in(before + section + after, section),
{
    let all = before + section + after;
    assert(all.subrange(before.len() as int, before.len() as int + section.len()) =~= section);
    assert(stands_at(all, section, before.len() as int));
}

/// The tags of a new tunnel are passed as given: `--tags` and then every
/// tag, in the caller's order.
pub proof fn lemma_create_tunnel_tags_in_order(req: &CreateTunnelRequest)
    requires
        req.tags is Some,
        req.tags->0.len() > 0,
    ensures
        stands_in(create_tunnel_args(req), list("--tags"@, req.tags.deep_view()->0)),
{
    let before = seq!["create"@] + positional(req.tunnel_id.deep_view()) + switch(
        is_on(req.allow_anonymous),
        "-a"@,
    ) + option("-d"@, req.description.deep_view());
    lemma_stands_between(
        before,
        list("--tags"@, req.tags.deep_view()->0),
        option("--expiration"@, req.expiration.deep_view()),
    );
}

/// The tags of an update are passed as given, unless the tags are
/// removed.
pub proof fn lemma_update_tunnel_tags_in_order(req: &UpdateTunnelRequest)
    requires
        req.tags is Some,
        !is_on(req.remove_tags),
    ensures
        stands_in(update_tunnel_args(req), list("--tags"@, req.tags.deep_view()->0)),
{
    let before = seq!["update"@, req.tunnel_id@] + option("-d"@, req.description.deep_view());
    lemma_stands_between(
        before,
        list("--tags"@, req.tags.deep_view()->0),
        option("--expiration"@, req.expiration.deep_view()),
    );
}

/// The tags of a listing filter are passed as given.
pub proof fn lemma_list_tunnels_tags_in_order(req: &Option<ListTunnelsRequest>)
    requires
        req is Some,
        req->0.tags is Some,
    ensures
        stands_in(
            list_tunnels_args(req),
            list(
                if is_on(req->0.all_tags) {
                    "--all-tags"@
                } else {
                    "--tags"@
                },
                req->0.tags.deep_view()->0,
            ),
        ),
{
    let flag = if is_on(req->0.all_tags) {
        "--all-tags"@
    } else {
        "--tags"@
    };
    let section = list(flag, req->0.tags.deep_view()->0);
    lemma_stands_between(seq!["list"@], section, Seq::empty());
    assert(seq!["list"@] + section + Seq::<Seq<char>>::empty() =~= seq!["list"@] + section);
}

/// The ports of an access entry are passed as given: one `-p` and port
/// number per port, in the caller's order.
pub proof fn lemma_create_access_ports_in_order(req: &CreateAccessRequest)
    requires
        req.entry.ports is Some,
    ensures
        stands_in(create_access_args(req), pairs("-p"@, port_texts(req.entry.ports->0@))),
{
    let before = seq!["access"@, "create"@, req.tunnel_id@] + (if req.entry.entry_type@
        == "anonymous"@ {
        seq!["--anonymous"@]
    } else if req.entry.entry_type@ == "organization"@ {
        option("--org"@, req.entry.organization_id.deep_view())
    } else {
        Seq::empty()
    });
    lemma_stands_between(
        before,
        pairs("-p"@, port_texts(req.entry.ports->0@)),
        option("--expiration"@, req.entry.expiration.deep_view()),
    );
}

} // verus!
