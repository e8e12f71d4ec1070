//! The operations that take more than one run of the tool: the port update
//! that may have to recreate the port, the full listing, and the enrichment
//! of a listing with the ports of its tunnels.

use crate::args::{
    build_create_port_args, build_delete_port_args, build_list_tunnels_args,
    build_show_port_args, build_show_tunnel_args, build_update_port_description_args,
    create_port_args, delete_port_args, list_tunnels_args, show_port_args, show_tunnel_args,
    update_port_description_args,
};
use crate::client::{check, confirmed, echo, ends, outcome, DevTunnelClient};
use crate::parser::{
    is_listing, parse_port_show, parse_tunnel_list, parse_tunnel_show, port_shown, tunnel_list,
    tunnel_ports,
};
use crate::process::{Completion, ErrorKind, Invocation, Step};
use crate::types::{
    CreatePortRequest, ListTunnelsRequest, TunnelListItem, TunnelListItemView, UpdatePortRequest,
};
use vstd::prelude::*;

verus! {

/// The port that a run of `port show` found, if it found one.
pub open spec fn probed_port(probe: Completion) -> Option<crate::types::PortView> {
    match outcome(probe, "Failed to show port"@, "Failed to show port: "@) {
        Ok(text) => port_shown(text),
        Err(_) => None,
    }
}

/// Whether an update has to recreate the port: it asks for a protocol, the
/// probe found the port, and the port has another protocol. The tool
/// cannot change the protocol of a port that exists.
pub open spec fn must_recreate(req: &UpdatePortRequest, probe: Completion) -> bool {
    req.protocol is Some && probed_port(probe) is Some && probed_port(probe)->0.protocol
        != req.protocol->0
}

/// The request that creates the port of `req` anew.
pub open spec fn recreation(req: &UpdatePortRequest) -> CreatePortRequest {
    CreatePortRequest {
        tunnel_id: req.tunnel_id,
        port_number: req.port_number,
        protocol: req.protocol,
        description: req.description,
    }
}

/// The end of `delete_port` after the run `how`.
pub open spec fn deletion(how: Completion) -> Result<Seq<char>, (ErrorKind, Seq<char>)> {
    confirmed(
        outcome(how, "Failed to delete port"@, "Failed to delete port: "@),
        "Port deleted successfully"@,
    )
}

/// The end of `update_port_description` after the run `how`.
pub open spec fn description_update(how: Completion) -> Result<Seq<char>, (ErrorKind, Seq<char>)> {
    outcome(how, "Failed to update port"@, "Failed to update port: "@)
}

/// What `update_port` does next, given the runs completed for it so far.
///
/// An update that names no protocol runs the description update and ends
/// with its outcome. One that names a protocol first probes the port.
/// Where the port must be recreated it is deleted and then created with
/// the new protocol, the update ending early if the deletion fails; there
/// is no atomicity, a port whose creation fails stays deleted. Otherwise
/// the description update runs as before.
pub open spec fn port_update_step(
    step: Step<String>,
    program: Seq<char>,
    req: &UpdatePortRequest,
    completed: Seq<Completion>,
) -> bool {
    let describe = update_port_description_args(req);
    if req.protocol is None {
        if completed.len() == 0 {
            step.runs(program, describe)
        } else {
            ends(step, description_update(completed[0]))
        }
    } else if completed.len() == 0 {
        step.runs(program, show_port_args(req.tunnel_id@, req.port_number))
    } else if !must_recreate(req, completed[0]) {
        if completed.len() == 1 {
            step.runs(program, describe)
        } else {
            ends(step, description_update(completed[1]))
        }
    } else if completed.len() == 1 {
        step.runs(program, delete_port_args(req.tunnel_id@, req.port_number))
    } else if deletion(completed[1]) is Err {
        ends(step, deletion(completed[1]))
    } else if completed.len() == 2 {
        step.runs(program, create_port_args(&recreation(req)))
    } else {
        ends(step, outcome(completed[2], "Failed to create port"@, "Failed to create port: "@))
    }
}

/// A copy of an optional text.
pub fn copy_text(text: &Option<String>) -> (copy: Option<String>)
    ensures
        copy.deep_view() == text.deep_view(),
{
    match text {
        Some(t) => Some(t.clone()),
        None => None,
    }
}

/// One probe of the enrichment that came back: the tunnel that was asked
/// about and how the run of `show` ended.
#[derive(Debug, Clone, PartialEq, Eq)]
pub struct Probe {
    pub tunnel_id: String,
    pub completion: Completion,
}

/// The ports that a run of `show` lists, if the run succeeded.
pub open spec fn shown_ports(how: Completion) -> Option<Seq<u16>> {
    match outcome(how, "Failed to show tunnel"@, "Failed to show tunnel: "@) {
        Ok(text) => Some(tunnel_ports(text)),
        Err(_) => None,
    }
}

/// The ports that the probes learned for the tunnel `id`: those of the
/// first probe for it that succeeded.
pub open spec fn learned(probes: Seq<Probe>, id: Seq<char>) -> Option<Seq<u16>>
    decreases probes.len(),
{
    if probes.len() == 0 {
        None
    } else if probes[0].tunnel_id@ == id && shown_ports(probes[0].completion) is Some {
        shown_ports(probes[0].completion)
    } else {
        learned(probes.skip(1), id)
    }
}

/// `tunnel` with the ports given, where there are any to give.
pub open spec fn with_ports(tunnel: TunnelListItemView, ports: Option<Seq<u16>>) -> TunnelListItemView {
    match ports {
        Some(p) => TunnelListItemView { ports: p, ..tunnel },
        None => tunnel,
    }
}

/// The listing `tunnels` with the ports that the probes learned merged in:
/// the same tunnels in the same order, each with the ports learned for it
/// and otherwise as it was.
pub open spec fn merged(tunnels: Seq<TunnelListItemView>, probes: Seq<Probe>) -> Seq<
    TunnelListItemView,
> {
    Seq::new(tunnels.len(), |i: int| with_ports(tunnels[i], learned(probes, tunnels[i].tunnel_id)))
}

/// The listing `tunnels` with the ports that one `show` per tunnel listed,
/// `shows[i]` being the run for `tunnels[i]`: a tunnel whose run failed or
/// is missing stays as it was.
pub open spec fn detailed(tunnels: Seq<TunnelListItemView>, shows: Seq<Completion>) -> Seq<
    TunnelListItemView,
> {
    Seq::new(
        tunnels.len(),
        |i: int|
            with_ports(
                tunnels[i],
                if i < shows.len() {
                    shown_ports(shows[i])
                } else {
                    None
                },
            ),
    )
}

/// What the full listing does next, given the listing read off its first
/// run and the runs of `show` completed since: it shows the next tunnel
/// while there is one, and then ends with the listing in detail.
pub open spec fn listing_step(
    step: Step<Vec<TunnelListItem>>,
    program: Seq<char>,
    listing: Seq<TunnelListItemView>,
    shows: Seq<Completion>,
) -> bool {
    if shows.len() < listing.len() {
        step.runs(program, show_tunnel_args(Some(listing[shows.len() as int].tunnel_id)))
    } else {
        step matches Step::Done(Ok(tunnels)) && tunnels.deep_view() == detailed(listing, shows)
    }
}

/// Gives the tunnel at `i` the ports `ports`, where there are any to give.
fn give_ports(tunnels: &mut Vec<TunnelListItem>, i: usize, ports: Option<Vec<u16>>)
    requires
        i < old(tunnels).len(),
    ensures
        final(tunnels).len() == old(tunnels).len(),
        final(tunnels)[i as int].deep_view() == with_ports(
            old(tunnels)[i as int].deep_view(),
            ports.deep_view(),
        ),
        forall|k: int|
            0 <= k < old(tunnels).len() && k != i ==> final(tunnels)[k] == old(tunnels)[k],
{
    match ports {
        Some(p) => {
            assert(p.deep_view() =~= p@);
            tunnels[i].ports = p;
        },
        None => {},
    }
}

/// The ports that a run of `show` lists, if the run succeeded.
fn ports_shown(how: &Completion) -> (ports: Option<Vec<u16>>)
    ensures
        ports.deep_view() == shown_ports(*how),
{
    match check(how, "Failed to show tunnel", "Failed to show tunnel: ") {
        Ok(text) => Some(parse_tunnel_show(text.as_str())),
        Err(_) => None,
    }
}

/// The ports that the probes learned for the tunnel `id`.
fn ports_learned(probes: &Vec<Probe>, id: &str) -> (ports: Option<Vec<u16>>)
    ensures
        ports.deep_view() == learned(probes@, id@),
{
    let mut j: usize = 0;
    assert(probes@.skip(0) =~= probes@);
    while j < probes.len()
        invariant
            j <= probes.len(),
            learned(probes@, id@) == learned(probes@.skip(j as int), id@),
        decreases probes.len() - j,
    {
        assert(probes@.skip(j as int)[0] == probes@[j as int]);
        assert(probes@.skip(j as int).skip(1) =~= probes@.skip(j as int + 1));
        if crate::text::str_is(probes[j].tunnel_id.as_str(), id) {
            match ports_shown(&probes[j].completion) {
                Some(ports) => {
                    return Some(ports);
                },
                None => {},
            }
        }
        j += 1;
    }
    None
}

impl DevTunnelClient {
    /// Updates a port. See `port_update_step` for the sequence of runs.
    pub fn update_port(&self, req: &UpdatePortRequest, completed: &Vec<Completion>) -> (step: Step<
        String,
    >)
        ensures
            port_update_step(step, self.program(), req, completed@),
    {
        let done = completed.len();
        match req.protocol {
            None => {
                return self.update_port_description(req, completed);
            },
            Some(wanted) => {
                if done == 0 {
                    return self.run(build_show_port_args(req.tunnel_id.as_str(), req.port_number));
                }
                let recreate = match check(
                    &completed[0],
                    "Failed to show port",
                    "Failed to show port: ",
                ) {
                    Ok(text) => match parse_port_show(text.as_str()) {
                        Some(port) => port.protocol != wanted,
                        None => false,
                    },
                    Err(_) => false,
                };
                assert(recreate == must_recreate(req, completed[0]));
                if !recreate {
                    if done == 1 {
                        return self.run(build_update_port_description_args(req));
                    }
                    return echo(&completed[1], "Failed to update port", "Failed to update port: ");
                }
                if done == 1 {
                    return self.run(
                        build_delete_port_args(req.tunnel_id.as_str(), req.port_number),
                    );
                }
                match check(&completed[1], "Failed to delete port", "Failed to delete port: ") {
                    Err(e) => {
                        return Step::Done(Err(e));
                    },
                    Ok(_) => {},
                }
                let create = CreatePortRequest {
                    tunnel_id: req.tunnel_id.clone(),
                    port_number: req.port_number,
                    protocol: Some(wanted),
                    description: copy_text(&req.description),
                };
                assert(create_port_args(&create) =~= create_port_args(&recreation(req)));
                if done == 2 {
                    self.run(build_create_port_args(&create))
                } else {
                    echo(&completed[2], "Failed to create port", "Failed to create port: ")
                }
            },
        }
    }

    /// Lists the tunnels with their ports, asking for each tunnel in turn.
    /// The first run lists the tunnels; one run of `show` per tunnel
    /// follows, in the order of the listing, and a tunnel whose `show`
    /// fails keeps its empty port list.
    pub fn list_tunnels(&self, req: &Option<ListTunnelsRequest>, completed: &Vec<Completion>) -> (step:
        Step<Vec<TunnelListItem>>)
        ensures
            completed.len() == 0 ==> step.runs(self.program(), list_tunnels_args(req)),
            completed.len() > 0 ==> match outcome(
                completed[0],
                "Failed to list tunnels"@,
                "Failed to list tunnels: "@,
            ) {
                Ok(text) => exists|listing: Seq<TunnelListItemView>|
                    is_listing(listing, text) && #[trigger] listing_step(
                        step,
                        self.program(),
                        listing,
                        completed@.skip(1),
                    ),
                Err(e) => step.fails(e.0, e.1),
            },
    {
        if completed.len() == 0 {
            return self.run(build_list_tunnels_args(req));
        }
        let mut tunnels = match check(
            &completed[0],
            "Failed to list tunnels",
            "Failed to list tunnels: ",
        ) {
            Ok(text) => parse_tunnel_list(text.as_str()),
            Err(e) => {
                return Step::Done(Err(e));
            },
        };
        let ghost listing = tunnels.deep_view();
        let ghost shows = completed@.skip(1);
        let shown = completed.len() - 1;
        if shown < tunnels.len() {
            let id = Some(tunnels[shown].tunnel_id.clone());
            let step = self.run(build_show_tunnel_args(&id));
            assert(listing_step(step, self.program(), listing, shows));
            return step;
        }
        let mut i: usize = 0;
        while i < tunnels.len()
            invariant
                i <= tunnels.len(),
                tunnels.len() == listing.len(),
                tunnels.len() <= completed.len() - 1,
                shows == completed@.skip(1),
                forall|k: int| 0 <= k < i ==> #[trigger] tunnels[k].deep_view() == detailed(listing, shows)[k],
                forall|k: int| i <= k < tunnels.len() ==> #[trigger] tunnels[k].deep_view() == listing[k],
            decreases tunnels.len() - i,
        {
            assert(shows[i as int] == completed[i as int + 1]);
            let ports = ports_shown(&completed[i + 1]);
            give_ports(&mut tunnels, i, ports);
            i += 1;
        }
        assert(tunnels.deep_view() =~= detailed(listing, shows));
        let step = Step::Done(Ok(tunnels));
        assert(listing_step(step, self.program(), listing, shows));
        step
    }

    /// The probes of an enrichment: one run of `show` per tunnel, in the
    /// order given. They do not depend on each other and may run at the
    /// same time.
    pub fn enrichment_probes(&self, tunnel_ids: &Vec<String>) -> (probes: Vec<Invocation>)
        ensures
            probes.len() == tunnel_ids.len(),
            forall|i: int|
                0 <= i < probes.len() ==> {
                    &&& (#[trigger] probes[i]).program@ == self.program()
                    &&& probes[i].args.deep_view() == show_tunnel_args(Some(tunnel_ids[i]@))
                },
    {
        let mut probes: Vec<Invocation> = Vec::new();
        let mut i: usize = 0;
        while i < tunnel_ids.len()
            invariant
                i <= tunnel_ids.len(),
                probes.len() == i,
                forall|k: int|
                    0 <= k < i ==> {
                        &&& (#[trigger] probes[k]).program@ == self.program()
                        &&& probes[k].args.deep_view() == show_tunnel_args(Some(tunnel_ids[k]@))
                    },
            decreases tunnel_ids.len() - i,
        {
            let id = Some(tunnel_ids[i].clone());
            probes.push(
                Invocation {
                    program: self.binary_path().clone(),
                    args: build_show_tunnel_args(&id),
                },
            );
            i += 1;
        }
        probes
    }

    /// Merges what the probes of an enrichment learned into a fresh
    /// listing. `probes` are the probes that came back, in any order; a
    /// probe that failed teaches nothing and fails nothing. The listing is
    /// fetched once, after the probes, and the outcome has its tunnels in
    /// its order.
    pub fn enrich_tunnel_details(&self, probes: &Vec<Probe>, completed: &Vec<Completion>) -> (step:
        Step<Vec<TunnelListItem>>)
        ensures
            completed.len() == 0 ==> step.runs(self.program(), list_tunnels_args(&None)),
            completed.len() > 0 ==> match outcome(
                completed[0],
                "Failed to list tunnels"@,
                "Failed to list tunnels: "@,
            ) {
                Ok(text) => step matches Step::Done(Ok(tunnels)) && exists|
                    listing: Seq<TunnelListItemView>,
                |
                    is_listing(listing, text) && tunnels.deep_view() == #[trigger] merged(
                        listing,
                        probes@,
                    ),
                Err(e) => step.fails(e.0, e.1),
            },
    {
        if completed.len() == 0 {
            return self.run(build_list_tunnels_args(&None));
        }
        let mut tunnels = match check(
            &completed[0],
            "Failed to list tunnels",
            "Failed to list tunnels: ",
        ) {
            Ok(text) => parse_tunnel_list(text.as_str()),
            Err(e) => {
                return Step::Done(Err(e));
            },
        };
        let ghost listing = tunnels.deep_view();
        let mut i: usize = 0;
        while i < tunnels.len()
            invariant
                i <= tunnels.len(),
                tunnels.len() == listing.len(),
                forall|k: int| 0 <= k < i ==> #[trigger] tunnels[k].deep_view() == merged(listing, probes@)[k],
                forall|k: int| i <= k < tunnels.len() ==> #[trigger] tunnels[k].deep_view() == listing[k],
            decreases tunnels.len() - i,
        {
            let ports = ports_learned(probes, tunnels[i].tunnel_id.as_str());
            give_ports(&mut tunnels, i, ports);
            i += 1;
        }
        assert(tunnels.deep_view() =~= merged(listing, probes@));
        Step::Done(Ok(tunnels))
    }
}

/// Whether one of `probes` is a probe of the tunnel `id` that succeeded.
pub open spec fn has_answer(probes: Seq<Probe>, id: Seq<char>) -> bool {
    exists|k: int|
        0 <= k < probes.len() && (#[trigger] probes[k]).tunnel_id@ == id && shown_ports(
            probes[k].completion,
        ) is Some
}

/// Something was learned about a tunnel exactly if one of its probes
/// succeeded.
pub proof fn lemma_learned_iff_answered(probes: Seq<Probe>, id: Seq<char>)
    ensures
        learned(probes, id) is Some <==> has_answer(probes, id),
    decreases probes.len(),
{
    if probes.len() > 0 {
        let rest = probes.skip(1);
        lemma_learned_iff_answered(rest, id);
        if has_answer(rest, id) {
            let k = choose|k: int|
                0 <= k < rest.len() && (#[trigger] rest[k]).tunnel_id@ == id && shown_ports(
                    rest[k].completion,
                ) is Some;
            assert(probes[k + 1] == rest[k]);
        }
        if has_answer(probes, id) {
            let k = choose|k: int|
                0 <= k < probes.len() && (#[trigger] probes[k]).tunnel_id@ == id && shown_ports(
                    probes[k].completion,
                ) is Some;
            if k > 0 {
                assert(rest[k - 1] == probes[k]);
            }
        }
    }
}

/// Enrichment loses no tunnel and makes up no ports. The merged listing
/// has every tunnel of the listing, in its order and under its
/// identifier, however many probes failed: a tunnel of which a probe
/// succeeded has the ports that the probe listed, and a tunnel of which
/// none did has an empty port list.
pub proof fn lemma_enrichment_keeps_every_tunnel(
    output: Seq<char>,
    now: Option<u64>,
    probes: Seq<Probe>,
)
    ensures
        merged(tunnel_list(output, now), probes).len() == tunnel_list(output, now).len(),
        forall|i: int|
            0 <= i < tunnel_list(output, now).len() ==> {
                let tunnel = tunnel_list(output, now)[i];
                let after = #[trigger] merged(tunnel_list(output, now), probes)[i];
                &&& after.tunnel_id == tunnel.tunnel_id
                &&& after.description == tunnel.description
                &&& after.expires_at == tunnel.expires_at
                &&& has_answer(probes, tunnel.tunnel_id) ==> Some(after.ports) == learned(
                    probes,
                    tunnel.tunnel_id,
                )
                &&& !has_answer(probes, tunnel.tunnel_id) ==> after.ports.len() == 0
            },
{
    let listing = tunnel_list(output, now);
    crate::parser::lemma_listing_has_no_ports(crate::parser::after_header(crate::text::lines(output)), now);
    assert forall|i: int| 0 <= i < listing.len() implies {
        let tunnel = listing[i];
        let after = #[trigger] merged(listing, probes)[i];
        &&& after.tunnel_id == tunnel.tunnel_id
        &&& after.description == tunnel.description
        &&& after.expires_at == tunnel.expires_at
        &&& has_answer(probes, tunnel.tunnel_id) ==> Some(after.ports) == learned(
            probes,
            tunnel.tunnel_id,
        )
        &&& !has_answer(probes, tunnel.tunnel_id) ==> after.ports.len() == 0
    } by {
        lemma_learned_iff_answered(probes, listing[i].tunnel_id);
        assert(listing[i].ports.len() == 0);
    }
}

/// An update is over after three runs at the latest, and a full listing
/// once every tunnel of the listing has been shown.
pub proof fn lemma_workflows_end(
    update: Step<String>,
    listing_end: Step<Vec<TunnelListItem>>,
    program: Seq<char>,
    req: &UpdatePortRequest,
    completed: Seq<Completion>,
    listing: Seq<TunnelListItemView>,
    shows: Seq<Completion>,
)
    requires
        port_update_step(update, program, req, completed),
        listing_step(listing_end, program, listing, shows),
    ensures
        completed.len() >= 3 ==> update is Done,
        shows.len() >= listing.len() ==> listing_end is Done,
        shows.len() < listing.len() ==> listing_end is Run,
{
}

/// An update that names no protocol is one run: the description update,
/// whose outcome is the outcome of the update.
pub proof fn lemma_description_update_is_one_run(
    first: Step<String>,
    second: Step<String>,
    program: Seq<char>,
    req: &UpdatePortRequest,
    ran: Completion,
)
    requires
        req.protocol is None,
        port_update_step(first, program, req, Seq::empty()),
        port_update_step(second, program, req, seq![ran]),
    ensures
        first.runs(program, update_port_description_args(req)),
        second is Done,
        ends(second, description_update(ran)),
{
}

/// An update that changes the protocol of a port deletes the port and
/// then creates it anew: after the probe has shown another protocol, the
/// next run is the deletion; after a deletion that succeeded, the next
/// run is the creation with the protocol asked for; and with the end of
/// that run the update ends. The two runs are different commands. A
/// deletion that fails ends the update, and nothing is created.
pub proof fn lemma_protocol_change_deletes_then_creates(
    second: Step<String>,
    third: Step<String>,
    last: Step<String>,
    program: Seq<char>,
    req: &UpdatePortRequest,
    probe: Completion,
    deleted: Completion,
    created: Completion,
)
    requires
        must_recreate(req, probe),
        port_update_step(second, program, req, seq![probe]),
        port_update_step(third, program, req, seq![probe, deleted]),
        port_update_step(last, program, req, seq![probe, deleted, created]),
    ensures
        second.runs(program, delete_port_args(req.tunnel_id@, req.port_number)),
        deletion(deleted) is Ok ==> third.runs(program, create_port_args(&recreation(req))),
        deletion(deleted) is Ok ==> last is Done,
        deletion(deleted) is Err ==> third is Done && third matches Step::Done(Err(_)),
        delete_port_args(req.tunnel_id@, req.port_number) != create_port_args(&recreation(req)),
        create_port_args(&recreation(req))[5] == "--protocol"@,
        create_port_args(&recreation(req))[6] == crate::args::protocol_name(req.protocol->0),
{
    reveal_strlit("delete");
    reveal_strlit("create");
    assert(delete_port_args(req.tunnel_id@, req.port_number)[1] == "delete"@);
    assert(create_port_args(&recreation(req))[1] == "create"@);
    assert("delete"@[0] != "create"@[0]);
}

} // verus!
