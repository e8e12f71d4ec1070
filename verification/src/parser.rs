//! Decoding of the external tool's human-formatted output.
//!
//! Every parser is total: text that does not have the expected shape gives
//! an empty or absent result.

use crate::clock::unix_now;
use crate::pattern::{captures, regex_captures};
use crate::text::{
    chars_of, contains, decimal, decimal_text, find_char, join, join_range, lines, parse_i64,
    parse_u16, same_text, slice_contains, slice_find_char, slice_parse_i64, slice_parse_u16,
    slice_starts_with, split_lines, split_whitespace, starts_with, str_is, string_of, tokens,
    trim, trim_slice,
};
use crate::types::{
    AuthProvider, Port, PortView, Protocol, TunnelListItem, TunnelListItemView, TunnelStatus,
    UserInfo, UserInfoView,
};
use vstd::prelude::*;
use vstd::string::StringExecFns;

verus! {

/// The pattern of the line that names the logged-in user.
pub const USER_PATTERN: &'static str = r"Logged in as (.+?) using (GitHub|Microsoft)\.";

/// The word by which the line that names the user names a provider.
pub open spec fn provider_word(provider: AuthProvider) -> Seq<char> {
    match provider {
        AuthProvider::GitHub => "GitHub"@,
        AuthProvider::Microsoft => "Microsoft"@,
    }
}

/// The line that names `name` as the user logged in with `provider`.
pub open spec fn user_line(name: Seq<char>, provider: AuthProvider) -> Seq<char> {
    "Logged in as "@ + name + " using "@ + provider_word(provider) + "."@
}

/// Whether `name` can be the name in a line of `output` that names the
/// user logged in with `provider`: it is not empty, it stays on one line,
/// and the line stands in the output.
pub open spec fn names_user(output: Seq<char>, name: Seq<char>, provider: AuthProvider) -> bool {
    name.len() > 0 && !name.contains('\n') && contains(output, user_line(name, provider))
}

/// The user that the capture groups of a `USER_PATTERN` match in `output`
/// describe: group 1 is the name, group 2 the provider. No match, no user;
/// and no user either where the groups do not hold what the line in the
/// output says, so that the user is one that the output names whatever the
/// matcher made of the pattern.
pub open spec fn user_from_groups(
    output: Seq<char>,
    groups: Option<Seq<Option<Seq<char>>>>,
) -> Option<UserInfoView> {
    match groups {
        Some(g) => if g.len() > 2 && g[1] is Some && g[2] is Some {
            let name = g[1]->0;
            let provider = if g[2]->0 == "GitHub"@ {
                AuthProvider::GitHub
            } else {
                AuthProvider::Microsoft
            };
            if g[2]->0 == provider_word(provider) && names_user(output, name, provider) {
                Some(
                    UserInfoView {
                        user_id: name,
                        user_name: Some(name),
                        email: None,
                        provider,
                        is_authenticated: true,
                    },
                )
            } else {
                None
            }
        } else {
            None
        },
        None => None,
    }
}

/// Whoever is read off an output is named in it: the output holds the
/// line `Logged in as <name> using <Provider>.` with the user's name and
/// provider, and the user is authenticated and known by that name.
pub proof fn lemma_user_is_named_in_output(
    output: Seq<char>,
    groups: Option<Seq<Option<Seq<char>>>>,
)
    ensures
        user_from_groups(output, groups) matches Some(user) ==> {
            &&& contains(output, user_line(user.user_id, user.provider))
            &&& user.user_id.len() > 0
            &&& user.user_name == Some(user.user_id)
            &&& user.is_authenticated
        },
        groups is None ==> user_from_groups(output, groups) is None,
{
}

/// Whether `name` can be the name in a line of `output` that names the
/// user logged in with `provider`.
fn check_user_line(output: &str, name: &str, provider: AuthProvider) -> (ok: bool)
    ensures
        ok == names_user(output@, name@, provider),
{
    let who = chars_of(name);
    if who.len() == 0 {
        return false;
    }
    let at = slice_find_char(who.as_slice(), '\n');
    proof {
        crate::text::lemma_find_char(who@, '\n');
    }
    if at < who.len() {
        return false;
    }
    let mut line = "Logged in as ".to_owned();
    line.append(name);
    line.append(" using ");
    match provider {
        AuthProvider::GitHub => line.append("GitHub"),
        AuthProvider::Microsoft => line.append("Microsoft"),
    }
    line.append(".");
    let text = chars_of(output);
    let wanted = chars_of(line.as_str());
    slice_contains(text.as_slice(), wanted.as_slice())
}

/// Builds the user record from the capture groups of a `USER_PATTERN`
/// match in `output`.
pub fn user_info_from_groups(output: &str, groups: Option<Vec<Option<String>>>) -> (info: Option<
    UserInfo,
>)
    ensures
        info.deep_view() == user_from_groups(output@, groups.deep_view()),
{
    match groups {
        Some(g) => {
            if g.len() > 2 {
                match (&g[1], &g[2]) {
                    (Some(name), Some(word)) => {
                        let provider = if str_is(word.as_str(), "GitHub") {
                            AuthProvider::GitHub
                        } else {
                            AuthProvider::Microsoft
                        };
                        let known = match provider {
                            AuthProvider::GitHub => true,
                            AuthProvider::Microsoft => str_is(word.as_str(), "Microsoft"),
                        };
                        if known && check_user_line(output, name.as_str(), provider) {
                            Some(
                                UserInfo {
                                    user_id: name.clone(),
                                    user_name: Some(name.clone()),
                                    email: None,
                                    provider,
                                    is_authenticated: true,
                                },
                            )
                        } else {
                            None
                        }
                    },
                    _ => None,
                }
            } else {
                None
            }
        },
        None => None,
    }
}

/// Reads who is logged in off the output of `user show`: the first line of
/// the form `Logged in as <name> using <Provider>.` names the user. Without
/// such a line nobody is logged in.
pub fn parse_user_info(output: &str) -> (info: Option<UserInfo>)
    ensures
        info.deep_view() == user_from_groups(output@, regex_captures(USER_PATTERN@, output@)),
{
    user_info_from_groups(output, captures(USER_PATTERN, output))
}

/// The port numbers listed in the "Ports" section of `lines`, given whether
/// the section has begun. The section begins after a line that starts with
/// `Ports`; in it every line whose first token is a port number gives that
/// port, blank lines are passed over, and the first line whose first token
/// is no port number ends the scan.
pub open spec fn scan_ports(lines: Seq<Seq<char>>, in_section: bool) -> Seq<u16>
    decreases lines.len(),
{
    if lines.len() == 0 {
        Seq::empty()
    } else {
        let line = trim(lines[0]);
        let rest = lines.skip(1);
        if starts_with(line, "Ports"@) {
            scan_ports(rest, true)
        } else if !in_section {
            scan_ports(rest, false)
        } else {
            let parts = tokens(line);
            if parts.len() == 0 {
                scan_ports(rest, true)
            } else {
                match parse_u16(parts[0]) {
                    Some(port) => seq![port] + scan_ports(rest, true),
                    None => Seq::empty(),
                }
            }
        }
    }
}

/// The ports that the output of `show` lists for a tunnel.
pub open spec fn tunnel_ports(output: Seq<char>) -> Seq<u16> {
    scan_ports(lines(output), false)
}

/// Reads the forwarded ports off the output of `show`.
pub fn parse_tunnel_show(output: &str) -> (ports: Vec<u16>)
    ensures
        ports@ == tunnel_ports(output@),
{
    let text = chars_of(output);
    let all = split_lines(text.as_slice());
    let heading = chars_of("Ports");
    let mut ports: Vec<u16> = Vec::new();
    let mut in_section = false;
    let mut i: usize = 0;
    let ghost ls = lines(output@);
    assert(ls.skip(0) =~= ls);
    while i < all.len()
        invariant
            i <= all.len(),
            all.deep_view() == ls,
            ls == lines(output@),
            heading@ == "Ports"@,
            ports@ + scan_ports(ls.skip(i as int), in_section) == scan_ports(ls, false),
        decreases all.len() - i,
    {
        let ghost rest = ls.skip(i as int);
        assert(all[i as int].deep_view() =~= all[i as int]@);
        assert(rest[0] == all[i as int]@);
        assert(rest.skip(1) =~= ls.skip(i as int + 1));
        let line = trim_slice(all[i]);
        if slice_starts_with(line, heading.as_slice()) {
            in_section = true;
        } else if in_section {
            let parts = split_whitespace(line);
            if parts.len() > 0 {
                assert(parts[0].deep_view() =~= parts[0]@);
                match slice_parse_u16(parts[0]) {
                    Some(port) => {
                        let ghost before = ports@;
                        ports.push(port);
                        assert(before.push(port) + scan_ports(rest.skip(1), true) =~= before + (
                        seq![port] + scan_ports(rest.skip(1), true)));
                    },
                    None => {
                        assert(scan_ports(rest, true) =~= Seq::<u16>::empty());
                        assert(ports@ + Seq::<u16>::empty() =~= ports@);
                        return ports;
                    },
                }
            }
        }
        i += 1;
    }
    assert(ports@ + Seq::<u16>::empty() =~= ports@);
    ports
}

/// The fields that a scan of `port show` output has found so far.
pub ghost struct PortFields {
    pub port_number: Option<u16>,
    pub protocol: Option<Protocol>,
    pub description: Option<Seq<char>>,
}

/// The protocol that a non-empty `text` names; anything but `http` and
/// `https` is `Auto`.
pub open spec fn protocol_of(text: Seq<char>) -> Protocol {
    if text == "http"@ {
        Protocol::Http
    } else if text == "https"@ {
        Protocol::Https
    } else {
        Protocol::Auto
    }
}

/// The value of a `label : value` line: what follows the first colon,
/// trimmed; `None` when the line has no colon.
pub open spec fn field_value(line: Seq<char>) -> Option<Seq<char>> {
    let at = find_char(line, ':');
    if at < line.len() {
        Some(trim(line.skip(at as int + 1)))
    } else {
        None
    }
}

/// The fields after one more line. A `Port Number` line sets the port
/// number to what its value parses to, a `Protocol` line with a non-empty
/// value sets the protocol, a `Description` line with a non-empty value
/// sets the description; any other line, a labelled line without a colon
/// and an empty protocol or description change nothing.
pub open spec fn read_field(acc: PortFields, raw: Seq<char>) -> PortFields {
    let line = trim(raw);
    if starts_with(line, "Port Number"@) {
        match field_value(line) {
            Some(v) => PortFields { port_number: parse_u16(v), ..acc },
            None => acc,
        }
    } else if starts_with(line, "Protocol"@) {
        match field_value(line) {
            Some(v) => if v.len() > 0 {
                PortFields { protocol: Some(protocol_of(v)), ..acc }
            } else {
                acc
            },
            None => acc,
        }
    } else if starts_with(line, "Description"@) {
        match field_value(line) {
            Some(v) => if v.len() > 0 {
                PortFields { description: Some(v), ..acc }
            } else {
                acc
            },
            None => acc,
        }
    } else {
        acc
    }
}

/// The fields after all of `lines`, read in order.
pub open spec fn read_fields(lines: Seq<Seq<char>>) -> PortFields
    decreases lines.len(),
{
    if lines.len() == 0 {
        PortFields { port_number: None, protocol: None, description: None }
    } else {
        read_field(read_fields(lines.drop_last()), lines.last())
    }
}

/// The port that the output of `port show` describes: present exactly when
/// both a port number and a protocol were found.
pub open spec fn port_shown(output: Seq<char>) -> Option<PortView> {
    let f = read_fields(lines(output));
    if f.port_number is Some && f.protocol is Some {
        Some(
            PortView {
                port_number: f.port_number->0,
                protocol: f.protocol->0,
                description: f.description,
                port_forwarding_uris: None,
                inspect_uri: None,
            },
        )
    } else {
        None
    }
}

/// The value of a `label : value` line.
fn slice_field_value(line: &[char]) -> (v: Option<&[char]>)
    ensures
        match v {
            Some(s) => field_value(line@) == Some(s@),
            None => field_value(line@) is None,
        },
{
    let at = slice_find_char(line, ':');
    if at < line.len() {
        let tail = vstd::slice::slice_subrange(line, at + 1, line.len());
        assert(tail@ =~= line@.skip(at as int + 1));
        Some(trim_slice(tail))
    } else {
        None
    }
}

/// Reads one port off the output of `port show`.
pub fn parse_port_show(output: &str) -> (port: Option<Port>)
    ensures
        port.deep_view() == port_shown(output@),
{
    let text = chars_of(output);
    let all = split_lines(text.as_slice());
    let number_label = chars_of("Port Number");
    let protocol_label = chars_of("Protocol");
    let description_label = chars_of("Description");
    let http = chars_of("http");
    let https = chars_of("https");
    let mut port_number: Option<u16> = None;
    let mut protocol: Option<Protocol> = None;
    let mut description: Option<String> = None;
    let mut i: usize = 0;
    let ghost ls = lines(output@);
    assert(ls.take(0) =~= Seq::<Seq<char>>::empty());
    while i < all.len()
        invariant
            i <= all.len(),
            all.deep_view() == ls,
            number_label@ == "Port Number"@,
            protocol_label@ == "Protocol"@,
            description_label@ == "Description"@,
            http@ == "http"@,
            https@ == "https"@,
            read_fields(ls.take(i as int)) == (PortFields {
                port_number,
                protocol,
                description: description.deep_view(),
            }),
        decreases all.len() - i,
    {
        assert(all[i as int].deep_view() =~= all[i as int]@);
        assert(ls.take(i as int + 1).drop_last() =~= ls.take(i as int));
        assert(ls.take(i as int + 1).last() == all[i as int]@);
        let line = trim_slice(all[i]);
        if slice_starts_with(line, number_label.as_slice()) {
            match slice_field_value(line) {
                Some(v) => {
                    port_number = slice_parse_u16(v);
                },
                None => {},
            }
        } else if slice_starts_with(line, protocol_label.as_slice()) {
            match slice_field_value(line) {
                Some(v) => {
                    if v.len() > 0 {
                        protocol = Some(
                            if same_text(v, http.as_slice()) {
                                Protocol::Http
                            } else if same_text(v, https.as_slice()) {
                                Protocol::Https
                            } else {
                                Protocol::Auto
                            },
                        );
                    }
                },
                None => {},
            }
        } else if slice_starts_with(line, description_label.as_slice()) {
            match slice_field_value(line) {
                Some(v) => {
                    if v.len() > 0 {
                        description = Some(string_of(v));
                    }
                },
                None => {},
            }
        }
        i += 1;
    }
    assert(ls.take(i as int) =~= ls);
    match (port_number, protocol) {
        (Some(number), Some(proto)) => Some(
            Port {
                port_number: number,
                protocol: proto,
                description,
                port_forwarding_uris: None,
                inspect_uri: None,
            },
        ),
        _ => None,
    }
}

/// The number of header lines that open a tunnel listing.
pub const LIST_HEADER_LINES: usize = 3;

/// The seconds in a day.
pub const SECONDS_PER_DAY: i64 = 86400;

/// Whether `token` is the unit of an expiration.
pub open spec fn is_day_unit(token: Seq<char>) -> bool {
    token == "days"@ || token == "day"@
}

/// The number of tokens before the first expiration unit; the number of
/// all tokens when there is none.
pub open spec fn unit_index(parts: Seq<Seq<char>>) -> nat
    decreases parts.len(),
{
    if parts.len() > 0 && !is_day_unit(parts[0]) {
        1 + unit_index(parts.skip(1))
    } else {
        0
    }
}

/// The moment at which a tunnel expires, in seconds since the epoch and
/// written in decimal: `count` days after `now`, which for a count of 0
/// is `now` itself. There is none where the count is no number or is
/// negative.
pub open spec fn expiry(count: Seq<char>, now: u64) -> Option<Seq<char>> {
    match parse_i64(count) {
        Some(days) => if days >= 0 {
            Some(decimal((now + days * SECONDS_PER_DAY) as nat))
        } else {
            None
        },
        None => None,
    }
}

/// A count of days that can be read expires the tunnel exactly that many
/// days after the clock reading, whatever the reading and however large
/// the count: thirty days are 2592000 seconds.
pub proof fn lemma_expiry_adds_the_days(count: Seq<char>, now: u64, days: int)
    requires
        parse_i64(count) == Some(days as i64),
        0 <= days <= i64::MAX,
    ensures
        expiry(count, now) == Some(decimal((now + days * 86400) as nat)),
        days == 30 ==> expiry(count, now) == Some(decimal((now + 2592000) as nat)),
        days == 0 ==> expiry(count, now) == Some(decimal(now as nat)),
{
}

/// The tunnel that one listing line describes, read at the moment `now`; a
/// blank line describes none. The first token is the identifier. Where a
/// `day` or `days` token follows a count, the tunnel expires that many days
/// after `now`; what follows the unit, rejoined by single spaces, is the
/// description. The ports are left empty.
pub open spec fn list_record(line: Seq<char>, now: Option<u64>) -> Option<TunnelListItemView> {
    let parts = tokens(line);
    let at = unit_index(parts);
    if parts.len() == 0 {
        None
    } else {
        Some(
            TunnelListItemView {
                tunnel_id: parts[0],
                description: if at + 1 < parts.len() {
                    Some(join(parts.skip(at as int + 1), seq![' ']))
                } else {
                    None
                },
                tags: None,
                ports: Seq::empty(),
                status: TunnelStatus::Active,
                expires_at: if 0 < at < parts.len() && now is Some {
                    expiry(parts[at as int - 1], now->0)
                } else {
                    None
                },
            },
        )
    }
}

/// A line whose unit follows a count that can be read describes a tunnel
/// that expires that many days after the clock reading: after thirty days
/// that is 2592000 seconds later, whatever the reading.
pub proof fn lemma_record_expires(line: Seq<char>, now: u64, days: int)
    requires
        0 < unit_index(tokens(line)) < tokens(line).len(),
        parse_i64(tokens(line)[unit_index(tokens(line)) as int - 1]) == Some(days as i64),
        0 <= days <= i64::MAX,
    ensures
        list_record(line, Some(now)) matches Some(record) && record.expires_at == Some(
            decimal((now + days * 86400) as nat),
        ),
        days == 30 ==> list_record(line, Some(now))->0.expires_at == Some(
            decimal((now + 2592000) as nat),
        ),
{
    lemma_expiry_adds_the_days(tokens(line)[unit_index(tokens(line)) as int - 1], now, days);
}

/// The tunnels that `lines` describe, in order.
pub open spec fn list_records(lines: Seq<Seq<char>>, now: Option<u64>) -> Seq<TunnelListItemView>
    decreases lines.len(),
{
    if lines.len() == 0 {
        Seq::empty()
    } else {
        match list_record(lines[0], now) {
            Some(record) => seq![record] + list_records(lines.skip(1), now),
            None => list_records(lines.skip(1), now),
        }
    }
}

/// `lines` without the listing's header.
pub open spec fn after_header(lines: Seq<Seq<char>>) -> Seq<Seq<char>> {
    if lines.len() >= LIST_HEADER_LINES {
        lines.skip(LIST_HEADER_LINES as int)
    } else {
        Seq::empty()
    }
}

/// The tunnels that the output of `list` describes, read at the moment
/// `now` (seconds since the epoch, if the clock could tell).
pub open spec fn tunnel_list(output: Seq<char>, now: Option<u64>) -> Seq<TunnelListItemView> {
    list_records(after_header(lines(output)), now)
}

/// The position of the first expiration unit among `parts`.
fn find_unit(parts: &Vec<&[char]>) -> (at: usize)
    ensures
        at == unit_index(parts.deep_view()),
        at <= parts.len(),
{
    let days = chars_of("days");
    let day = chars_of("day");
    let ghost all = parts.deep_view();
    let mut j: usize = 0;
    assert(all.skip(0) =~= all);
    while j < parts.len()
        invariant
            j <= parts.len(),
            all == parts.deep_view(),
            days@ == "days"@,
            day@ == "day"@,
            unit_index(all) == j + unit_index(all.skip(j as int)),
        decreases parts.len() - j,
    {
        assert(parts[j as int].deep_view() =~= parts[j as int]@);
        assert(all.skip(j as int)[0] == parts[j as int]@);
        if same_text(parts[j], days.as_slice()) || same_text(parts[j], day.as_slice()) {
            return j;
        }
        assert(all.skip(j as int).skip(1) =~= all.skip(j as int + 1));
        j += 1;
    }
    j
}

/// The expiration that `count` days from `now` give.
fn expiry_string(count: &[char], now: u64) -> (at: Option<String>)
    ensures
        at.deep_view() == expiry(count@, now),
{
    match slice_parse_i64(count) {
        Some(days) => {
            if days >= 0 {
                Some(decimal_text(now as u128 + days as u128 * SECONDS_PER_DAY as u128))
            } else {
                None
            }
        },
        None => None,
    }
}

/// The tunnel that one listing line describes.
fn parse_list_line(line: &[char], now: Option<u64>) -> (item: Option<TunnelListItem>)
    ensures
        item.deep_view() == list_record(line@, now),
{
    let parts = split_whitespace(line);
    if parts.len() == 0 {
        return None;
    }
    let at = find_unit(&parts);
    assert(parts[0].deep_view() =~= parts[0]@);
    let tunnel_id = string_of(parts[0]);
    let expires_at = if 0 < at && at < parts.len() {
        assert(parts[at as int - 1].deep_view() =~= parts[at as int - 1]@);
        match now {
            Some(t) => expiry_string(parts[at - 1], t),
            None => None,
        }
    } else {
        None
    };
    let description = if at < parts.len() && at + 1 < parts.len() {
        assert(parts.deep_view().subrange(at as int + 1, parts.len() as int)
            =~= parts.deep_view().skip(at as int + 1));
        Some(join_range(&parts, at + 1, parts.len(), ' '))
    } else {
        None
    };
    let ports: Vec<u16> = Vec::new();
    Some(
        TunnelListItem {
            tunnel_id,
            description,
            tags: None,
            ports,
            status: TunnelStatus::Active,
            expires_at,
        },
    )
}

/// Reads the tunnels off the output of `list`, taking `now` (seconds since
/// the epoch, if known) as the moment from which expirations count.
pub fn parse_tunnel_list_at(output: &str, now: Option<u64>) -> (tunnels: Vec<TunnelListItem>)
    ensures
        tunnels.deep_view() == tunnel_list(output@, now),
{
    let text = chars_of(output);
    let all = split_lines(text.as_slice());
    let mut tunnels: Vec<TunnelListItem> = Vec::new();
    assert(tunnels.deep_view() =~= Seq::<TunnelListItemView>::empty());
    if all.len() < LIST_HEADER_LINES {
        return tunnels;
    }
    let ghost ls = after_header(lines(output@));
    let mut i: usize = LIST_HEADER_LINES;
    assert(ls.skip(0) =~= ls);
    assert(tunnels.deep_view() + list_records(ls, now) =~= list_records(ls, now));
    while i < all.len()
        invariant
            LIST_HEADER_LINES <= i <= all.len(),
            all.deep_view() == lines(output@),
            ls == after_header(lines(output@)),
            tunnels.deep_view() + list_records(ls.skip(i - LIST_HEADER_LINES), now) == list_records(
                ls,
                now,
            ),
        decreases all.len() - i,
    {
        let ghost rest = ls.skip(i - LIST_HEADER_LINES);
        assert(all[i as int].deep_view() =~= all[i as int]@);
        assert(rest[0] == all[i as int]@);
        assert(rest.skip(1) =~= ls.skip(i - LIST_HEADER_LINES + 1));
        match parse_list_line(all[i], now) {
            Some(item) => {
                let ghost before = tunnels.deep_view();
                tunnels.push(item);
                assert(tunnels.deep_view() =~= before.push(item.deep_view()));
                assert(before.push(item.deep_view()) + list_records(rest.skip(1), now) =~= before
                    + (seq![item.deep_view()] + list_records(rest.skip(1), now)));
            },
            None => {},
        }
        i += 1;
    }
    assert(tunnels.deep_view() + Seq::<TunnelListItemView>::empty() =~= tunnels.deep_view());
    tunnels
}

/// A listing never makes up ports: every tunnel read off the output of
/// `list` has an empty port list.
pub proof fn lemma_listing_has_no_ports(lines: Seq<Seq<char>>, now: Option<u64>)
    ensures
        forall|i: int|
            0 <= i < list_records(lines, now).len() ==> (#[trigger] list_records(
                lines,
                now,
            )[i]).ports.len() == 0,
    decreases lines.len(),
{
    if lines.len() > 0 {
        lemma_listing_has_no_ports(lines.skip(1), now);
    }
}

/// Whether `tunnels` is what the output of `list` describes at some
/// reading of the clock.
pub open spec fn is_listing(tunnels: Seq<TunnelListItemView>, output: Seq<char>) -> bool {
    exists|now: Option<u64>| tunnels == #[trigger] tunnel_list(output, now)
}

/// Reads the tunnels off the output of `list`. Expirations count from the
/// moment of the call, so the result is `parse_tunnel_list_at` for some
/// reading of the clock.
pub fn parse_tunnel_list(output: &str) -> (tunnels: Vec<TunnelListItem>)
    ensures
        is_listing(tunnels.deep_view(), output@),
{
    let now = unix_now();
    parse_tunnel_list_at(output, now)
}

/// Whether `line` of a process table is that of the process hosting the
/// tunnel `id`: it mentions the tool, the word `host` and the identifier.
pub open spec fn is_host_line(line: Seq<char>, id: Seq<char>) -> bool {
    contains(line, "devtunnel"@) && contains(line, "host"@) && contains(line, id)
}

/// The start time in the first of `lines` that is a host line for `id`
/// and has at least six columns: its columns two to six, which hold the
/// weekday, month, day, time and year, joined by single spaces.
pub open spec fn start_time_in(lines: Seq<Seq<char>>, id: Seq<char>) -> Option<Seq<char>>
    decreases lines.len(),
{
    if lines.len() == 0 {
        None
    } else if is_host_line(lines[0], id) && tokens(lines[0]).len() >= 6 {
        Some(join(tokens(lines[0]).subrange(1, 6), seq![' ']))
    } else {
        start_time_in(lines.skip(1), id)
    }
}

/// The time at which the process hosting the tunnel `id` started,
/// according to a process table with the columns pid, start time and
/// command line.
pub open spec fn start_time(table: Seq<char>, id: Seq<char>) -> Option<Seq<char>> {
    start_time_in(lines(table), id)
}

/// Reads the start time of the process hosting `tunnel_id` off the output
/// of `ps -eo pid,lstart,cmd`.
pub fn parse_start_time(table: &str, tunnel_id: &str) -> (started: Option<String>)
    ensures
        started.deep_view() == start_time(table@, tunnel_id@),
{
    let text = chars_of(table);
    let all = split_lines(text.as_slice());
    let id = chars_of(tunnel_id);
    let tool = chars_of("devtunnel");
    let host = chars_of("host");
    let ghost ls = lines(table@);
    let mut i: usize = 0;
    assert(ls.skip(0) =~= ls);
    while i < all.len()
        invariant
            i <= all.len(),
            all.deep_view() == ls,
            ls == lines(table@),
            id@ == tunnel_id@,
            tool@ == "devtunnel"@,
            host@ == "host"@,
            start_time_in(ls, tunnel_id@) == start_time_in(ls.skip(i as int), tunnel_id@),
        decreases all.len() - i,
    {
        let line = all[i];
        assert(all[i as int].deep_view() =~= all[i as int]@);
        assert(ls.skip(i as int)[0] == line@);
        assert(ls.skip(i as int).skip(1) =~= ls.skip(i as int + 1));
        if slice_contains(line, tool.as_slice()) && slice_contains(line, host.as_slice())
            && slice_contains(line, id.as_slice()) {
            let parts = split_whitespace(line);
            if parts.len() >= 6 {
                return Some(join_range(&parts, 1, 6, ' '));
            }
        }
        i += 1;
    }
    None
}

/// A timestamp of the form `YYYYMMDDHHMMSS...` rewritten as
/// `YYYY-MM-DD HH:MM:SS`.
pub open spec fn readable_date(stamp: Seq<char>) -> Seq<char> {
    stamp.subrange(0, 4) + seq!['-'] + stamp.subrange(4, 6) + seq!['-'] + stamp.subrange(6, 8)
        + seq![' '] + stamp.subrange(8, 10) + seq![':'] + stamp.subrange(10, 12) + seq![':']
        + stamp.subrange(12, 14)
}

/// The creation date in the first of `lines` that, trimmed, has at least
/// fourteen characters.
pub open spec fn creation_date_in(lines: Seq<Seq<char>>) -> Option<Seq<char>>
    decreases lines.len(),
{
    if lines.len() == 0 {
        None
    } else if trim(lines[0]).len() >= 14 {
        Some(readable_date(trim(lines[0])))
    } else {
        creation_date_in(lines.skip(1))
    }
}

/// The creation date that a one-column table with a header line gives.
pub open spec fn creation_date(table: Seq<char>) -> Option<Seq<char>> {
    if lines(table).len() >= 1 {
        creation_date_in(lines(table).skip(1))
    } else {
        None
    }
}

/// Appends `s[from..to]` to `out`.
fn push_range(out: &mut String, s: &[char], from: usize, to: usize)
    requires
        from <= to <= s.len(),
    ensures
        final(out)@ == old(out)@ + s@.subrange(from as int, to as int),
{
    let mut k: usize = from;
    while k < to
        invariant
            from <= k <= to <= s.len(),
            out@ =~= old(out)@ + s@.subrange(from as int, k as int),
        decreases to - k,
    {
        out.push(s[k]);
        k += 1;
    }
}

/// Reads the creation date of a process off the output of
/// `wmic process ... get CreationDate`.
pub fn parse_creation_date(table: &str) -> (created: Option<String>)
    ensures
        created.deep_view() == creation_date(table@),
{
    let text = chars_of(table);
    let all = split_lines(text.as_slice());
    if all.len() < 1 {
        return None;
    }
    let ghost ls = lines(table@).skip(1);
    let mut i: usize = 1;
    assert(ls.skip(0) =~= ls);
    while i < all.len()
        invariant
            1 <= i <= all.len(),
            all.deep_view() == lines(table@),
            ls == lines(table@).skip(1),
            creation_date_in(ls) == creation_date_in(ls.skip(i - 1)),
        decreases all.len() - i,
    {
        assert(all[i as int].deep_view() =~= all[i as int]@);
        assert(ls.skip(i - 1)[0] == all[i as int]@);
        assert(ls.skip(i - 1).skip(1) =~= ls.skip(i - 1 + 1));
        let t = trim_slice(all[i]);
        if t.len() >= 14 {
            let mut s = String::new();
            push_range(&mut s, t, 0, 4);
            s.push('-');
            push_range(&mut s, t, 4, 6);
            s.push('-');
            push_range(&mut s, t, 6, 8);
            s.push(' ');
            push_range(&mut s, t, 8, 10);
            s.push(':');
            push_range(&mut s, t, 10, 12);
            s.push(':');
            push_range(&mut s, t, 12, 14);
            assert(s@ =~= readable_date(t@));
            return Some(s);
        }
        i += 1;
    }
    None
}

} // verus!
