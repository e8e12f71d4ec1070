//! A listing written back as text, and read again.
//!
//! The text that `render_listing` writes for the tunnels read off a
//! listing reads as the same tunnels: reading a listing is idempotent
//! across its own rendering.

use crate::parser::{
    after_header, expiry, is_day_unit, list_record, list_records, tunnel_list, unit_index,
};
use crate::text::{
    all_words, decimal, decimal_value, is_whitespace, is_word, join, lemma_decimal_reads_back,
    lemma_join_has_only_spaces, lemma_parse_decimal, lemma_tokens_are_words,
    lemma_tokens_of_join, line_len, lines, parse_i64, tokens,
};
use crate::types::TunnelListItemView;
use vstd::prelude::*;

verus! {

/// The whole days between `now` and the moment that `expires` writes.
pub open spec fn days_left(expires: Seq<char>, now: u64) -> nat {
    ((decimal_value(expires) - now) / 86400) as nat
}

/// The count that a rendered line gives before its unit: the days left
/// where the tunnel expires, and a lone hyphen, which is no number, where
/// it does not.
pub open spec fn count_text(record: TunnelListItemView, now: Option<u64>) -> Seq<char> {
    match (record.expires_at, now) {
        (Some(expires), Some(n)) => decimal(days_left(expires, n)),
        _ => "-"@,
    }
}

/// The words of the line that renders `record`: its identifier and, where
/// it has an expiration or a description, its count, the unit `days` and
/// the words of its description.
pub open spec fn record_words(record: TunnelListItemView, now: Option<u64>) -> Seq<Seq<char>> {
    if record.expires_at is None && record.description is None {
        seq![record.tunnel_id]
    } else {
        seq![record.tunnel_id, count_text(record, now), "days"@] + (match record.description {
            Some(d) => tokens(d),
            None => Seq::empty(),
        })
    }
}

/// The line that renders `record`: its words, a space between each two.
pub open spec fn render_record(record: TunnelListItemView, now: Option<u64>) -> Seq<char> {
    join(record_words(record, now), seq![' '])
}

/// The lines that render `records`, each ended by a line feed.
pub open spec fn render_lines(records: Seq<TunnelListItemView>, now: Option<u64>) -> Seq<char>
    decreases records.len(),
{
    if records.len() == 0 {
        Seq::empty()
    } else {
        render_record(records[0], now) + seq!['\n'] + render_lines(records.skip(1), now)
    }
}

/// The listing that renders `records`: three empty header lines, then
/// one line per record.
pub open spec fn render_listing(records: Seq<TunnelListItemView>, now: Option<u64>) -> Seq<char> {
    seq!['\n', '\n', '\n'] + render_lines(records, now)
}

/// Whether `text` stays on one line and does not end in a carriage
/// return.
pub open spec fn is_one_line(text: Seq<char>) -> bool {
    (forall|i: int| 0 <= i < text.len() ==> #[trigger] text[i] != '\n') && (text.len() == 0
        || text.last() != '\r')
}

/// The unit is found where it stands or the tokens end.
proof fn lemma_unit_index(parts: Seq<Seq<char>>)
    ensures
        unit_index(parts) <= parts.len(),
        unit_index(parts) < parts.len() ==> is_day_unit(parts[unit_index(parts) as int]),
    decreases parts.len(),
{
    if parts.len() > 0 && !is_day_unit(parts[0]) {
        lemma_unit_index(parts.skip(1));
    }
}

/// The line that renders a record read off a line reads as that record,
/// unless the record's identifier is itself the unit of an expiration.
pub proof fn lemma_record_round_trip(line: Seq<char>, now: Option<u64>)
    requires
        list_record(line, now) is Some,
        !is_day_unit(list_record(line, now)->0.tunnel_id),
    ensures
        list_record(render_record(list_record(line, now)->0, now), now) == list_record(line, now),
        is_one_line(render_record(list_record(line, now)->0, now)),
{
    reveal_strlit("days");
    reveal_strlit("day");
    reveal_strlit("-");
    let sep = seq![' '];
    let parts = tokens(line);
    let at = unit_index(parts);
    let r = list_record(line, now)->0;
    let words = record_words(r, now);
    let count = count_text(r, now);
    lemma_tokens_are_words(line);
    lemma_unit_index(parts);
    assert(is_word(parts[0]));
    assert(is_word("days"@));
    // The count is a word, is no unit, and reads as the expiration.
    if r.expires_at is Some && now is Some {
        let n = now->0;
        let days = parse_i64(parts[at as int - 1])->0;
        assert(expiry(parts[at as int - 1], n) == r.expires_at);
        lemma_decimal_reads_back((n + days * 86400) as nat);
        assert(days_left(r.expires_at->0, n) == days);
        lemma_parse_decimal(days as nat);
        assert(expiry(count, n) == r.expires_at);
        lemma_decimal_reads_back(days as nat);
        assert(crate::text::is_digit(count[0]));
    } else {
        assert(count == "-"@);
        assert(count.skip(1).len() == 0);
        assert(parse_i64(count) is None);
        assert(is_word(count));
    }
    assert(!is_day_unit(count));
    let tail = match r.description {
        Some(d) => tokens(d),
        None => Seq::<Seq<char>>::empty(),
    };
    if r.description is Some {
        let rest = parts.skip(at as int + 1);
        assert forall|i: int| 0 <= i < rest.len() implies is_word(#[trigger] rest[i]) by {
            assert(rest[i] == parts[at + 1 + i]);
        }
        lemma_tokens_of_join(rest);
        assert(tail == rest);
        assert(tail.len() > 0);
    }
    lemma_tokens_are_words(match r.description {
        Some(d) => d,
        None => Seq::empty(),
    });
    assert(all_words(words)) by {
        assert forall|i: int| 0 <= i < words.len() implies is_word(#[trigger] words[i]) by {
            if !(r.expires_at is None && r.description is None) && i >= 3 {
                assert(words[i] == tail[i - 3]);
            }
        }
    }
    lemma_tokens_of_join(words);
    lemma_join_has_only_spaces(words);
    let text = render_record(r, now);
    assert(tokens(text) == words);
    assert(is_one_line(text)) by {
        assert forall|i: int| 0 <= i < text.len() implies #[trigger] text[i] != '\n' by {
            assert(text[i] == ' ' || !is_whitespace(text[i]));
        }
    }
    if r.expires_at is None && r.description is None {
        assert(words.skip(1).len() == 0);
        assert(unit_index(words.skip(1)) == 0);
        assert(words[0] == r.tunnel_id);
        assert(unit_index(words) == 1);
    } else {
        assert(words.skip(1)[0] == count);
        assert(words.skip(1).skip(1)[0] == "days"@);
        assert(unit_index(words.skip(1).skip(1)) == 0);
        assert(unit_index(words.skip(1)) == 1);
        assert(unit_index(words) == 2);
        assert(words.skip(3) =~= tail);
        if r.description is Some {
            assert(join(words.skip(3), sep) == r.description->0);
        }
    }
    let again = list_record(text, now)->0;
    assert(again.tunnel_id == r.tunnel_id);
    assert(again.description == r.description);
    assert(again.expires_at == r.expires_at);
    assert(again.ports =~= r.ports);
}

/// A line followed by a line feed is the first line of a text.
proof fn lemma_line_len_of_run(line: Seq<char>, rest: Seq<char>)
    requires
        forall|i: int| 0 <= i < line.len() ==> #[trigger] line[i] != '\n',
    ensures
        line_len(line + seq!['\n'] + rest) == line.len(),
    decreases line.len(),
{
    let s = line + seq!['\n'] + rest;
    if line.len() == 0 {
        assert(s[0] == '\n');
    } else {
        assert(s[0] == line[0]);
        assert(s.skip(1) =~= line.skip(1) + seq!['\n'] + rest);
        assert forall|i: int| 0 <= i < line.skip(1).len() implies #[trigger] line.skip(1)[i]
            != '\n' by {
            assert(line.skip(1)[i] == line[i + 1]);
        }
        lemma_line_len_of_run(line.skip(1), rest);
    }
}

/// A line followed by a line feed is the first line of a text, and what
/// follows makes the other lines.
proof fn lemma_lines_after_line(line: Seq<char>, rest: Seq<char>)
    requires
        is_one_line(line),
    ensures
        lines(line + seq!['\n'] + rest) == seq![line] + lines(rest),
{
    let s = line + seq!['\n'] + rest;
    lemma_line_len_of_run(line, rest);
    assert(s.take(line.len() as int) =~= line);
    assert(s.skip(line.len() as int + 1) =~= rest);
}

/// Whether `record` can be read off some line.
pub open spec fn is_readable(record: TunnelListItemView, now: Option<u64>) -> bool {
    exists|line: Seq<char>| #[trigger] list_record(line, now) == Some(record)
}

/// Every record of a listing was read off a line.
proof fn lemma_records_are_readable(ls: Seq<Seq<char>>, now: Option<u64>)
    ensures
        forall|i: int|
            0 <= i < list_records(ls, now).len() ==> is_readable(
                #[trigger] list_records(ls, now)[i],
                now,
            ),
    decreases ls.len(),
{
    if ls.len() > 0 {
        lemma_records_are_readable(ls.skip(1), now);
        let rest = list_records(ls.skip(1), now);
        assert forall|i: int| 0 <= i < list_records(ls, now).len() implies is_readable(
            #[trigger] list_records(ls, now)[i],
            now,
        ) by {
            match list_record(ls[0], now) {
                Some(record) => {
                    if i == 0 {
                        assert(list_record(ls[0], now) == Some(list_records(ls, now)[0]));
                    } else {
                        assert(list_records(ls, now)[i] == rest[i - 1]);
                    }
                },
                None => {},
            }
        }
    }
}

/// The lines that render readable records read as those records.
proof fn lemma_rendered_lines_round_trip(records: Seq<TunnelListItemView>, now: Option<u64>)
    requires
        forall|i: int|
            0 <= i < records.len() ==> is_readable(#[trigger] records[i], now) && !is_day_unit(
                records[i].tunnel_id,
            ),
    ensures
        list_records(lines(render_lines(records, now)), now) == records,
    decreases records.len(),
{
    if records.len() == 0 {
        assert(list_records(lines(render_lines(records, now)), now) =~= records);
    } else {
        let first = records[0];
        let rest = records.skip(1);
        assert(is_readable(first, now));
        let line = choose|line: Seq<char>| #[trigger] list_record(line, now) == Some(first);
        lemma_record_round_trip(line, now);
        assert forall|i: int| 0 <= i < rest.len() implies is_readable(#[trigger] rest[i], now)
            && !is_day_unit(rest[i].tunnel_id) by {
            assert(rest[i] == records[i + 1]);
        }
        lemma_rendered_lines_round_trip(rest, now);
        let text = render_record(first, now);
        lemma_lines_after_line(text, render_lines(rest, now));
        let ls = lines(render_lines(records, now));
        assert(ls[0] == text);
        assert(ls.skip(1) =~= lines(render_lines(rest, now)));
        assert(seq![first] + rest =~= records);
    }
}

/// Reading a listing is idempotent across its own rendering: the tunnels
/// read off any output, written back one per line under a three-line
/// header, read as the same tunnels, field by field, at the same reading
/// of the clock. The one exception is a tunnel whose identifier is the
/// word `day` or `days`, which a reader takes for the unit.
pub proof fn lemma_listing_round_trip(output: Seq<char>, now: Option<u64>)
    requires
        forall|i: int|
            0 <= i < tunnel_list(output, now).len() ==> !is_day_unit(
                (#[trigger] tunnel_list(output, now)[i]).tunnel_id,
            ),
    ensures
        tunnel_list(render_listing(tunnel_list(output, now), now), now) == tunnel_list(
            output,
            now,
        ),
{
    let records = tunnel_list(output, now);
    lemma_records_are_readable(after_header(lines(output)), now);
    lemma_rendered_lines_round_trip(records, now);
    let body = render_lines(records, now);
    let empty = Seq::<char>::empty();
    lemma_lines_after_line(empty, body);
    lemma_lines_after_line(empty, seq!['\n'] + body);
    lemma_lines_after_line(empty, seq!['\n', '\n'] + body);
    assert(empty + seq!['\n'] + body =~= seq!['\n'] + body);
    assert(empty + seq!['\n'] + (seq!['\n'] + body) =~= seq!['\n', '\n'] + body);
    assert(empty + seq!['\n'] + (seq!['\n', '\n'] + body) =~= render_listing(records, now));
    let all = lines(render_listing(records, now));
    assert(all =~= seq![empty, empty, empty] + lines(body));
    assert(after_header(all) =~= lines(body));
}

} // verus!
