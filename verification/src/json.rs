//! Rendering of wide events into their structured one-line form.
//!
//! The record shape is a JSON object built deterministically from the
//! event's fields, so the whole rendering is specified character by
//! character and proved exact.

use vstd::prelude::*;
use vstd::string::*;
use crate::event::Event;
use crate::event::EventType;
use crate::event::EventView;
use crate::event::events_view;
use crate::event::pairs_view;

verus! {

/// Digit character for a value below sixteen (decimal digits reuse the
/// first ten).
pub open spec fn spec_digit(n: int) -> char {
    if n == 0 { '0' }
    else if n == 1 { '1' }
    else if n == 2 { '2' }
    else if n == 3 { '3' }
    else if n == 4 { '4' }
    else if n == 5 { '5' }
    else if n == 6 { '6' }
    else if n == 7 { '7' }
    else if n == 8 { '8' }
    else if n == 9 { '9' }
    else if n == 10 { 'a' }
    else if n == 11 { 'b' }
    else if n == 12 { 'c' }
    else if n == 13 { 'd' }
    else if n == 14 { 'e' }
    else { 'f' }
}

fn digit(n: u8) -> (c: char)
    requires
        n < 16,
    ensures
        c == spec_digit(n as int),
{
    match n {
        0 => '0',
        1 => '1',
        2 => '2',
        3 => '3',
        4 => '4',
        5 => '5',
        6 => '6',
        7 => '7',
        8 => '8',
        9 => '9',
        10 => 'a',
        11 => 'b',
        12 => 'c',
        13 => 'd',
        14 => 'e',
        _ => 'f',
    }
}

/// JSON escape of one character: quote and backslash take a backslash
/// prefix, other control characters become a `\u00XX` sequence, and
/// everything else stands for itself.
pub open spec fn spec_escape_char(c: char) -> Seq<char> {
    if c == '"' {
        seq!['\\', '"']
    } else if c == '\\' {
        seq!['\\', '\\']
    } else if (c as u32) < 0x20 {
        seq!['\\', 'u', '0', '0', spec_digit((c as u32) as int / 16), spec_digit((c as u32) as int % 16)]
    } else {
        seq![c]
    }
}

/// JSON escape of a whole string.
pub open spec fn spec_escape(s: Seq<char>) -> Seq<char>
    decreases s.len(),
{
    if s.len() == 0 {
        Seq::empty()
    } else {
        spec_escape(s.drop_last()) + spec_escape_char(s.last())
    }
}

/// A JSON string literal: the escaped text between double quotes.
pub open spec fn spec_quote(s: Seq<char>) -> Seq<char> {
    seq!['"'] + spec_escape(s) + seq!['"']
}

/// Decimal digits of `n`, most significant first.
pub open spec fn spec_dec(n: nat) -> Seq<char>
    decreases n,
{
    if n < 10 {
        seq![spec_digit(n as int)]
    } else {
        spec_dec(n / 10) + seq![spec_digit((n % 10) as int)]
    }
}

/// JSON members for the fields of one event record, each preceded by a
/// comma (the `type` member always stands before them).
pub open spec fn spec_members(keys: Seq<(Seq<char>, Seq<char>)>) -> Seq<char>
    decreases keys.len(),
{
    if keys.len() == 0 {
        Seq::empty()
    } else {
        spec_members(keys.drop_last()) + seq![','] + spec_quote(keys.last().0) + seq![':']
            + spec_quote(keys.last().1)
    }
}

/// The opening of one event object, carrying its severity tag.
pub open spec fn spec_type_tag(t: EventType) -> Seq<char> {
    match t {
        EventType::Info => "{\"type\":\"Info\""@,
        EventType::Warning => "{\"type\":\"Warning\""@,
        EventType::Error => "{\"type\":\"Error\""@,
    }
}

/// One event record as a JSON object: the severity tag, then the fields.
pub open spec fn spec_event_json(e: EventView) -> Seq<char> {
    spec_type_tag(e.event_type) + spec_members(e.keys) + seq!['}']
}

/// The bodies of the `events` array, comma separated, in append order.
pub open spec fn spec_event_list(events: Seq<EventView>) -> Seq<char>
    decreases events.len(),
{
    if events.len() == 0 {
        Seq::empty()
    } else if events.len() == 1 {
        spec_event_json(events[0])
    } else {
        spec_event_list(events.drop_last()) + seq![','] + spec_event_json(events.last())
    }
}

/// The `events` member: omitted entirely when no record was appended.
pub open spec fn spec_events_member(events: Seq<EventView>) -> Seq<char> {
    if events.len() == 0 {
        Seq::empty()
    } else {
        ",\"events\":["@ + spec_event_list(events) + seq![']']
    }
}

/// Leading members for an open label list, each followed by a comma (a
/// required member always stands after them).
pub open spec fn spec_leading_members(keys: Seq<(Seq<char>, Seq<char>)>) -> Seq<char>
    decreases keys.len(),
{
    if keys.len() == 0 {
        Seq::empty()
    } else {
        spec_leading_members(keys.drop_last()) + spec_quote(keys.last().0) + seq![':']
            + spec_quote(keys.last().1) + seq![',']
    }
}

/// Append the leading members of an open label list to `out`.
pub fn push_leading_members(out: &mut Vec<char>, keys: &Vec<(String, String)>)
    ensures
        final(out)@ == old(out)@ + spec_leading_members(pairs_view(keys@)),
{
    let n = keys.len();
    let mut i: usize = 0;
    while i < n
        invariant
            i <= n,
            n == keys@.len(),
            out@ == old(out)@ + spec_leading_members(pairs_view(keys@).subrange(0, i as int)),
        decreases n - i,
    {
        push_quoted(out, keys[i].0.as_str());
        out.push(':');
        push_quoted(out, keys[i].1.as_str());
        out.push(',');
        i = i + 1;
        proof {
            let pv = pairs_view(keys@);
            assert(pv.subrange(0, i as int).drop_last() =~= pv.subrange(0, i - 1));
            assert(pv.subrange(0, i as int).last() == pv[i - 1]);
            assert(pv[i - 1] == (keys@[i - 1].0@, keys@[i - 1].1@));
            assert(out@ =~= old(out)@ + spec_leading_members(pv.subrange(0, i as int)));
        }
    }
    proof {
        assert(pairs_view(keys@).subrange(0, n as int) =~= pairs_view(keys@));
    }
}

/// The view of an optional string.
pub open spec fn opt_view(v: Option<String>) -> Option<Seq<char>> {
    match v {
        None => None,
        Some(s) => Some(s@),
    }
}

/// An optional leading member: when the value is present, the given
/// prefix (quoted key and colon), the quoted value and a trailing comma;
/// when absent, nothing at all.
pub open spec fn spec_opt_member(prefix: Seq<char>, v: Option<Seq<char>>) -> Seq<char> {
    match v {
        None => Seq::empty(),
        Some(s) => prefix + spec_quote(s) + seq![','],
    }
}

/// Relies on `String: FromIterator<char>` of std: collecting characters
/// yields the string holding exactly those characters in order.
#[verifier::external_body]
pub fn chars_to_string(v: &Vec<char>) -> (r: String)
    ensures
        r@ == v@,
{
    v.iter().collect()
}

/// Append every character of `s` to `out`.
pub fn push_str_chars(out: &mut Vec<char>, s: &str)
    ensures
        final(out)@ == old(out)@ + s@,
{
    let n = s.unicode_len();
    let mut i: usize = 0;
    while i < n
        invariant
            i <= n,
            n == s@.len(),
            out@ == old(out)@ + s@.subrange(0, i as int),
        decreases n - i,
    {
        let c = s.get_char(i);
        out.push(c);
        i = i + 1;
        proof {
            assert(s@.subrange(0, i as int) =~= s@.subrange(0, i - 1).push(s@[i - 1]));
        }
    }
    proof {
        assert(s@.subrange(0, n as int) =~= s@);
    }
}

/// Append the JSON escape of `s` to `out`.
pub fn push_escaped(out: &mut Vec<char>, s: &str)
    ensures
        final(out)@ == old(out)@ + spec_escape(s@),
{
    let n = s.unicode_len();
    let mut i: usize = 0;
    while i < n
        invariant
            i <= n,
            n == s@.len(),
            out@ == old(out)@ + spec_escape(s@.subrange(0, i as int)),
        decreases n - i,
    {
        let c = s.get_char(i);
        if c == '"' {
            out.push('\\');
            out.push('"');
        } else if c == '\\' {
            out.push('\\');
            out.push('\\');
        } else {
            let u = c as u32;
            if u < 0x20 {
                out.push('\\');
                out.push('u');
                out.push('0');
                out.push('0');
                out.push(digit((u / 16) as u8));
                out.push(digit((u % 16) as u8));
            } else {
                out.push(c);
            }
        }
        i = i + 1;
        proof {
            let pre = s@.subrange(0, i - 1);
            assert(s@.subrange(0, i as int).drop_last() =~= pre);
            assert(s@.subrange(0, i as int).last() == s@[i - 1]);
            assert(out@ =~= old(out)@ + spec_escape(s@.subrange(0, i as int)));
        }
    }
    proof {
        assert(s@.subrange(0, n as int) =~= s@);
    }
}

/// Append a quoted, escaped copy of `s` to `out`.
pub fn push_quoted(out: &mut Vec<char>, s: &str)
    ensures
        final(out)@ == old(out)@ + spec_quote(s@),
{
    out.push('"');
    push_escaped(out, s);
    out.push('"');
    proof {
        assert(out@ =~= old(out)@ + spec_quote(s@));
    }
}

/// Append the decimal rendering of `n` to `out`.
pub fn push_dec(out: &mut Vec<char>, n: u64)
    ensures
        final(out)@ == old(out)@ + spec_dec(n as nat),
    decreases n,
{
    if n >= 10 {
        push_dec(out, n / 10);
    }
    out.push(digit((n % 10) as u8));
    proof {
        assert(out@ =~= old(out)@ + spec_dec(n as nat));
    }
}

/// Append the field members of one event record to `out`.
pub fn push_members(out: &mut Vec<char>, keys: &Vec<(String, String)>)
    ensures
        final(out)@ == old(out)@ + spec_members(pairs_view(keys@)),
{
    let n = keys.len();
    let mut i: usize = 0;
    while i < n
        invariant
            i <= n,
            n == keys@.len(),
            out@ == old(out)@ + spec_members(pairs_view(keys@).subrange(0, i as int)),
        decreases n - i,
    {
        out.push(',');
        push_quoted(out, keys[i].0.as_str());
        out.push(':');
        push_quoted(out, keys[i].1.as_str());
        i = i + 1;
        proof {
            let pv = pairs_view(keys@);
            assert(pv.subrange(0, i as int).drop_last() =~= pv.subrange(0, i - 1));
            assert(pv.subrange(0, i as int).last() == pv[i - 1]);
            assert(pv[i - 1] == (keys@[i - 1].0@, keys@[i - 1].1@));
            assert(out@ =~= old(out)@ + spec_members(pv.subrange(0, i as int)));
        }
    }
    proof {
        assert(pairs_view(keys@).subrange(0, n as int) =~= pairs_view(keys@));
    }
}

/// Append one event record as a JSON object to `out`.
pub fn push_event(out: &mut Vec<char>, e: &Event)
    ensures
        final(out)@ == old(out)@ + spec_event_json(e@),
{
    match e.event_type {
        EventType::Info => push_str_chars(out, "{\"type\":\"Info\""),
        EventType::Warning => push_str_chars(out, "{\"type\":\"Warning\""),
        EventType::Error => push_str_chars(out, "{\"type\":\"Error\""),
    }
    push_members(out, &e.keys);
    out.push('}');
    proof {
        assert(out@ =~= old(out)@ + spec_event_json(e@));
    }
}

/// Append the `events` member to `out`; nothing when no record exists.
pub fn push_events_member(out: &mut Vec<char>, events: &Vec<Event>)
    ensures
        final(out)@ == old(out)@ + spec_events_member(events_view(events@)),
{
    let n = events.len();
    if n == 0 {
        return ;
    }
    push_str_chars(out, ",\"events\":[");
    let mut i: usize = 0;
    while i < n
        invariant
            i <= n,
            n == events@.len(),
            n > 0,
            out@ == old(out)@ + ",\"events\":["@ + spec_event_list(
                events_view(events@).subrange(0, i as int),
            ),
        decreases n - i,
    {
        if i > 0 {
            out.push(',');
        }
        push_event(out, &events[i]);
        i = i + 1;
        proof {
            let ev = events_view(events@);
            assert(ev.subrange(0, i as int).last() == ev[i - 1]);
            assert(ev[i - 1] == events@[i - 1]@);
            if i > 1 {
                assert(ev.subrange(0, i as int).drop_last() =~= ev.subrange(0, i - 1));
            }
            assert(out@ =~= old(out)@ + ",\"events\":["@ + spec_event_list(
                ev.subrange(0, i as int),
            ));
        }
    }
    out.push(']');
    proof {
        assert(events_view(events@).subrange(0, n as int) =~= events_view(events@));
        assert(out@ =~= old(out)@ + spec_events_member(events_view(events@)));
    }
}

/// Append an optional leading member to `out`.
pub fn push_opt_member(out: &mut Vec<char>, prefix: &str, v: &Option<String>)
    ensures
        final(out)@ == old(out)@ + spec_opt_member(prefix@, opt_view(*v)),
{
    match v {
        None => {},
        Some(s) => {
            push_str_chars(out, prefix);
            push_quoted(out, s.as_str());
            out.push(',');
            proof {
                assert(out@ =~= old(out)@ + spec_opt_member(prefix@, opt_view(*v)));
            }
        },
    }
}

} // verus!
