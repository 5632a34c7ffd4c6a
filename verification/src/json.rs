//! A verified writer for the JSON document the game imports.
//!
//! The document's shape — field names, their order, and how numbers, strings
//! and missing values are rendered — is a fixed contract with the consuming
//! game, so it is pinned here by specification functions and the writer is
//! proved to produce exactly that text. Micro-unit coordinates are rendered
//! as decimals with six fractional digits.

use vstd::prelude::*;
use crate::coords::Coordinates;
use crate::entities::Layer;
use crate::entities::Line;
use crate::entities::Rider;

verus! {

/// The decimal digit character for `d` in `0 ..= 9`.
pub open spec fn digit_char(d: int) -> char {
    if d == 0 {
        '0'
    } else if d == 1 {
        '1'
    } else if d == 2 {
        '2'
    } else if d == 3 {
        '3'
    } else if d == 4 {
        '4'
    } else if d == 5 {
        '5'
    } else if d == 6 {
        '6'
    } else if d == 7 {
        '7'
    } else {
        if d == 8 {
            '8'
        } else {
            '9'
        }
    }
}

/// The decimal rendering of `n`, most significant digit first, no leading
/// zeros (a lone zero for zero).
pub open spec fn dec_digits(n: nat) -> Seq<char>
    decreases n,
{
    if n < 10 {
        seq![digit_char(n as int)]
    } else {
        dec_digits(n / 10).push(digit_char((n % 10) as int))
    }
}

/// Exactly six decimal digits rendering `n < 1_000_000`, zero padded.
pub open spec fn frac6(n: int) -> Seq<char> {
    seq![
        digit_char(n / 100_000 % 10),
        digit_char(n / 10_000 % 10),
        digit_char(n / 1_000 % 10),
        digit_char(n / 100 % 10),
        digit_char(n / 10 % 10),
        digit_char(n % 10),
    ]
}

/// A micro-unit value as a signed decimal: whole units, a point, then six
/// fractional digits.
pub open spec fn micro_chars(v: int) -> Seq<char> {
    let a = if v < 0 {
        -v
    } else {
        v
    };
    (if v < 0 {
        seq!['-']
    } else {
        Seq::<char>::empty()
    }) + dec_digits((a / 1_000_000) as nat) + seq!['.'] + frac6(a % 1_000_000)
}

/// How one character is escaped inside a JSON string: quotes and backslashes
/// get a backslash, everything else stands as itself.
pub open spec fn escape_one(c: char) -> Seq<char> {
    if c == '"' {
        seq!['\\', '"']
    } else if c == '\\' {
        seq!['\\', '\\']
    } else {
        seq![c]
    }
}

/// The escaped rendering of the first `k` characters of `s`.
pub open spec fn escaped_prefix(s: Seq<char>, k: int) -> Seq<char>
    decreases k,
{
    if k <= 0 {
        Seq::empty()
    } else {
        escaped_prefix(s, k - 1) + escape_one(s[k - 1])
    }
}

/// The escaped rendering of all of `s`.
pub open spec fn escaped_chars(s: Seq<char>) -> Seq<char> {
    escaped_prefix(s, s.len() as int)
}

/// A JSON string: the escaped text between quotes.
pub open spec fn json_string(s: Seq<char>) -> Seq<char> {
    seq!['"'] + escaped_chars(s) + seq!['"']
}

/// A JSON boolean.
pub open spec fn bool_chars(b: bool) -> Seq<char> {
    if b {
        "true"@
    } else {
        "false"@
    }
}

/// A point as a JSON object.
pub open spec fn coords_json(c: Coordinates) -> Seq<char> {
    "{\"x\":"@ + micro_chars(c.x as int) + ",\"y\":"@ + micro_chars(c.y as int) + "}"@
}

/// A rider as a JSON object, with the game's field names.
pub open spec fn rider_json(r: Rider) -> Seq<char> {
    "{\"startPosition\":"@ + coords_json(r.start_position) + ",\"startVelocity\":"@ + coords_json(
        r.start_velocity,
    ) + ",\"remountable\":"@ + dec_digits(r.remountable as nat) + "}"@
}

/// A layer as a JSON object.
pub open spec fn layer_json(l: Layer) -> Seq<char> {
    "{\"id\":"@ + dec_digits(l.id as nat) + ",\"name\":"@ + json_string(l.name@) + ",\"visible\":"@
        + bool_chars(l.visible) + ",\"editable\":"@ + bool_chars(l.editable) + "}"@
}

/// A committed or uncommitted line id: a number or `null`.
pub open spec fn opt_id_json(id: Option<usize>) -> Seq<char> {
    match id {
        Some(n) => dec_digits(n as nat),
        None => "null"@,
    }
}

/// A line as a JSON object; the line's kind is called `type` by the game.
pub open spec fn line_json(l: Line) -> Seq<char> {
    "{\"id\":"@ + opt_id_json(l.id) + ",\"type\":"@ + dec_digits(l.kind as nat) + ",\"x1\":"@
        + micro_chars(l.x1 as int) + ",\"y1\":"@ + micro_chars(l.y1 as int) + ",\"x2\":"@
        + micro_chars(l.x2 as int) + ",\"y2\":"@ + micro_chars(l.y2 as int) + ",\"flipped\":"@
        + bool_chars(l.flipped) + ",\"leftExtended\":"@ + bool_chars(l.left_extended)
        + ",\"rightExtended\":"@ + bool_chars(l.right_extended) + "}"@
}

/// The first `k` riders rendered with separating commas.
pub open spec fn riders_prefix(rs: Seq<Rider>, k: int) -> Seq<char>
    decreases k,
{
    if k <= 0 {
        Seq::empty()
    } else if k == 1 {
        rider_json(rs[0])
    } else {
        riders_prefix(rs, k - 1) + ","@ + rider_json(rs[k - 1])
    }
}

/// A rider sequence as a JSON array.
pub open spec fn riders_json(rs: Seq<Rider>) -> Seq<char> {
    "["@ + riders_prefix(rs, rs.len() as int) + "]"@
}

/// The first `k` layers rendered with separating commas.
pub open spec fn layers_prefix(ls: Seq<Layer>, k: int) -> Seq<char>
    decreases k,
{
    if k <= 0 {
        Seq::empty()
    } else if k == 1 {
        layer_json(ls[0])
    } else {
        layers_prefix(ls, k - 1) + ","@ + layer_json(ls[k - 1])
    }
}

/// A layer sequence as a JSON array.
pub open spec fn layers_json(ls: Seq<Layer>) -> Seq<char> {
    "["@ + layers_prefix(ls, ls.len() as int) + "]"@
}

/// The first `k` lines rendered with separating commas.
pub open spec fn lines_prefix(ls: Seq<Line>, k: int) -> Seq<char>
    decreases k,
{
    if k <= 0 {
        Seq::empty()
    } else if k == 1 {
        line_json(ls[0])
    } else {
        lines_prefix(ls, k - 1) + ","@ + line_json(ls[k - 1])
    }
}

/// A line sequence as a JSON array.
pub open spec fn lines_json(ls: Seq<Line>) -> Seq<char> {
    "["@ + lines_prefix(ls, ls.len() as int) + "]"@
}

/// Relies on String::push: appends exactly the one character.
#[verifier::external_body]
pub(crate) fn push_char(s: &mut String, c: char)
    ensures
        final(s)@ == old(s)@.push(c),
{
    s.push(c);
}

/// Relies on String::as_str: the slice reads back the same characters.
#[verifier::external_body]
pub(crate) fn str_of(s: &String) -> (r: &str)
    ensures
        r@ == s@,
{
    s.as_str()
}

fn digit_of(d: u64) -> (c: char)
    requires
        d < 10,
    ensures
        c == digit_char(d as int),
{
    if d == 0 {
        '0'
    } else if d == 1 {
        '1'
    } else if d == 2 {
        '2'
    } else if d == 3 {
        '3'
    } else if d == 4 {
        '4'
    } else if d == 5 {
        '5'
    } else if d == 6 {
        '6'
    } else if d == 7 {
        '7'
    } else {
        if d == 8 {
            '8'
        } else {
            '9'
        }
    }
}

pub(crate) fn append_dec(s: &mut String, n: u64)
    ensures
        final(s)@ == old(s)@ + dec_digits(n as nat),
    decreases n,
{
    if n >= 10 {
        append_dec(s, n / 10);
        let c = digit_of(n % 10);
        push_char(s, c);
        proof {
            assert(s@ =~= old(s)@ + dec_digits(n as nat));
        }
    } else {
        let c = digit_of(n);
        push_char(s, c);
        proof {
            assert(s@ =~= old(s)@ + dec_digits(n as nat));
        }
    }
}

pub(crate) fn append_micro(s: &mut String, v: i64)
    ensures
        final(s)@ == old(s)@ + micro_chars(v as int),
{
    let a: u64 = if v >= 0 {
        v as u64
    } else {
        (-(v as i128)) as u64
    };
    if v < 0 {
        push_char(s, '-');
    }
    append_dec(s, a / 1_000_000);
    push_char(s, '.');
    let f: u64 = a % 1_000_000;
    let c5 = digit_of((f / 100_000) % 10);
    push_char(s, c5);
    let c4 = digit_of((f / 10_000) % 10);
    push_char(s, c4);
    let c3 = digit_of((f / 1_000) % 10);
    push_char(s, c3);
    let c2 = digit_of((f / 100) % 10);
    push_char(s, c2);
    let c1 = digit_of((f / 10) % 10);
    push_char(s, c1);
    let c0 = digit_of(f % 10);
    push_char(s, c0);
    proof {
        assert(s@ =~= old(s)@ + micro_chars(v as int));
    }
}

pub(crate) fn append_escaped(s: &mut String, t: &str)
    ensures
        final(s)@ == old(s)@ + escaped_chars(t@),
{
    let n = t.unicode_len();
    let mut i: usize = 0;
    while i < n
        invariant
            n == t@.len(),
            i <= n,
            s@ == old(s)@ + escaped_prefix(t@, i as int),
        decreases n - i,
    {
        let c = t.get_char(i);
        if c == '"' {
            push_char(s, '\\');
            push_char(s, '"');
        } else if c == '\\' {
            push_char(s, '\\');
            push_char(s, '\\');
        } else {
            push_char(s, c);
        }
        proof {
            assert(s@ =~= old(s)@ + escaped_prefix(t@, i as int + 1));
        }
        i += 1;
    }
}

pub(crate) fn append_json_string(s: &mut String, t: &str)
    ensures
        final(s)@ == old(s)@ + json_string(t@),
{
    push_char(s, '"');
    append_escaped(s, t);
    push_char(s, '"');
    proof {
        assert(s@ =~= old(s)@ + json_string(t@));
    }
}

pub(crate) fn append_bool(s: &mut String, b: bool)
    ensures
        final(s)@ == old(s)@ + bool_chars(b),
{
    if b {
        s.append("true");
    } else {
        s.append("false");
    }
}

pub(crate) fn append_coords(s: &mut String, c: &Coordinates)
    ensures
        final(s)@ == old(s)@ + coords_json(*c),
{
    s.append("{\"x\":");
    append_micro(s, c.x);
    s.append(",\"y\":");
    append_micro(s, c.y);
    s.append("}");
    proof {
        assert(s@ =~= old(s)@ + coords_json(*c));
    }
}

pub(crate) fn append_rider(s: &mut String, r: &Rider)
    ensures
        final(s)@ == old(s)@ + rider_json(*r),
{
    s.append("{\"startPosition\":");
    append_coords(s, &r.start_position);
    s.append(",\"startVelocity\":");
    append_coords(s, &r.start_velocity);
    s.append(",\"remountable\":");
    append_dec(s, r.remountable as u64);
    s.append("}");
    proof {
        assert(s@ =~= old(s)@ + rider_json(*r));
    }
}

pub(crate) fn append_layer(s: &mut String, l: &Layer)
    ensures
        final(s)@ == old(s)@ + layer_json(*l),
{
    s.append("{\"id\":");
    append_dec(s, l.id as u64);
    s.append(",\"name\":");
    let name = str_of(&l.name);
    append_json_string(s, name);
    s.append(",\"visible\":");
    append_bool(s, l.visible);
    s.append(",\"editable\":");
    append_bool(s, l.editable);
    s.append("}");
    proof {
        assert(s@ =~= old(s)@ + layer_json(*l));
    }
}

#[verifier::rlimit(100)]
pub(crate) fn append_line(s: &mut String, l: &Line)
    ensures
        final(s)@ == old(s)@ + line_json(*l),
{
    s.append("{\"id\":");
    match l.id {
        Some(n) => append_dec(s, n as u64),
        None => s.append("null"),
    }
    s.append(",\"type\":");
    append_dec(s, l.kind as u64);
    s.append(",\"x1\":");
    append_micro(s, l.x1);
    s.append(",\"y1\":");
    append_micro(s, l.y1);
    s.append(",\"x2\":");
    append_micro(s, l.x2);
    s.append(",\"y2\":");
    append_micro(s, l.y2);
    s.append(",\"flipped\":");
    append_bool(s, l.flipped);
    s.append(",\"leftExtended\":");
    append_bool(s, l.left_extended);
    s.append(",\"rightExtended\":");
    append_bool(s, l.right_extended);
    s.append("}");
    proof {
        assert(s@ =~= old(s)@ + line_json(*l));
    }
}

#[verifier::rlimit(100)]
pub(crate) fn append_riders(s: &mut String, rs: &Vec<Rider>)
    ensures
        final(s)@ == old(s)@ + riders_json(rs@),
{
    s.append("[");
    let mut i: usize = 0;
    while i < rs.len()
        invariant
            i <= rs@.len(),
            s@ == old(s)@ + "["@ + riders_prefix(rs@, i as int),
        decreases rs@.len() - i,
    {
        if i > 0 {
            s.append(",");
        }
        let r = rs[i];
        append_rider(s, &r);
        proof {
            assert(s@ =~= old(s)@ + "["@ + riders_prefix(rs@, i as int + 1));
        }
        i += 1;
    }
    s.append("]");
    proof {
        assert(s@ =~= old(s)@ + riders_json(rs@));
    }
}

#[verifier::rlimit(100)]
pub(crate) fn append_layers(s: &mut String, ls: &Vec<Layer>)
    ensures
        final(s)@ == old(s)@ + layers_json(ls@),
{
    s.append("[");
    let mut i: usize = 0;
    while i < ls.len()
        invariant
            i <= ls@.len(),
            s@ == old(s)@ + "["@ + layers_prefix(ls@, i as int),
        decreases ls@.len() - i,
    {
        if i > 0 {
            s.append(",");
        }
        append_layer(s, &ls[i]);
        proof {
            assert(s@ =~= old(s)@ + "["@ + layers_prefix(ls@, i as int + 1));
        }
        i += 1;
    }
    s.append("]");
    proof {
        assert(s@ =~= old(s)@ + layers_json(ls@));
    }
}

#[verifier::rlimit(100)]
pub(crate) fn append_lines(s: &mut String, ls: &Vec<Line>)
    ensures
        final(s)@ == old(s)@ + lines_json(ls@),
{
    s.append("[");
    let mut i: usize = 0;
    while i < ls.len()
        invariant
            i <= ls@.len(),
            s@ == old(s)@ + "["@ + lines_prefix(ls@, i as int),
        decreases ls@.len() - i,
    {
        if i > 0 {
            s.append(",");
        }
        let l = ls[i];
        append_line(s, &l);
        proof {
            assert(s@ =~= old(s)@ + "["@ + lines_prefix(ls@, i as int + 1));
        }
        i += 1;
    }
    s.append("]");
    proof {
        assert(s@ =~= old(s)@ + lines_json(ls@));
    }
}

} // verus!
