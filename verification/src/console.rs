//! The line-command console: reading and reassigning the four unit
//! identifiers over a textual interface.
//!
//! The console transport (USB plumbing, line buffering, echo) lives outside
//! this crate and hands in one complete command line as bytes.  Two commands
//! exist: `get_units` reports the four identifiers, and `set_units[a,b,c,d]`
//! assigns four new ones, rejecting the line with a literal error text
//! unless it parses into exactly four decimal byte values that are pairwise
//! distinct.  A successful assignment resets every unit's registers.

use vstd::prelude::*;

use crate::dispatcher::ChargerBank;
use crate::ev_charger::{spec_with_id, EVCharger};

verus! {

/// Whether two byte spans hold the same bytes.
fn bytes_eq(a: &[u8], b: &[u8]) -> (r: bool)
    ensures
        r <==> a@ == b@,
{
    if a.len() != b.len() {
        return false;
    }
    let n = a.len();
    let mut i: usize = 0;
    while i < n
        invariant
            i <= n,
            n == a@.len(),
            n == b@.len(),
            forall|k: int| 0 <= k < i ==> a@[k] == b@[k],
        decreases n - i,
    {
        if a[i] != b[i] {
            return false;
        }
        i += 1;
    }
    proof {
        assert(a@ =~= b@);
    }
    true
}

/// Whether `a` begins with the bytes of `b`.
fn starts_with(a: &[u8], b: &[u8]) -> (r: bool)
    ensures
        r <==> (a@.len() >= b@.len() && a@.take(b@.len() as int) == b@),
{
    let nb = b.len();
    if a.len() < nb {
        return false;
    }
    let mut i: usize = 0;
    while i < nb
        invariant
            i <= nb,
            nb == b@.len(),
            a@.len() >= nb,
            forall|k: int| 0 <= k < i ==> a@[k] == b@[k],
        decreases nb - i,
    {
        if a[i] != b[i] {
            proof {
                assert(a@.take(nb as int)[i as int] == a@[i as int]);
            }
            return false;
        }
        i += 1;
    }
    proof {
        assert(a@.take(nb as int) =~= b@);
    }
    true
}

/// Whether a byte is a decimal digit.
pub open spec fn spec_is_digit(c: u8) -> bool {
    '0' as u8 <= c <= '9' as u8
}

/// Whether every byte of the span is a decimal digit.
pub open spec fn spec_all_digits(s: Seq<u8>) -> bool {
    forall|i: int| 0 <= i < s.len() ==> spec_is_digit(#[trigger] s[i])
}

/// The number a span of digits denotes.
pub open spec fn spec_digits_val(s: Seq<u8>) -> int
    recommends
        spec_all_digits(s),
    decreases s.len(),
{
    if s.len() == 0 {
        0
    } else {
        spec_digits_val(s.drop_last()) * 10 + (s.last() - ('0' as u8))
    }
}

/// What parsing a decimal byte value yields: the denoted number when the
/// span is non-empty, all digits, and the number fits in a byte; nothing
/// otherwise.
pub open spec fn spec_parse_u8(s: Seq<u8>) -> Option<u8> {
    if s.len() > 0 && spec_all_digits(s) && spec_digits_val(s) <= 255 {
        Some(spec_digits_val(s) as u8)
    } else {
        None
    }
}

/// Parses a span of decimal digits into a byte value.
pub fn parse_u8(s: &[u8]) -> (r: Option<u8>)
    ensures
        r == spec_parse_u8(s@),
{
    let n = s.len();
    if n == 0 {
        return None;
    }
    let mut value: u16 = 0;
    let mut over: bool = false;
    let mut i: usize = 0;
    while i < n
        invariant
            i <= n,
            n == s@.len(),
            spec_all_digits(s@.take(i as int)),
            !over ==> value == spec_digits_val(s@.take(i as int)) && value <= 255,
            over ==> spec_digits_val(s@.take(i as int)) > 255,
        decreases n - i,
    {
        let c = s[i];
        if c < '0' as u8 || c > '9' as u8 {
            proof {
                assert(!spec_is_digit(s@[i as int]));
            }
            return None;
        }
        let d = (c - ('0' as u8)) as u16;
        if !over {
            value = value * 10 + d;
            if value > 255 {
                over = true;
            }
        }
        i += 1;
        proof {
            assert(s@.take(i as int).drop_last() =~= s@.take(i as int - 1));
            assert(s@.take(i as int).last() == c);
        }
    }
    proof {
        assert(s@.take(n as int) =~= s@);
    }
    if over {
        None
    } else {
        Some(value as u8)
    }
}

/// The fields of a span split at every comma: one more field than there
/// are commas, in order, the commas themselves dropped.
pub open spec fn spec_split_commas(s: Seq<u8>) -> Seq<Seq<u8>>
    decreases s.len(),
{
    if s.len() == 0 {
        seq![Seq::<u8>::empty()]
    } else if s[0] == ',' as u8 {
        seq![Seq::<u8>::empty()] + spec_split_commas(s.drop_first())
    } else {
        let rest = spec_split_commas(s.drop_first());
        rest.update(0, seq![s[0]] + rest[0])
    }
}

/// Splitting always yields at least one field.
proof fn lemma_split_nonempty(s: Seq<u8>)
    ensures
        spec_split_commas(s).len() >= 1,
    decreases s.len(),
{
    if s.len() != 0 {
        lemma_split_nonempty(s.drop_first());
    }
}

/// Splits a span at every comma.
fn split_commas(s: &[u8]) -> (r: Vec<Vec<u8>>)
    ensures
        r@.len() == spec_split_commas(s@).len(),
        forall|k: int| 0 <= k < r@.len() ==> #[trigger] r@[k]@ == spec_split_commas(s@)[k],
{
    let n = s.len();
    let mut fields: Vec<Vec<u8>> = Vec::new();
    let mut cur: Vec<u8> = Vec::new();
    let ghost mut done: Seq<Seq<u8>> = Seq::empty();
    proof {
        lemma_split_nonempty(s@);
        assert(s@.skip(0) =~= s@);
        assert(Seq::<u8>::empty() + spec_split_commas(s@)[0] =~= spec_split_commas(s@)[0]);
        assert(done + spec_split_commas(s@).update(0, spec_split_commas(s@)[0]) =~~=
            spec_split_commas(s@));
    }
    let mut i: usize = 0;
    while i < n
        invariant
            i <= n,
            n == s@.len(),
            done.len() == fields@.len(),
            forall|k: int| 0 <= k < done.len() ==> #[trigger] fields@[k]@ == done[k],
            spec_split_commas(s@.skip(i as int)).len() >= 1,
            spec_split_commas(s@) =~~= done + spec_split_commas(s@.skip(i as int)).update(
                0,
                cur@ + spec_split_commas(s@.skip(i as int))[0],
            ),
        decreases n - i,
    {
        let ghost suffix = s@.skip(i as int);
        proof {
            assert(suffix.len() > 0);
            assert(suffix[0] == s@[i as int]);
            assert(suffix.drop_first() =~= s@.skip(i as int + 1));
            lemma_split_nonempty(s@.skip(i as int + 1));
        }
        let c = s[i];
        if c == ',' as u8 {
            fields.push(cur);
            cur = Vec::new();
            proof {
                done = done.push(fields@.last()@);
                assert(spec_split_commas(suffix) =~~= seq![Seq::<u8>::empty()]
                    + spec_split_commas(s@.skip(i as int + 1)));
            }
        } else {
            cur.push(c);
            proof {
                let rest = spec_split_commas(s@.skip(i as int + 1));
                assert(spec_split_commas(suffix) =~~= rest.update(0, seq![suffix[0]] + rest[0]));
            }
        }
        i += 1;
        proof {
            assert(spec_split_commas(s@) =~~= done + spec_split_commas(s@.skip(i as int)).update(
                0,
                cur@ + spec_split_commas(s@.skip(i as int))[0],
            ));
        }
    }
    proof {
        assert(s@.skip(n as int) =~= Seq::<u8>::empty());
        assert(spec_split_commas(Seq::<u8>::empty()) =~~= seq![Seq::<u8>::empty()]);
    }
    fields.push(cur);
    proof {
        assert(spec_split_commas(s@) =~~= done.push(cur@));
    }
    fields
}

/// A helper to read an optional parse result in specifications.
pub open spec fn spec_opt_byte(o: Option<u8>) -> u8 {
    match o {
        Some(v) => v,
        None => 0,
    }
}

/// What parsing a `set_units` argument list yields: four comma-separated
/// decimal byte values, or nothing when the field count, a digit or a
/// value range is off.
pub open spec fn spec_parse_ids(s: Seq<u8>) -> Option<Seq<u8>> {
    let fields = spec_split_commas(s);
    if fields.len() == 4 && spec_parse_u8(fields[0]) is Some && spec_parse_u8(fields[1]) is Some
        && spec_parse_u8(fields[2]) is Some && spec_parse_u8(fields[3]) is Some {
        Some(
            seq![
                spec_opt_byte(spec_parse_u8(fields[0])),
                spec_opt_byte(spec_parse_u8(fields[1])),
                spec_opt_byte(spec_parse_u8(fields[2])),
                spec_opt_byte(spec_parse_u8(fields[3])),
            ],
        )
    } else {
        None
    }
}

/// Parses a `set_units` argument list into four byte values.
fn parse_ids(s: &[u8]) -> (r: Option<[u8; 4]>)
    ensures
        (r is Some) <==> (spec_parse_ids(s@) is Some),
        r matches Some(ids) ==> spec_parse_ids(s@) == Some(ids@),
{
    let fields = split_commas(s);
    if fields.len() != 4 {
        return None;
    }
    let a = match parse_u8(fields[0].as_slice()) {
        Some(v) => v,
        None => {
            return None;
        },
    };
    let b = match parse_u8(fields[1].as_slice()) {
        Some(v) => v,
        None => {
            return None;
        },
    };
    let c = match parse_u8(fields[2].as_slice()) {
        Some(v) => v,
        None => {
            return None;
        },
    };
    let d = match parse_u8(fields[3].as_slice()) {
        Some(v) => v,
        None => {
            return None;
        },
    };
    let ids = [a, b, c, d];
    proof {
        assert(ids@ =~= spec_parse_ids(s@).unwrap());
    }
    Some(ids)
}

/// Whether four identifiers are pairwise distinct.
pub open spec fn spec_unique4(ids: Seq<u8>) -> bool
    recommends
        ids.len() == 4,
{
    ids[0] != ids[1] && ids[0] != ids[2] && ids[0] != ids[3] && ids[1] != ids[2] && ids[1]
        != ids[3] && ids[2] != ids[3]
}

/// Checks four identifiers for pairwise distinctness.
pub fn is_unique(ids: &[u8; 4]) -> (r: bool)
    ensures
        r <==> spec_unique4(ids@),
{
    ids[0] != ids[1] && ids[0] != ids[2] && ids[0] != ids[3] && ids[1] != ids[2] && ids[1]
        != ids[3] && ids[2] != ids[3]
}

/// The decimal text of a byte value, without leading zeros.
pub open spec fn spec_dec(v: u8) -> Seq<u8> {
    if v < 10 {
        seq![('0' as u8 + v) as u8]
    } else if v < 100 {
        seq![('0' as u8 + v / 10) as u8, ('0' as u8 + v % 10) as u8]
    } else {
        seq![
            ('0' as u8 + v / 100) as u8,
            ('0' as u8 + (v / 10) % 10) as u8,
            ('0' as u8 + v % 10) as u8,
        ]
    }
}

/// Appends the decimal text of a byte value.
fn push_dec(out: &mut Vec<u8>, v: u8)
    ensures
        final(out)@ == old(out)@ + spec_dec(v),
{
    proof {
        assert(v / 100 <= 2 && v / 10 <= 25 && (v / 10) % 10 <= 9 && v % 10 <= 9) by (bit_vector);
    }
    if v >= 100 {
        out.push('0' as u8 + v / 100);
    }
    if v >= 10 {
        out.push('0' as u8 + (v / 10) % 10);
    }
    out.push('0' as u8 + v % 10);
    proof {
        assert((v / 10) % 10 == v / 10 || v >= 100) by (bit_vector);
        assert(v % 10 == v || v >= 10) by (bit_vector);
        assert(out@ =~= old(out)@ + spec_dec(v));
    }
}

/// The console's report of the four identifiers:
/// `units[a, b, c, d]` and a line ending.
pub open spec fn spec_units_reply(a: u8, b: u8, c: u8, d: u8) -> Seq<u8> {
    seq!['u' as u8, 'n' as u8, 'i' as u8, 't' as u8, 's' as u8, '[' as u8] + spec_dec(a) + seq![
        ',' as u8,
        ' ' as u8,
    ] + spec_dec(b) + seq![',' as u8, ' ' as u8] + spec_dec(c) + seq![',' as u8, ' ' as u8]
        + spec_dec(d) + seq![']' as u8, '\r' as u8, '\n' as u8]
}

/// Renders the four current identifiers as the console report.
pub fn units_reply(chargers: &ChargerBank) -> (r: Vec<u8>)
    ensures
        r@ == spec_units_reply(
            chargers.units[0].unit_id,
            chargers.units[1].unit_id,
            chargers.units[2].unit_id,
            chargers.units[3].unit_id,
        ),
{
    let mut out: Vec<u8> = Vec::new();
    out.push('u' as u8);
    out.push('n' as u8);
    out.push('i' as u8);
    out.push('t' as u8);
    out.push('s' as u8);
    out.push('[' as u8);
    push_dec(&mut out, chargers.units[0].get_id());
    out.push(',' as u8);
    out.push(' ' as u8);
    push_dec(&mut out, chargers.units[1].get_id());
    out.push(',' as u8);
    out.push(' ' as u8);
    push_dec(&mut out, chargers.units[2].get_id());
    out.push(',' as u8);
    out.push(' ' as u8);
    push_dec(&mut out, chargers.units[3].get_id());
    out.push(']' as u8);
    out.push('\r' as u8);
    out.push('\n' as u8);
    proof {
        assert(out@ =~= spec_units_reply(
            chargers.units[0].unit_id,
            chargers.units[1].unit_id,
            chargers.units[2].unit_id,
            chargers.units[3].unit_id,
        ));
    }
    out
}

/// The `get_units` command.
pub open spec fn spec_get_units_cmd() -> Seq<u8> {
    seq![
        'g' as u8,
        'e' as u8,
        't' as u8,
        '_' as u8,
        'u' as u8,
        'n' as u8,
        'i' as u8,
        't' as u8,
        's' as u8,
    ]
}

/// The opening of the `set_units` command.
pub open spec fn spec_set_units_prefix() -> Seq<u8> {
    seq![
        's' as u8,
        'e' as u8,
        't' as u8,
        '_' as u8,
        'u' as u8,
        'n' as u8,
        'i' as u8,
        't' as u8,
        's' as u8,
        '[' as u8,
    ]
}

/// The error text a rejected `set_units` line gets back.
pub open spec fn spec_invalid_reply() -> Seq<u8> {
    seq![
        'I' as u8,
        'n' as u8,
        'v' as u8,
        'a' as u8,
        'l' as u8,
        'i' as u8,
        'd' as u8,
        '!' as u8,
        '\r' as u8,
        '\n' as u8,
        'S' as u8,
        'y' as u8,
        'n' as u8,
        't' as u8,
        'a' as u8,
        'x' as u8,
        ':' as u8,
        ' ' as u8,
        's' as u8,
        'e' as u8,
        't' as u8,
        '_' as u8,
        'u' as u8,
        'n' as u8,
        'i' as u8,
        't' as u8,
        's' as u8,
        '[' as u8,
        '1' as u8,
        ',' as u8,
        '2' as u8,
        ',' as u8,
        '3' as u8,
        ',' as u8,
        '4' as u8,
        ']' as u8,
    ]
}

/// Builds the error text a rejected `set_units` line gets back.
fn invalid_reply() -> (r: Vec<u8>)
    ensures
        r@ == spec_invalid_reply(),
{
    let mut out: Vec<u8> = Vec::new();
    out.push('I' as u8);
    out.push('n' as u8);
    out.push('v' as u8);
    out.push('a' as u8);
    out.push('l' as u8);
    out.push('i' as u8);
    out.push('d' as u8);
    out.push('!' as u8);
    out.push('\r' as u8);
    out.push('\n' as u8);
    out.push('S' as u8);
    out.push('y' as u8);
    out.push('n' as u8);
    out.push('t' as u8);
    out.push('a' as u8);
    out.push('x' as u8);
    out.push(':' as u8);
    out.push(' ' as u8);
    out.push('s' as u8);
    out.push('e' as u8);
    out.push('t' as u8);
    out.push('_' as u8);
    out.push('u' as u8);
    out.push('n' as u8);
    out.push('i' as u8);
    out.push('t' as u8);
    out.push('s' as u8);
    out.push('[' as u8);
    out.push('1' as u8);
    out.push(',' as u8);
    out.push('2' as u8);
    out.push(',' as u8);
    out.push('3' as u8);
    out.push(',' as u8);
    out.push('4' as u8);
    out.push(']' as u8);
    proof {
        assert(out@ =~= spec_invalid_reply());
    }
    out
}

/// The trailing closing brackets dropped, as `set_units` tolerates any
/// number of them.
pub open spec fn spec_strip_brackets(s: Seq<u8>) -> Seq<u8>
    decreases s.len(),
{
    if s.len() > 0 && s.last() == ']' as u8 {
        spec_strip_brackets(s.drop_last())
    } else {
        s
    }
}

/// The `set_units` argument span of a command line: everything between the
/// prefix and the trailing brackets.
pub open spec fn spec_set_units_arg(cmd: Seq<u8>) -> Seq<u8> {
    spec_strip_brackets(cmd.skip(10))
}

/// What the console answers to one command line: the identifier report for
/// `get_units`, the identifier report or the error text for `set_units`,
/// and nothing for anything else.
pub open spec fn spec_command_reply(cmd: Seq<u8>, b: ChargerBank) -> Option<Seq<u8>> {
    if cmd == spec_get_units_cmd() {
        Some(
            spec_units_reply(
                b.units[0].unit_id,
                b.units[1].unit_id,
                b.units[2].unit_id,
                b.units[3].unit_id,
            ),
        )
    } else if cmd.len() >= 10 && cmd.take(10) == spec_set_units_prefix() {
        match spec_parse_ids(spec_set_units_arg(cmd)) {
            Some(ids) => {
                if spec_unique4(ids) {
                    Some(spec_units_reply(ids[0], ids[1], ids[2], ids[3]))
                } else {
                    Some(spec_invalid_reply())
                }
            },
            None => Some(spec_invalid_reply()),
        }
    } else {
        None
    }
}

/// How one command line changes the bank: only a `set_units` line with
/// four distinct values does anything, reassigning the identifiers in
/// order and resetting every unit's registers.
pub open spec fn spec_command_units(cmd: Seq<u8>, units: Seq<EVCharger>) -> Seq<EVCharger>
    recommends
        units.len() == 4,
{
    if cmd.len() >= 10 && cmd.take(10) == spec_set_units_prefix() && !(cmd
        == spec_get_units_cmd()) {
        match spec_parse_ids(spec_set_units_arg(cmd)) {
            Some(ids) => {
                if spec_unique4(ids) {
                    seq![
                        spec_with_id(units[0], ids[0]),
                        spec_with_id(units[1], ids[1]),
                        spec_with_id(units[2], ids[2]),
                        spec_with_id(units[3], ids[3]),
                    ]
                } else {
                    units
                }
            },
            None => units,
        }
    } else {
        units
    }
}

/// No console command breaks the addressability of the bank: if the four
/// identifiers are pairwise distinct before a command, they stay pairwise
/// distinct after it — an unchanged bank keeps them, and an accepted
/// `set_units` line assigns only values it has checked for distinctness.
pub proof fn lemma_console_keeps_ids_unique(cmd: Seq<u8>, b: ChargerBank)
    requires
        forall|p: int, q: int|
            0 <= p < q < 4 ==> #[trigger] b.units[p].unit_id != #[trigger] b.units[q].unit_id,
    ensures
        ({
            let after = spec_command_units(cmd, b.units@);
            forall|p: int, q: int|
                0 <= p < q < 4 ==> #[trigger] after[p].unit_id != #[trigger] after[q].unit_id
        }),
{
}

/// Handles one console command line: `get_units` reports the identifiers;
/// `set_units[a,b,c,d]` assigns four distinct byte values, resetting the
/// units' registers, and reports the new identifiers, or answers the error
/// text when the list does not parse or holds a repeated value.  Any other
/// line is ignored.
pub fn process_command(command: &[u8], chargers: &mut ChargerBank) -> (r: Option<Vec<u8>>)
    ensures
        (r is Some) <==> (spec_command_reply(command@, *old(chargers)) is Some),
        r matches Some(reply) ==> Some(reply@) == spec_command_reply(command@, *old(chargers)),
        final(chargers).units@ == spec_command_units(command@, old(chargers).units@),
{
    let get_units_cmd = [
        'g' as u8,
        'e' as u8,
        't' as u8,
        '_' as u8,
        'u' as u8,
        'n' as u8,
        'i' as u8,
        't' as u8,
        's' as u8,
    ];
    proof {
        assert(get_units_cmd@ =~= spec_get_units_cmd());
    }
    if bytes_eq(command, &get_units_cmd) {
        return Some(units_reply(chargers));
    }

    let set_units_prefix = [
        's' as u8,
        'e' as u8,
        't' as u8,
        '_' as u8,
        'u' as u8,
        'n' as u8,
        'i' as u8,
        't' as u8,
        's' as u8,
        '[' as u8,
    ];
    proof {
        assert(set_units_prefix@ =~= spec_set_units_prefix());
    }
    if starts_with(command, &set_units_prefix) {
        let mut end = command.len();
        while end > 10 && command[end - 1] == ']' as u8
            invariant
                10 <= end <= command@.len(),
                spec_strip_brackets(command@.skip(10)) == spec_strip_brackets(
                    command@.subrange(10, end as int),
                ),
            decreases end,
        {
            proof {
                assert(command@.subrange(10, end as int).last() == command@[end - 1]);
                assert(command@.subrange(10, end as int).drop_last() =~= command@.subrange(
                    10,
                    end as int - 1,
                ));
            }
            end -= 1;
        }
        proof {
            if end == 10 {
                assert(command@.subrange(10, 10) =~= Seq::<u8>::empty());
            }
            assert(spec_strip_brackets(command@.subrange(10, end as int)) == command@.subrange(
                10,
                end as int,
            ));
        }

        let mut inner: Vec<u8> = Vec::new();
        let mut k: usize = 10;
        while k < end
            invariant
                10 <= k <= end <= command@.len(),
                inner@ =~= command@.subrange(10, k as int),
            decreases end - k,
        {
            inner.push(command[k]);
            k += 1;
            proof {
                assert(inner@ =~= command@.subrange(10, k as int));
            }
        }
        proof {
            assert(command@.skip(10) =~= command@.subrange(10, command@.len() as int));
            assert(inner@ == spec_set_units_arg(command@));
        }

        match parse_ids(inner.as_slice()) {
            Some(ids) => {
                if is_unique(&ids) {
                    let mut u = chargers.units[0];
                    u.set_id(ids[0]);
                    chargers.units[0] = u;
                    let mut u = chargers.units[1];
                    u.set_id(ids[1]);
                    chargers.units[1] = u;
                    let mut u = chargers.units[2];
                    u.set_id(ids[2]);
                    chargers.units[2] = u;
                    let mut u = chargers.units[3];
                    u.set_id(ids[3]);
                    chargers.units[3] = u;
                    proof {
                        assert(chargers.units@ =~= spec_command_units(
                            command@,
                            old(chargers).units@,
                        ));
                    }
                    return Some(units_reply(chargers));
                }
            },
            None => {},
        }
        return Some(invalid_reply());
    }

    None
}

} // verus!
