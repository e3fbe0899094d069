//! The structured values carried by requests and responses, and the JSON
//! text they are encoded to on the wire.

use vstd::prelude::*;

verus! {

/// A structured value: what a request's variables map to and what an
/// execution's `data` holds. Numbers outside `i64` (including fractional
/// ones) are carried as their decimal lexeme in `Num`, emitted verbatim.
pub enum JsonVal {
    Null,
    Bool(bool),
    Int(i64),
    Num(String),
    Text(String),
    Arr(Vec<JsonVal>),
    Obj(Vec<(String, JsonVal)>),
}

/// The decimal digit character for `d` (`d < 10`).
pub open spec fn digit_char(d: nat) -> char {
    if d == 0 { '0' } else if d == 1 { '1' } else if d == 2 { '2' }
    else if d == 3 { '3' } else if d == 4 { '4' } else if d == 5 { '5' }
    else if d == 6 { '6' } else if d == 7 { '7' } else if d == 8 { '8' }
    else { '9' }
}

/// The decimal digits of `n`, most significant first.
pub open spec fn dec_digits(n: nat) -> Seq<char>
    decreases n,
{
    if n < 10 {
        seq![digit_char(n)]
    } else {
        dec_digits(n / 10) + seq![digit_char(n % 10)]
    }
}

/// The decimal rendering of `i`, with a leading `-` when negative.
pub open spec fn int_lexeme(i: int) -> Seq<char> {
    if i < 0 {
        seq!['-'] + dec_digits((-i) as nat)
    } else {
        dec_digits(i as nat)
    }
}

/// How one character of a string is written inside JSON quotes.
pub open spec fn esc_char(c: char) -> Seq<char> {
    if c == '"' {
        seq!['\\', '"']
    } else if c == '\\' {
        seq!['\\', '\\']
    } else if c == '\n' {
        seq!['\\', 'n']
    } else if c == '\r' {
        seq!['\\', 'r']
    } else if c == '\t' {
        seq!['\\', 't']
    } else if (c as u32) < 32 {
        seq!['\\', 'u', '0', '0',
             digit_char((c as u32 / 16) as nat),
             hex_char((c as u32 % 16) as nat)]
    } else {
        seq![c]
    }
}

/// The lowercase hexadecimal digit character for `d` (`d < 16`).
pub open spec fn hex_char(d: nat) -> char {
    if d < 10 { digit_char(d) }
    else if d == 10 { 'a' } else if d == 11 { 'b' } else if d == 12 { 'c' }
    else if d == 13 { 'd' } else if d == 14 { 'e' } else { 'f' }
}

/// The escaped form of `s` from index `i` on.
pub open spec fn esc_from(s: Seq<char>, i: int) -> Seq<char>
    decreases s.len() - i,
{
    if i < 0 || i >= s.len() {
        Seq::empty()
    } else {
        esc_char(s[i]) + esc_from(s, i + 1)
    }
}

/// A string as JSON text: quoted and escaped.
pub open spec fn str_json(s: Seq<char>) -> Seq<char> {
    seq!['"'] + esc_from(s, 0) + seq!['"']
}

/// The JSON text of `v`.
pub open spec fn json_text(v: JsonVal) -> Seq<char>
    decreases v,
{
    match v {
        JsonVal::Null => seq!['n', 'u', 'l', 'l'],
        JsonVal::Bool(b) => if b {
            seq!['t', 'r', 'u', 'e']
        } else {
            seq!['f', 'a', 'l', 's', 'e']
        },
        JsonVal::Int(i) => int_lexeme(i as int),
        JsonVal::Num(s) => s@,
        JsonVal::Text(s) => str_json(s@),
        JsonVal::Arr(items) => seq!['['] + arr_items_text(items, 0) + seq![']'],
        JsonVal::Obj(fields) => seq!['{'] + obj_fields_text(fields, 0) + seq!['}'],
    }
}

/// The comma-separated JSON texts of `items[i..]`.
pub open spec fn arr_items_text(items: Vec<JsonVal>, i: int) -> Seq<char>
    decreases items, items.len() - i,
{
    if i < 0 || i >= items.len() {
        Seq::empty()
    } else {
        json_text(items[i]) + if i + 1 < items.len() {
            seq![','] + arr_items_text(items, i + 1)
        } else {
            Seq::<char>::empty()
        }
    }
}

/// The comma-separated `"key":value` JSON texts of `fields[i..]`.
pub open spec fn obj_fields_text(fields: Vec<(String, JsonVal)>, i: int) -> Seq<char>
    decreases fields, fields.len() - i,
{
    if i < 0 || i >= fields.len() {
        Seq::empty()
    } else {
        str_json(fields[i].0@) + seq![':'] + json_text(fields[i].1) + if i + 1 < fields.len() {
            seq![','] + obj_fields_text(fields, i + 1)
        } else {
            Seq::<char>::empty()
        }
    }
}

/// A character that may appear in a number lexeme.
pub open spec fn num_char(c: char) -> bool {
    ('0' <= c && c <= '9') || c == '-' || c == '+' || c == '.' || c == 'e' || c == 'E'
}

/// A plausible JSON number lexeme: non-empty, over the number alphabet,
/// opening with a digit or a minus sign.
pub open spec fn is_num_lexeme(s: Seq<char>) -> bool {
    &&& s.len() > 0
    &&& forall|i: int| 0 <= i < s.len() ==> num_char(#[trigger] s[i])
    &&& (('0' <= s[0] && s[0] <= '9') || s[0] == '-')
}

/// Every `Num` lexeme inside `v` is plausible; encoding a value that fails
/// this could emit text that is not JSON, so the encoder's public entry
/// reports such a value instead of emitting it.
pub open spec fn wf_json(v: JsonVal) -> bool
    decreases v,
{
    match v {
        JsonVal::Num(s) => is_num_lexeme(s@),
        JsonVal::Arr(items) => forall|i: int|
            0 <= i < items.len() ==> wf_json(#[trigger] items[i]),
        JsonVal::Obj(fields) => forall|i: int|
            0 <= i < fields.len() ==> wf_json(#[trigger] fields[i].1),
        _ => true,
    }
}

/// Appends the decimal digits of `n` to `out`.
fn push_dec(n: u64, out: &mut Vec<char>)
    ensures
        final(out)@ == old(out)@ + dec_digits(n as nat),
    decreases n,
{
    if n < 10 {
        let d: u64 = n;
        out.push(dec_digit_exec(d));
    } else {
        push_dec(n / 10, out);
        out.push(dec_digit_exec(n % 10));
    }
}

/// The decimal digit character for `d < 10`, computed.
fn dec_digit_exec(d: u64) -> (c: char)
    requires
        d < 10,
    ensures
        c == digit_char(d as nat),
{
    if d == 0 { '0' } else if d == 1 { '1' } else if d == 2 { '2' }
    else if d == 3 { '3' } else if d == 4 { '4' } else if d == 5 { '5' }
    else if d == 6 { '6' } else if d == 7 { '7' } else if d == 8 { '8' }
    else { '9' }
}

/// The lowercase hexadecimal digit character for `d < 16`, computed.
fn hex_digit_exec(d: u64) -> (c: char)
    requires
        d < 16,
    ensures
        c == hex_char(d as nat),
{
    if d < 10 { dec_digit_exec(d) }
    else if d == 10 { 'a' } else if d == 11 { 'b' } else if d == 12 { 'c' }
    else if d == 13 { 'd' } else if d == 14 { 'e' } else { 'f' }
}

/// Appends the decimal rendering of `i` to `out`.
fn push_int(i: i64, out: &mut Vec<char>)
    ensures
        final(out)@ == old(out)@ + int_lexeme(i as int),
{
    if i >= 0 {
        push_dec(i as u64, out);
    } else {
        out.push('-');
        let m: u64 = ((-(i + 1)) as u64) + 1;
        assert(m as nat == (-(i as int)) as nat);
        push_dec(m, out);
        assert(final(out)@ =~= old(out)@ + int_lexeme(i as int));
    }
}

/// Appends `esc_char(c)` to `out`.
fn push_esc_char(c: char, out: &mut Vec<char>)
    ensures
        final(out)@ == old(out)@ + esc_char(c),
{
    if c == '"' {
        out.push('\\');
        out.push('"');
    } else if c == '\\' {
        out.push('\\');
        out.push('\\');
    } else if c == '\n' {
        out.push('\\');
        out.push('n');
    } else if c == '\r' {
        out.push('\\');
        out.push('r');
    } else if c == '\t' {
        out.push('\\');
        out.push('t');
    } else if (c as u32) < 32 {
        let cu: u32 = c as u32;
        out.push('\\');
        out.push('u');
        out.push('0');
        out.push('0');
        out.push(dec_digit_exec((cu / 16) as u64));
        out.push(hex_digit_exec((cu % 16) as u64));
    } else {
        out.push(c);
    }
    assert(final(out)@ =~= old(out)@ + esc_char(c));
}

/// Appends the escaped form of `s[i..]` to `out`.
fn push_escaped(s: &str, i: usize, out: &mut Vec<char>)
    ensures
        final(out)@ == old(out)@ + esc_from(s@, i as int),
    decreases s@.len() - i,
{
    let len: usize = s.unicode_len();
    if i < len {
        let c: char = s.get_char(i);
        push_esc_char(c, out);
        push_escaped(s, i + 1, out);
        assert(final(out)@ =~= old(out)@ + esc_from(s@, i as int));
    }
}

/// Appends `str_json(s@)` to `out`: the quoted, escaped string.
pub(crate) fn push_str_json(s: &str, out: &mut Vec<char>)
    ensures
        final(out)@ == old(out)@ + str_json(s@),
{
    out.push('"');
    push_escaped(s, 0, out);
    out.push('"');
    assert(final(out)@ =~= old(out)@ + str_json(s@));
}

/// Appends the JSON text of `v` to `out`.
pub(crate) fn push_json(v: &JsonVal, out: &mut Vec<char>)
    ensures
        final(out)@ == old(out)@ + json_text(*v),
    decreases *v,
{
    match v {
        JsonVal::Null => {
            out.push('n');
            out.push('u');
            out.push('l');
            out.push('l');
            assert(final(out)@ =~= old(out)@ + json_text(*v));
        },
        JsonVal::Bool(b) => {
            if *b {
                out.push('t');
                out.push('r');
                out.push('u');
                out.push('e');
            } else {
                out.push('f');
                out.push('a');
                out.push('l');
                out.push('s');
                out.push('e');
            }
            assert(final(out)@ =~= old(out)@ + json_text(*v));
        },
        JsonVal::Int(i) => {
            push_int(*i, out);
        },
        JsonVal::Num(s) => {
            push_verbatim(s.as_str(), out);
        },
        JsonVal::Text(s) => {
            push_str_json(s.as_str(), out);
        },
        JsonVal::Arr(items) => {
            out.push('[');
            push_arr_items(items, 0, out);
            out.push(']');
            assert(final(out)@ =~= old(out)@ + json_text(*v));
        },
        JsonVal::Obj(fields) => {
            out.push('{');
            push_obj_fields(fields, 0, out);
            out.push('}');
            assert(final(out)@ =~= old(out)@ + json_text(*v));
        },
    }
}

/// Appends the characters of `s` unchanged to `out`.
pub(crate) fn push_verbatim(s: &str, out: &mut Vec<char>)
    ensures
        final(out)@ == old(out)@ + s@,
{
    let len: usize = s.unicode_len();
    let mut i: usize = 0;
    while i < len
        invariant
            i <= len,
            len == s@.len(),
            out@ == old(out)@ + s@.take(i as int),
        decreases len - i,
    {
        let c: char = s.get_char(i);
        out.push(c);
        assert(out@ =~= old(out)@ + s@.take(i + 1 as int));
        i = i + 1;
    }
    assert(final(out)@ =~= old(out)@ + s@);
}

/// Appends the comma-separated JSON texts of `items[i..]` to `out`.
fn push_arr_items(items: &Vec<JsonVal>, i: usize, out: &mut Vec<char>)
    ensures
        final(out)@ == old(out)@ + arr_items_text(*items, i as int),
    decreases *items, items.len() - i,
{
    if i < items.len() {
        push_json(&items[i], out);
        if i + 1 < items.len() {
            out.push(',');
            push_arr_items(items, i + 1, out);
        }
        assert(final(out)@ =~= old(out)@ + arr_items_text(*items, i as int));
    }
}

/// Appends the comma-separated `"key":value` texts of `fields[i..]` to `out`.
fn push_obj_fields(fields: &Vec<(String, JsonVal)>, i: usize, out: &mut Vec<char>)
    ensures
        final(out)@ == old(out)@ + obj_fields_text(*fields, i as int),
    decreases *fields, fields.len() - i,
{
    if i < fields.len() {
        push_str_json(fields[i].0.as_str(), out);
        out.push(':');
        push_json(&fields[i].1, out);
        if i + 1 < fields.len() {
            out.push(',');
            push_obj_fields(fields, i + 1, out);
        }
        assert(final(out)@ =~= old(out)@ + obj_fields_text(*fields, i as int));
    }
}

/// Relies on `String`'s `FromIterator<char>` impl: collecting characters
/// yields the string of exactly those characters, in order.
#[verifier::external_body]
pub(crate) fn string_from_chars(chars: &Vec<char>) -> (r: String)
    ensures
        r@ == chars@,
{
    chars.iter().collect()
}

/// Appends the decimal rendering of `n` to `out`.
pub(crate) fn push_u32(n: u32, out: &mut Vec<char>)
    ensures
        final(out)@ == old(out)@ + int_lexeme(n as int),
{
    push_dec(n as u64, out);
}

/// The JSON text of `v`, as a `String`.
pub fn to_json_string(v: &JsonVal) -> (r: String)
    ensures
        r@ == json_text(*v),
{
    let mut out: Vec<char> = Vec::new();
    push_json(v, &mut out);
    assert(out@ =~= json_text(*v));
    string_from_chars(&out)
}

/// Decides `is_num_lexeme(s@)`.
fn num_lexeme_check(s: &str) -> (r: bool)
    ensures
        r == is_num_lexeme(s@),
{
    let len: usize = s.unicode_len();
    if len == 0 {
        return false;
    }
    let first: char = s.get_char(0);
    if !(('0' <= first && first <= '9') || first == '-') {
        return false;
    }
    let mut i: usize = 0;
    while i < len
        invariant
            i <= len,
            len == s@.len(),
            forall|j: int| 0 <= j < i ==> num_char(#[trigger] s@[j]),
        decreases len - i,
    {
        let c: char = s.get_char(i);
        if !(('0' <= c && c <= '9') || c == '-' || c == '+' || c == '.' || c == 'e' || c == 'E') {
            return false;
        }
        i = i + 1;
    }
    true
}

/// Decides `wf_json(*v)`.
pub fn wf_check(v: &JsonVal) -> (r: bool)
    ensures
        r == wf_json(*v),
    decreases *v,
{
    match v {
        JsonVal::Num(s) => num_lexeme_check(s.as_str()),
        JsonVal::Arr(items) => wf_check_arr(items, 0),
        JsonVal::Obj(fields) => wf_check_obj(fields, 0),
        _ => true,
    }
}

/// Decides well-formedness of all of `items[i..]`.
fn wf_check_arr(items: &Vec<JsonVal>, i: usize) -> (r: bool)
    ensures
        r == (forall|j: int| i <= j < items.len() ==> wf_json(#[trigger] items[j])),
    decreases *items, items.len() - i,
{
    if i < items.len() {
        if !wf_check(&items[i]) {
            false
        } else {
            wf_check_arr(items, i + 1)
        }
    } else {
        true
    }
}

/// Decides well-formedness of the values of all of `fields[i..]`.
fn wf_check_obj(fields: &Vec<(String, JsonVal)>, i: usize) -> (r: bool)
    ensures
        r == (forall|j: int| i <= j < fields.len() ==> wf_json(#[trigger] fields[j].1)),
    decreases *fields, fields.len() - i,
{
    if i < fields.len() {
        if !wf_check(&fields[i].1) {
            false
        } else {
            wf_check_obj(fields, i + 1)
        }
    } else {
        true
    }
}

} // verus!
