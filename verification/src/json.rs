//! The outbound half of the wire codec: a JSON document assembled by the
//! library and rendered to its exact transmission text.
//!
//! `json_text` is the specification of the rendering: every frame the
//! gateway transmits is proved to be exactly this text.

use vstd::prelude::*;
use vstd::string::StrSliceExecFns;
use vstd::string::StringExecFns;

verus! {

/// A JSON document the gateway builds for transmission.
///
/// Numbers are integers only: every field of the wire protocol is an
/// integer, a string, a boolean, an array or an object.
pub enum JsonValue {
    Null,
    Bool(bool),
    Int(i64),
    Str(String),
    Arr(Vec<JsonValue>),
    Obj(Vec<(String, JsonValue)>),
}

/// The decimal digit character for `n` in 0..=9.
pub open spec fn digit_char(n: int) -> char {
    if n == 0 {
        '0'
    } else if n == 1 {
        '1'
    } else if n == 2 {
        '2'
    } else if n == 3 {
        '3'
    } else if n == 4 {
        '4'
    } else if n == 5 {
        '5'
    } else if n == 6 {
        '6'
    } else if n == 7 {
        '7'
    } else if n == 8 {
        '8'
    } else {
        '9'
    }
}

/// The lower-case hexadecimal digit character for `n` in 0..=15.
pub open spec fn hex_digit(n: int) -> char {
    if n < 10 {
        digit_char(n)
    } else if n == 10 {
        'a'
    } else if n == 11 {
        'b'
    } else if n == 12 {
        'c'
    } else if n == 13 {
        'd'
    } else if n == 14 {
        'e'
    } else {
        'f'
    }
}

/// The decimal digits of `n`, most significant first.
pub open spec fn dec_digits(n: nat) -> Seq<char>
    decreases n,
{
    if n < 10 {
        seq![digit_char(n as int)]
    } else {
        dec_digits(n / 10).push(digit_char((n % 10) as int))
    }
}

/// The decimal text of an integer, with a leading minus sign if negative.
pub open spec fn int_text(i: int) -> Seq<char> {
    if i < 0 {
        seq!['-'] + dec_digits((-i) as nat)
    } else {
        dec_digits(i as nat)
    }
}

/// The text of a JSON boolean.
pub open spec fn bool_text(b: bool) -> Seq<char> {
    if b {
        seq!['t', 'r', 'u', 'e']
    } else {
        seq!['f', 'a', 'l', 's', 'e']
    }
}

/// The text of the JSON null.
pub open spec fn null_text() -> Seq<char> {
    seq!['n', 'u', 'l', 'l']
}

/// The escape of one character inside a JSON string: quote and backslash
/// are escaped, control characters take their short form or `\u00xx`.
pub open spec fn esc_char(c: char) -> Seq<char> {
    if c == '"' {
        seq!['\\', '"']
    } else if c == '\\' {
        seq!['\\', '\\']
    } else if c == '\u{08}' {
        seq!['\\', 'b']
    } else if c == '\t' {
        seq!['\\', 't']
    } else if c == '\n' {
        seq!['\\', 'n']
    } else if c == '\u{0c}' {
        seq!['\\', 'f']
    } else if c == '\r' {
        seq!['\\', 'r']
    } else if (c as u32) < 0x20 {
        seq!['\\', 'u', '0', '0', hex_digit((c as u32) as int / 16), hex_digit((c as u32) as int % 16)]
    } else {
        seq![c]
    }
}

/// The escaped body of a JSON string.
pub open spec fn esc_text(s: Seq<char>) -> Seq<char>
    decreases s.len(),
{
    if s.len() == 0 {
        Seq::empty()
    } else {
        esc_text(s.drop_last()) + esc_char(s.last())
    }
}

/// A JSON string literal: quoted and escaped.
pub open spec fn str_text(s: Seq<char>) -> Seq<char> {
    seq!['"'] + esc_text(s) + seq!['"']
}

/// The exact text of a rendered JSON document.
pub open spec fn json_text(v: JsonValue) -> Seq<char>
    decreases v, 0int,
{
    match v {
        JsonValue::Null => null_text(),
        JsonValue::Bool(b) => bool_text(b),
        JsonValue::Int(i) => int_text(i as int),
        JsonValue::Str(s) => str_text(s@),
        JsonValue::Arr(a) => seq!['['] + arr_text_from(a@, 0) + seq![']'],
        JsonValue::Obj(ps) => seq!['{'] + obj_text_from(ps@, 0) + seq!['}'],
    }
}

/// The comma-separated rendering of the elements of `s` from index `i` on.
pub open spec fn arr_text_from(s: Seq<JsonValue>, i: int) -> Seq<char>
    decreases s, s.len() - i,
{
    if i < 0 || i >= s.len() {
        Seq::empty()
    } else if i == s.len() - 1 {
        json_text(s[i])
    } else {
        json_text(s[i]) + seq![','] + arr_text_from(s, i + 1)
    }
}

/// The comma-separated rendering of the key/value pairs of `ps` from
/// index `i` on.
pub open spec fn obj_text_from(ps: Seq<(String, JsonValue)>, i: int) -> Seq<char>
    decreases ps, ps.len() - i,
{
    if i < 0 || i >= ps.len() {
        Seq::empty()
    } else if i == ps.len() - 1 {
        pair_text(ps[i])
    } else {
        pair_text(ps[i]) + seq![','] + obj_text_from(ps, i + 1)
    }
}

/// One `"key":value` pair of a JSON object.
pub open spec fn pair_text(p: (String, JsonValue)) -> Seq<char>
    decreases p, 0int,
{
    str_text(p.0@) + seq![':'] + json_text(p.1)
}

/// Relies on `String::push`: appends exactly one character.
#[verifier::external_body]
fn push_char(s: &mut String, c: char)
    ensures
        final(s)@ == old(s)@.push(c),
{
    s.push(c);
}

/// The decimal digit character for `d` in 0..=9.
fn digit_char_exec(d: u8) -> (c: char)
    requires
        d < 10,
    ensures
        c == digit_char(d as int),
{
    if d == 0 {
        '0'
    } else if d == 1 {
        '1'
    } else if d == 2 {
        '2'
    } else if d == 3 {
        '3'
    } else if d == 4 {
        '4'
    } else if d == 5 {
        '5'
    } else if d == 6 {
        '6'
    } else if d == 7 {
        '7'
    } else if d == 8 {
        '8'
    } else {
        '9'
    }
}

/// The lower-case hexadecimal digit character for `d` in 0..=15.
fn hex_digit_exec(d: u8) -> (c: char)
    requires
        d < 16,
    ensures
        c == hex_digit(d as int),
{
    if d < 10 {
        digit_char_exec(d)
    } else if d == 10 {
        'a'
    } else if d == 11 {
        'b'
    } else if d == 12 {
        'c'
    } else if d == 13 {
        'd'
    } else if d == 14 {
        'e'
    } else {
        'f'
    }
}

/// Appends the decimal digits of `n` to `out`.
fn write_u64(n: u64, out: &mut String)
    ensures
        final(out)@ == old(out)@ + dec_digits(n as nat),
    decreases n,
{
    if n < 10 {
        push_char(out, digit_char_exec(n as u8));
    } else {
        write_u64(n / 10, out);
        push_char(out, digit_char_exec((n % 10) as u8));
    }
}

/// Appends the decimal text of `n`, minus sign included, to `out`.
fn write_i64(n: i64, out: &mut String)
    ensures
        final(out)@ == old(out)@ + int_text(n as int),
{
    if n < 0 {
        push_char(out, '-');
        let mag: u64 = if n == i64::MIN {
            9223372036854775808u64
        } else {
            (-n) as u64
        };
        assert(mag == -(n as int));
        write_u64(mag, out);
        assert(final(out)@ =~= old(out)@ + int_text(n as int));
    } else {
        write_u64(n as u64, out);
    }
}

/// Appends the escape of one string character to `out`.
fn write_escaped_char(c: char, out: &mut String)
    ensures
        final(out)@ == old(out)@ + esc_char(c),
{
    if c == '"' {
        push_char(out, '\\');
        push_char(out, '"');
        assert(final(out)@ =~= old(out)@ + esc_char(c));
    } else if c == '\\' {
        push_char(out, '\\');
        push_char(out, '\\');
        assert(final(out)@ =~= old(out)@ + esc_char(c));
    } else if c == '\u{08}' {
        push_char(out, '\\');
        push_char(out, 'b');
        assert(final(out)@ =~= old(out)@ + esc_char(c));
    } else if c == '\t' {
        push_char(out, '\\');
        push_char(out, 't');
        assert(final(out)@ =~= old(out)@ + esc_char(c));
    } else if c == '\n' {
        push_char(out, '\\');
        push_char(out, 'n');
        assert(final(out)@ =~= old(out)@ + esc_char(c));
    } else if c == '\u{0c}' {
        push_char(out, '\\');
        push_char(out, 'f');
        assert(final(out)@ =~= old(out)@ + esc_char(c));
    } else if c == '\r' {
        push_char(out, '\\');
        push_char(out, 'r');
        assert(final(out)@ =~= old(out)@ + esc_char(c));
    } else if (c as u32) < 0x20 {
        let code = c as u32;
        push_char(out, '\\');
        push_char(out, 'u');
        push_char(out, '0');
        push_char(out, '0');
        push_char(out, hex_digit_exec((code / 16) as u8));
        push_char(out, hex_digit_exec((code % 16) as u8));
        assert(final(out)@ =~= old(out)@ + esc_char(c));
    } else {
        push_char(out, c);
        assert(final(out)@ =~= old(out)@ + esc_char(c));
    }
}

/// Appends the quoted, escaped rendering of `s` to `out`.
fn write_str(s: &str, out: &mut String)
    ensures
        final(out)@ == old(out)@ + str_text(s@),
{
    push_char(out, '"');
    let n = s.unicode_len();
    let mut i: usize = 0;
    while i < n
        invariant
            n == s@.len(),
            i <= n,
            out@ == old(out)@.push('"') + esc_text(s@.take(i as int)),
        decreases n - i,
    {
        let c = s.get_char(i);
        write_escaped_char(c, out);
        proof {
            assert(s@.take(i + 1).drop_last() =~= s@.take(i as int));
            assert(s@.take(i + 1).last() == s@[i as int]);
        }
        i = i + 1;
    }
    proof {
        assert(s@.take(n as int) =~= s@);
    }
    push_char(out, '"');
    assert(final(out)@ =~= old(out)@ + str_text(s@));
}

/// Appends the rendering of `v` to `out`.
fn write_json(v: &JsonValue, out: &mut String)
    ensures
        final(out)@ == old(out)@ + json_text(*v),
    decreases *v, 1int,
{
    match v {
        JsonValue::Null => {
            proof {
                reveal_strlit("null");
            }
            out.append("null");
            assert(final(out)@ =~= old(out)@ + json_text(*v));
        },
        JsonValue::Bool(b) => {
            if *b {
                proof {
                    reveal_strlit("true");
                }
                out.append("true");
                assert(final(out)@ =~= old(out)@ + json_text(*v));
            } else {
                proof {
                    reveal_strlit("false");
                }
                out.append("false");
                assert(final(out)@ =~= old(out)@ + json_text(*v));
            }
        },
        JsonValue::Int(i) => {
            write_i64(*i, out);
        },
        JsonValue::Str(s) => {
            write_str(s.as_str(), out);
        },
        JsonValue::Arr(a) => {
            push_char(out, '[');
            write_arr_from(a, 0, out);
            push_char(out, ']');
            assert(final(out)@ =~= old(out)@ + json_text(*v));
        },
        JsonValue::Obj(ps) => {
            push_char(out, '{');
            write_obj_from(ps, 0, out);
            push_char(out, '}');
            assert(final(out)@ =~= old(out)@ + json_text(*v));
        },
    }
}

/// Appends the comma-separated elements of `elems` from `i` on to `out`.
fn write_arr_from(elems: &Vec<JsonValue>, i: usize, out: &mut String)
    requires
        i <= elems@.len(),
    ensures
        final(out)@ == old(out)@ + arr_text_from(elems@, i as int),
    decreases elems@, elems@.len() - i, 2int,
{
    if i < elems.len() {
        proof {
            assert(decreases_to!(elems@ => elems@[i as int]));
        }
        write_json(&elems[i], out);
        if i + 1 < elems.len() {
            push_char(out, ',');
            write_arr_from(elems, i + 1, out);
            assert(final(out)@ =~= old(out)@ + arr_text_from(elems@, i as int));
        } else {
            assert(final(out)@ =~= old(out)@ + arr_text_from(elems@, i as int));
        }
    } else {
        assert(final(out)@ =~= old(out)@ + arr_text_from(elems@, i as int));
    }
}

/// Appends the comma-separated pairs of `ps` from `i` on to `out`.
fn write_obj_from(ps: &Vec<(String, JsonValue)>, i: usize, out: &mut String)
    requires
        i <= ps@.len(),
    ensures
        final(out)@ == old(out)@ + obj_text_from(ps@, i as int),
    decreases ps@, ps@.len() - i, 2int,
{
    if i < ps.len() {
        let (k, v) = &ps[i];
        assert(k@ == ps@[i as int].0@);
        assert(*v == ps@[i as int].1);
        write_str(k.as_str(), out);
        push_char(out, ':');
        proof {
            assert(decreases_to!(ps@ => ps@[i as int]));
            assert(decreases_to!(ps@[i as int] => ps@[i as int].1));
        }
        write_json(v, out);
        proof {
            assert(pair_text(ps@[i as int]) =~= str_text(ps@[i as int].0@) + seq![':']
                + json_text(ps@[i as int].1));
        }
        if i + 1 < ps.len() {
            push_char(out, ',');
            write_obj_from(ps, i + 1, out);
            assert(final(out)@ =~= old(out)@ + obj_text_from(ps@, i as int));
        } else {
            assert(final(out)@ =~= old(out)@ + obj_text_from(ps@, i as int));
        }
    } else {
        assert(final(out)@ =~= old(out)@ + obj_text_from(ps@, i as int));
    }
}

/// Renders `v` to its exact JSON transmission text.
pub fn render(v: &JsonValue) -> (s: String)
    ensures
        s@ == json_text(*v),
{
    let mut out = String::new();
    write_json(v, &mut out);
    out
}

/// The decimal text of an unsigned count as a string.
pub fn uint_to_string(n: u64) -> (s: String)
    ensures
        s@ == dec_digits(n as nat),
{
    let mut out = String::new();
    write_u64(n, &mut out);
    out
}

/// The decimal text of `n` as a string.
pub fn int_to_string(n: i64) -> (s: String)
    ensures
        s@ == int_text(n as int),
{
    let mut out = String::new();
    write_i64(n, &mut out);
    out
}

/// One object field rendered with a leading comma: `,"k":v`. An object's
/// text is its fields in this form with the first comma dropped.
pub open spec fn fld(k: Seq<char>, vtext: Seq<char>) -> Seq<char> {
    seq![','] + str_text(k) + seq![':'] + vtext
}

/// A string-valued field with a leading comma.
pub open spec fn fld_str(k: Seq<char>, s: Seq<char>) -> Seq<char> {
    fld(k, str_text(s))
}

/// An integer-valued field with a leading comma.
pub open spec fn fld_int(k: Seq<char>, i: int) -> Seq<char> {
    fld(k, int_text(i))
}

/// An optional string field: present fields carry their leading comma,
/// absent ones render as nothing.
pub open spec fn opt_fld_str(k: Seq<char>, o: Option<String>) -> Seq<char> {
    match o {
        Some(s) => fld_str(k, s@),
        None => Seq::empty(),
    }
}

/// An optional boolean field.
pub open spec fn opt_fld_bool(k: Seq<char>, o: Option<bool>) -> Seq<char> {
    match o {
        Some(b) => fld(k, bool_text(b)),
        None => Seq::empty(),
    }
}

/// An optional integer field.
pub open spec fn opt_fld_u32(k: Seq<char>, o: Option<u32>) -> Seq<char> {
    match o {
        Some(n) => fld(k, int_text(n as int)),
        None => Seq::empty(),
    }
}

/// The text of an object whose fields, commas leading, concatenate to
/// `fields`.
pub open spec fn obj_of_fields(fields: Seq<char>) -> Seq<char> {
    if fields.len() == 0 {
        seq!['{', '}']
    } else {
        seq!['{'] + fields.drop_first() + seq!['}']
    }
}

/// The pairs `ps` render exactly as the comma-led field text `fields`.
pub open spec fn fields_inv(ps: Seq<(String, JsonValue)>, fields: Seq<char>) -> bool {
    &&& obj_text_from(ps, 0) == if fields.len() == 0 {
        Seq::<char>::empty()
    } else {
        fields.drop_first()
    }
    &&& (ps.len() == 0 <==> fields.len() == 0)
    &&& (fields.len() > 0 ==> fields[0] == ',')
}

/// Appending a pair appends its field text after a comma.
pub proof fn lemma_obj_push_from(ps: Seq<(String, JsonValue)>, p: (String, JsonValue), i: int)
    requires
        0 <= i <= ps.len(),
    ensures
        obj_text_from(ps.push(p), i) == if i == ps.len() {
            pair_text(p)
        } else {
            obj_text_from(ps, i) + seq![','] + pair_text(p)
        },
    decreases ps.len() - i,
{
    if i == ps.len() {
        assert(ps.push(p)[i] == p);
    } else {
        lemma_obj_push_from(ps, p, i + 1);
        assert(ps.push(p)[i] == ps[i]);
        if i == ps.len() - 1 {
            assert(obj_text_from(ps.push(p), i) =~= obj_text_from(ps, i) + seq![',']
                + pair_text(p));
        } else {
            assert(obj_text_from(ps.push(p), i) =~= obj_text_from(ps, i) + seq![',']
                + pair_text(p));
        }
    }
}

/// Appending an element appends its text after a comma.
pub proof fn lemma_arr_push_from(s: Seq<JsonValue>, v: JsonValue, i: int)
    requires
        0 <= i <= s.len(),
    ensures
        arr_text_from(s.push(v), i) == if i == s.len() {
            json_text(v)
        } else {
            arr_text_from(s, i) + seq![','] + json_text(v)
        },
    decreases s.len() - i,
{
    if i == s.len() {
        assert(s.push(v)[i] == v);
    } else {
        lemma_arr_push_from(s, v, i + 1);
        assert(s.push(v)[i] == s[i]);
        if i == s.len() - 1 {
            assert(arr_text_from(s.push(v), i) =~= arr_text_from(s, i) + seq![','] + json_text(v));
        } else {
            assert(arr_text_from(s.push(v), i) =~= arr_text_from(s, i) + seq![','] + json_text(v));
        }
    }
}

/// Adds the field `k: v` to an object under construction, tracking the
/// comma-led field text built so far.
pub fn push_field(ps: &mut Vec<(String, JsonValue)>, k: &str, v: JsonValue, fields: Ghost<
    Seq<char>,
>) -> (r: Ghost<Seq<char>>)
    requires
        fields_inv(old(ps)@, fields@),
    ensures
        fields_inv(final(ps)@, r@),
        r@ == fields@ + fld(k@, json_text(v)),
{
    let ghost vtext = json_text(v);
    let key: String = k.to_owned();
    ps.push((key, v));
    proof {
        lemma_obj_push_from(old(ps)@, final(ps)@.last(), 0);
        let f2 = fields@ + fld(k@, vtext);
        assert(pair_text(final(ps)@.last()) =~= str_text(k@) + seq![':'] + vtext);
        if old(ps)@.len() == 0 {
            assert(obj_text_from(final(ps)@, 0) =~= f2.drop_first());
        } else {
            assert(obj_text_from(final(ps)@, 0) =~= f2.drop_first());
        }
    }
    Ghost(fields@ + fld(k@, json_text(v)))
}

/// The object with exactly the pairs built so far.
pub fn obj_json(ps: Vec<(String, JsonValue)>, fields: Ghost<Seq<char>>) -> (r: JsonValue)
    requires
        fields_inv(ps@, fields@),
    ensures
        json_text(r) == obj_of_fields(fields@),
{
    let r = JsonValue::Obj(ps);
    proof {
        if fields@.len() == 0 {
            assert(json_text(r) =~= obj_of_fields(fields@));
        } else {
            assert(json_text(r) =~= obj_of_fields(fields@));
        }
    }
    r
}

} // verus!
