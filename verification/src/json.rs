//! A small JSON document model: a ghost tree for specifications, an
//! executable tree, and a verified serializer to wire bytes.

use vstd::prelude::*;
use vstd::string::StrSliceExecFns;
use vstd::utf8::encode_utf8;

verus! {

/// Ghost model of a JSON document.
///
/// `Int` is an integer number; `Centi` is a number held in hundredths of a
/// unit and rendered with two decimal places; `NumText` is a number kept in
/// its textual wire form (one that fits neither of the first two).
pub enum SpecJson {
    Null,
    Bool(bool),
    Int(int),
    Centi(int),
    Str(Seq<char>),
    NumText(Seq<char>),
    Arr(Seq<SpecJson>),
    Obj(Seq<(Seq<char>, SpecJson)>),
}

/// One key/value pair of a JSON object.
#[derive(Debug)]
pub struct Member {
    pub key: String,
    pub value: JsonValue,
}

/// Executable JSON document, mirroring [`SpecJson`].
#[derive(Debug)]
pub enum JsonValue {
    Null,
    Bool(bool),
    Int(i64),
    Centi(i64),
    Str(String),
    NumText(String),
    Arr(Vec<JsonValue>),
    Obj(Vec<Member>),
}

/// Ghost image of a sequence of JSON values.
pub open spec fn spec_value_seq(s: Seq<JsonValue>) -> Seq<SpecJson>
    decreases s,
{
    if s.len() == 0 {
        Seq::empty()
    } else {
        seq![s[0]@] + spec_value_seq(s.drop_first())
    }
}

/// Ghost image of a sequence of object members.
pub open spec fn spec_member_seq(s: Seq<Member>) -> Seq<(Seq<char>, SpecJson)>
    decreases s,
{
    if s.len() == 0 {
        Seq::empty()
    } else {
        seq![(s[0].key@, s[0].value@)] + spec_member_seq(s.drop_first())
    }
}

impl View for JsonValue {
    type V = SpecJson;

    open spec fn view(&self) -> SpecJson
        decreases self,
    {
        match self {
            JsonValue::Null => SpecJson::Null,
            JsonValue::Bool(b) => SpecJson::Bool(*b),
            JsonValue::Int(i) => SpecJson::Int(*i as int),
            JsonValue::Centi(c) => SpecJson::Centi(*c as int),
            JsonValue::Str(s) => SpecJson::Str(s@),
            JsonValue::NumText(s) => SpecJson::NumText(s@),
            JsonValue::Arr(a) => SpecJson::Arr(spec_value_seq(a@)),
            JsonValue::Obj(ms) => SpecJson::Obj(spec_member_seq(ms@)),
        }
    }
}

pub proof fn lemma_value_seq(s: Seq<JsonValue>)
    ensures
        spec_value_seq(s).len() == s.len(),
        forall|i: int| 0 <= i < s.len() ==> spec_value_seq(s)[i] == #[trigger] s[i]@,
    decreases s.len(),
{
    if s.len() > 0 {
        lemma_value_seq(s.drop_first());
        assert(spec_value_seq(s) == seq![s[0]@] + spec_value_seq(s.drop_first()));
        assert forall|i: int| 0 <= i < s.len() implies spec_value_seq(s)[i] == #[trigger] s[i]@ by {
            if i > 0 {
                assert(s.drop_first()[i - 1] == s[i]);
                assert(spec_value_seq(s)[i] == spec_value_seq(s.drop_first())[i - 1]);
            }
        }
    }
}

pub proof fn lemma_member_seq(s: Seq<Member>)
    ensures
        spec_member_seq(s).len() == s.len(),
        forall|i: int|
            0 <= i < s.len() ==> spec_member_seq(s)[i] == (#[trigger] s[i].key@, s[i].value@),
    decreases s.len(),
{
    if s.len() > 0 {
        lemma_member_seq(s.drop_first());
        assert(spec_member_seq(s) == seq![(s[0].key@, s[0].value@)] + spec_member_seq(s.drop_first()));
        assert forall|i: int|
            0 <= i < s.len() implies spec_member_seq(s)[i] == (#[trigger] s[i].key@, s[i].value@) by {
            if i > 0 {
                assert(s.drop_first()[i - 1] == s[i]);
                assert(spec_member_seq(s)[i] == spec_member_seq(s.drop_first())[i - 1]);
            }
        }
    }
}

proof fn lemma_value_seq_push(s: Seq<JsonValue>, x: JsonValue)
    ensures
        spec_value_seq(s.push(x)) == spec_value_seq(s).push(x@),
    decreases s.len(),
{
    let t = s.push(x);
    assert(spec_value_seq(t) == seq![t[0]@] + spec_value_seq(t.drop_first()));
    if s.len() == 0 {
        assert(t[0] == x);
        assert(t.drop_first() =~= Seq::<JsonValue>::empty());
        assert(spec_value_seq(t.drop_first()) == Seq::<SpecJson>::empty());
        assert(spec_value_seq(t) =~= spec_value_seq(s).push(x@));
    } else {
        assert(t[0] == s[0]);
        assert(t.drop_first() =~= s.drop_first().push(x));
        lemma_value_seq_push(s.drop_first(), x);
        assert(spec_value_seq(s) == seq![s[0]@] + spec_value_seq(s.drop_first()));
        assert(spec_value_seq(t) =~= spec_value_seq(s).push(x@));
    }
}

proof fn lemma_member_seq_push(s: Seq<Member>, x: Member)
    ensures
        spec_member_seq(s.push(x)) == spec_member_seq(s).push((x.key@, x.value@)),
    decreases s.len(),
{
    let t = s.push(x);
    assert(spec_member_seq(t) == seq![(t[0].key@, t[0].value@)] + spec_member_seq(
        t.drop_first(),
    ));
    if s.len() == 0 {
        assert(t[0] == x);
        assert(t.drop_first() =~= Seq::<Member>::empty());
        assert(spec_member_seq(t.drop_first()) == Seq::<(Seq<char>, SpecJson)>::empty());
        assert(spec_member_seq(t) =~= spec_member_seq(s).push((x.key@, x.value@)));
    } else {
        assert(t[0] == s[0]);
        assert(t.drop_first() =~= s.drop_first().push(x));
        lemma_member_seq_push(s.drop_first(), x);
        assert(spec_member_seq(s) == seq![(s[0].key@, s[0].value@)] + spec_member_seq(
            s.drop_first(),
        ));
        assert(spec_member_seq(t) =~= spec_member_seq(s).push((x.key@, x.value@)));
    }
}

/// How one byte of string content appears inside a JSON string literal.
pub open spec fn spec_escape_byte(b: u8) -> Seq<u8> {
    if b == 0x22 {
        seq![0x5c, 0x22]
    } else if b == 0x5c {
        seq![0x5c, 0x5c]
    } else if b == 0x08 {
        seq![0x5c, 0x62]
    } else if b == 0x0c {
        seq![0x5c, 0x66]
    } else if b == 0x0a {
        seq![0x5c, 0x6e]
    } else if b == 0x0d {
        seq![0x5c, 0x72]
    } else if b == 0x09 {
        seq![0x5c, 0x74]
    } else if b < 0x20 {
        seq![0x5c, 0x75, 0x30, 0x30, spec_hex_digit(b as int / 16), spec_hex_digit(b as int % 16)]
    } else {
        seq![b]
    }
}

/// Lower-case hexadecimal digit for a value from 0 to 15.
pub open spec fn spec_hex_digit(d: int) -> u8 {
    if d < 10 {
        (0x30 + d) as u8
    } else {
        (0x57 + d) as u8
    }
}

/// String content escaped byte for byte.
pub open spec fn spec_escaped(s: Seq<u8>) -> Seq<u8>
    decreases s.len(),
{
    if s.len() == 0 {
        Seq::empty()
    } else {
        spec_escape_byte(s[0]) + spec_escaped(s.drop_first())
    }
}

proof fn lemma_escaped_push(s: Seq<u8>, b: u8)
    ensures
        spec_escaped(s.push(b)) == spec_escaped(s) + spec_escape_byte(b),
    decreases s.len(),
{
    let t = s.push(b);
    assert(t.len() > 0 && t[0] == if s.len() == 0 { b } else { s[0] });
    assert(spec_escaped(t) == spec_escape_byte(t[0]) + spec_escaped(t.drop_first()));
    if s.len() == 0 {
        assert(t.drop_first() =~= Seq::<u8>::empty());
        assert(spec_escaped(t) =~= spec_escaped(s) + spec_escape_byte(b));
    } else {
        assert(t.drop_first() =~= s.drop_first().push(b));
        lemma_escaped_push(s.drop_first(), b);
        assert(spec_escaped(s) == spec_escape_byte(s[0]) + spec_escaped(s.drop_first()));
        assert(spec_escaped(t) =~= spec_escaped(s) + spec_escape_byte(b));
    }
}

/// A JSON string literal: quotes around the escaped UTF-8 bytes.
pub open spec fn spec_quoted(s: Seq<char>) -> Seq<u8> {
    seq![0x22u8] + spec_escaped(encode_utf8(s)) + seq![0x22u8]
}

/// Decimal digits of a natural number, most significant first.
pub open spec fn spec_udec(n: nat) -> Seq<u8>
    decreases n,
{
    if n < 10 {
        seq![(0x30 + n) as u8]
    } else {
        spec_udec(n / 10) + seq![(0x30 + n % 10) as u8]
    }
}

/// Decimal form of an integer, with a leading minus sign when negative.
pub open spec fn spec_idec(n: int) -> Seq<u8> {
    if n < 0 {
        seq![0x2du8] + spec_udec((-n) as nat)
    } else {
        spec_udec(n as nat)
    }
}

/// A value held in hundredths, rendered with two decimal places.
pub open spec fn spec_centi_text(n: int) -> Seq<u8> {
    let a = if n < 0 { -n } else { n };
    let sign: Seq<u8> = if n < 0 { seq![0x2du8] } else { Seq::empty() };
    sign + spec_udec((a / 100) as nat) + seq![0x2eu8, (0x30 + (a / 10) % 10) as u8, (0x30 + a % 10) as u8]
}

/// Wire bytes of a JSON document.
pub open spec fn spec_json_bytes(v: SpecJson) -> Seq<u8>
    decreases v, 2int,
{
    match v {
        SpecJson::Null => seq![0x6eu8, 0x75, 0x6c, 0x6c],
        SpecJson::Bool(b) => if b {
            seq![0x74u8, 0x72, 0x75, 0x65]
        } else {
            seq![0x66u8, 0x61, 0x6c, 0x73, 0x65]
        },
        SpecJson::Int(i) => spec_idec(i),
        SpecJson::Centi(c) => spec_centi_text(c),
        SpecJson::Str(s) => spec_quoted(s),
        SpecJson::NumText(s) => encode_utf8(s),
        SpecJson::Arr(a) => seq![0x5bu8] + spec_join_values(a) + seq![0x5du8],
        SpecJson::Obj(ms) => seq![0x7bu8] + spec_join_members(ms) + seq![0x7du8],
    }
}

/// Array elements joined with commas.
pub open spec fn spec_join_values(a: Seq<SpecJson>) -> Seq<u8>
    decreases a, 1int,
{
    if a.len() == 0 {
        Seq::empty()
    } else {
        spec_json_bytes(a[0]) + spec_join_values_tail(a.drop_first())
    }
}

pub open spec fn spec_join_values_tail(a: Seq<SpecJson>) -> Seq<u8>
    decreases a, 0int,
{
    if a.len() == 0 {
        Seq::empty()
    } else {
        seq![0x2cu8] + spec_json_bytes(a[0]) + spec_join_values_tail(a.drop_first())
    }
}

/// One object member: quoted key, colon, value.
pub open spec fn spec_member_bytes(m: (Seq<char>, SpecJson)) -> Seq<u8>
    decreases m, 0int,
{
    spec_quoted(m.0) + seq![0x3au8] + spec_json_bytes(m.1)
}

/// Object members joined with commas.
pub open spec fn spec_join_members(ms: Seq<(Seq<char>, SpecJson)>) -> Seq<u8>
    decreases ms, 1int,
{
    if ms.len() == 0 {
        Seq::empty()
    } else {
        spec_member_bytes(ms[0]) + spec_join_members_tail(ms.drop_first())
    }
}

pub open spec fn spec_join_members_tail(ms: Seq<(Seq<char>, SpecJson)>) -> Seq<u8>
    decreases ms, 0int,
{
    if ms.len() == 0 {
        Seq::empty()
    } else {
        seq![0x2cu8] + spec_member_bytes(ms[0]) + spec_join_members_tail(ms.drop_first())
    }
}

proof fn lemma_join_values_push(a: Seq<SpecJson>, x: SpecJson)
    ensures
        spec_join_values(a.push(x)) == if a.len() == 0 {
            spec_json_bytes(x)
        } else {
            spec_join_values(a) + seq![0x2cu8] + spec_json_bytes(x)
        },
    decreases a.len(),
{
    let t = a.push(x);
    assert(spec_join_values(t) == spec_json_bytes(t[0]) + spec_join_values_tail(t.drop_first()));
    if a.len() == 0 {
        assert(t[0] == x);
        assert(t.drop_first() =~= Seq::<SpecJson>::empty());
        assert(spec_join_values_tail(t.drop_first()) == Seq::<u8>::empty());
        assert(spec_join_values(t) =~= spec_json_bytes(x));
    } else {
        assert(t.drop_first() =~= a.drop_first().push(x));
        assert(t[0] == a[0]);
        lemma_join_values_tail_push(a.drop_first(), x);
        assert(spec_join_values(a) == spec_json_bytes(a[0]) + spec_join_values_tail(
            a.drop_first(),
        ));
        assert(spec_join_values(t) =~= spec_join_values(a) + seq![0x2cu8] + spec_json_bytes(x));
    }
}

proof fn lemma_join_values_tail_push(a: Seq<SpecJson>, x: SpecJson)
    ensures
        spec_join_values_tail(a.push(x)) == spec_join_values_tail(a) + seq![0x2cu8]
            + spec_json_bytes(x),
    decreases a.len(),
{
    let t = a.push(x);
    assert(spec_join_values_tail(t) == seq![0x2cu8] + spec_json_bytes(t[0])
        + spec_join_values_tail(t.drop_first()));
    if a.len() == 0 {
        assert(t[0] == x);
        assert(t.drop_first() =~= Seq::<SpecJson>::empty());
        assert(spec_join_values_tail(t.drop_first()) == Seq::<u8>::empty());
        assert(spec_join_values_tail(t) =~= spec_join_values_tail(a) + seq![0x2cu8]
            + spec_json_bytes(x));
    } else {
        assert(t.drop_first() =~= a.drop_first().push(x));
        assert(t[0] == a[0]);
        lemma_join_values_tail_push(a.drop_first(), x);
        assert(spec_join_values_tail(a) == seq![0x2cu8] + spec_json_bytes(a[0])
            + spec_join_values_tail(a.drop_first()));
        assert(spec_join_values_tail(t) =~= spec_join_values_tail(a) + seq![0x2cu8]
            + spec_json_bytes(x));
    }
}

proof fn lemma_join_members_push(ms: Seq<(Seq<char>, SpecJson)>, x: (Seq<char>, SpecJson))
    ensures
        spec_join_members(ms.push(x)) == if ms.len() == 0 {
            spec_member_bytes(x)
        } else {
            spec_join_members(ms) + seq![0x2cu8] + spec_member_bytes(x)
        },
    decreases ms.len(),
{
    let t = ms.push(x);
    assert(spec_join_members(t) == spec_member_bytes(t[0]) + spec_join_members_tail(
        t.drop_first(),
    ));
    if ms.len() == 0 {
        assert(t[0] == x);
        assert(t.drop_first() =~= Seq::<(Seq<char>, SpecJson)>::empty());
        assert(spec_join_members_tail(t.drop_first()) == Seq::<u8>::empty());
        assert(spec_join_members(t) =~= spec_member_bytes(x));
    } else {
        assert(t.drop_first() =~= ms.drop_first().push(x));
        assert(t[0] == ms[0]);
        lemma_join_members_tail_push(ms.drop_first(), x);
        assert(spec_join_members(ms) == spec_member_bytes(ms[0]) + spec_join_members_tail(
            ms.drop_first(),
        ));
        assert(spec_join_members(t) =~= spec_join_members(ms) + seq![0x2cu8]
            + spec_member_bytes(x));
    }
}

proof fn lemma_join_members_tail_push(ms: Seq<(Seq<char>, SpecJson)>, x: (Seq<char>, SpecJson))
    ensures
        spec_join_members_tail(ms.push(x)) == spec_join_members_tail(ms) + seq![0x2cu8]
            + spec_member_bytes(x),
    decreases ms.len(),
{
    let t = ms.push(x);
    assert(spec_join_members_tail(t) == seq![0x2cu8] + spec_member_bytes(t[0])
        + spec_join_members_tail(t.drop_first()));
    if ms.len() == 0 {
        assert(t[0] == x);
        assert(t.drop_first() =~= Seq::<(Seq<char>, SpecJson)>::empty());
        assert(spec_join_members_tail(t.drop_first()) == Seq::<u8>::empty());
        assert(spec_join_members_tail(t) =~= spec_join_members_tail(ms) + seq![0x2cu8]
            + spec_member_bytes(x));
    } else {
        assert(t.drop_first() =~= ms.drop_first().push(x));
        assert(t[0] == ms[0]);
        lemma_join_members_tail_push(ms.drop_first(), x);
        assert(spec_join_members_tail(ms) == seq![0x2cu8] + spec_member_bytes(ms[0])
            + spec_join_members_tail(ms.drop_first()));
        assert(spec_join_members_tail(t) =~= spec_join_members_tail(ms) + seq![0x2cu8]
            + spec_member_bytes(x));
    }
}

/// Appends the decimal digits of `n` to `out`.
fn push_udec(n: u64, out: &mut Vec<u8>)
    ensures
        final(out)@ == old(out)@ + spec_udec(n as nat),
    decreases n,
{
    if n < 10 {
        out.push(0x30 + n as u8);
        assert(out@ =~= old(out)@ + spec_udec(n as nat));
    } else {
        push_udec(n / 10, out);
        out.push(0x30 + (n % 10) as u8);
        assert(out@ =~= old(out)@ + spec_udec(n as nat));
    }
}

/// Appends the escaped form of the string-content byte `b` to `out`.
fn push_escaped_byte(b: u8, out: &mut Vec<u8>)
    ensures
        final(out)@ == old(out)@ + spec_escape_byte(b),
{
    if b == 0x22 {
        out.push(0x5c);
        out.push(0x22);
    } else if b == 0x5c {
        out.push(0x5c);
        out.push(0x5c);
    } else if b == 0x08 {
        out.push(0x5c);
        out.push(0x62);
    } else if b == 0x0c {
        out.push(0x5c);
        out.push(0x66);
    } else if b == 0x0a {
        out.push(0x5c);
        out.push(0x6e);
    } else if b == 0x0d {
        out.push(0x5c);
        out.push(0x72);
    } else if b == 0x09 {
        out.push(0x5c);
        out.push(0x74);
    } else if b < 0x20 {
        out.push(0x5c);
        out.push(0x75);
        out.push(0x30);
        out.push(0x30);
        out.push(push_hex_digit(b / 16));
        out.push(push_hex_digit(b % 16));
    } else {
        out.push(b);
    }
    assert(out@ =~= old(out)@ + spec_escape_byte(b));
}

fn push_hex_digit(d: u8) -> (r: u8)
    requires
        d < 16,
    ensures
        r == spec_hex_digit(d as int),
{
    if d < 10 {
        0x30 + d
    } else {
        0x57 + d
    }
}

/// Appends a JSON string literal holding the contents of `s` to `out`.
fn push_quoted(s: &str, out: &mut Vec<u8>)
    ensures
        final(out)@ == old(out)@ + spec_quoted(s@),
{
    out.push(0x22);
    let bs = s.as_bytes_vec();
    let ghost mid = out@;
    let mut i: usize = 0;
    while i < bs.len()
        invariant
            i <= bs.len(),
            bs@ == encode_utf8(s@),
            out@ == mid + spec_escaped(bs@.take(i as int)),
        decreases bs.len() - i,
    {
        proof {
            assert(bs@.take(i as int + 1) =~= bs@.take(i as int).push(bs@[i as int]));
            lemma_escaped_push(bs@.take(i as int), bs@[i as int]);
        }
        push_escaped_byte(bs[i], out);
        i = i + 1;
    }
    assert(bs@.take(bs@.len() as int) =~= bs@);
    out.push(0x22);
    assert(out@ =~= old(out)@ + spec_quoted(s@));
}

impl JsonValue {
    /// Appends the wire bytes of this document to `out`.
    #[verifier::loop_isolation(false)]
    #[verifier::rlimit(60)]
    pub fn write_bytes(&self, out: &mut Vec<u8>)
        ensures
            final(out)@ == old(out)@ + spec_json_bytes(self@),
        decreases self,
    {
        match self {
            JsonValue::Null => {
                out.push(0x6e);
                out.push(0x75);
                out.push(0x6c);
                out.push(0x6c);
                assert(out@ =~= old(out)@ + spec_json_bytes(self@));
            },
            JsonValue::Bool(b) => {
                if *b {
                    out.push(0x74);
                    out.push(0x72);
                    out.push(0x75);
                    out.push(0x65);
                } else {
                    out.push(0x66);
                    out.push(0x61);
                    out.push(0x6c);
                    out.push(0x73);
                    out.push(0x65);
                }
                assert(out@ =~= old(out)@ + spec_json_bytes(self@));
            },
            JsonValue::Int(i) => {
                if *i < 0 {
                    out.push(0x2d);
                    let wide: i128 = *i as i128;
                    let mag: u64 = (-wide) as u64;
                    assert(mag as nat == (-(*i as int)) as nat);
                    push_udec(mag, out);
                } else {
                    push_udec(*i as u64, out);
                }
                assert(out@ =~= old(out)@ + spec_json_bytes(self@));
            },
            JsonValue::Centi(c) => {
                if *c < 0 {
                    out.push(0x2d);
                }
                let wide: i128 = *c as i128;
                let mag: u64 = if *c < 0 {
                    (-wide) as u64
                } else {
                    *c as u64
                };
                push_udec(mag / 100, out);
                out.push(0x2e);
                out.push(0x30 + ((mag / 10) % 10) as u8);
                out.push(0x30 + (mag % 10) as u8);
                assert(out@ =~= old(out)@ + spec_json_bytes(self@));
            },
            JsonValue::Str(s) => {
                push_quoted(s.as_str(), out);
            },
            JsonValue::NumText(s) => {
                let mut bs = s.as_str().as_bytes_vec();
                out.append(&mut bs);
                assert(out@ =~= old(out)@ + spec_json_bytes(self@));
            },
            JsonValue::Arr(a) => {
                out.push(0x5b);
                let ghost mid = out@;
                let mut i: usize = 0;
                while i < a.len()
                    invariant
                        i <= a.len(),
                        out@ == mid + spec_join_values(spec_value_seq(a@.take(i as int))),
                    decreases a.len() - i,
                {
                    proof {
                        lemma_value_seq(a@.take(i as int));
                        assert(a@.take(i as int + 1) =~= a@.take(i as int).push(a@[i as int]));
                        lemma_value_seq_push(a@.take(i as int), a@[i as int]);
                        lemma_join_values_push(
                            spec_value_seq(a@.take(i as int)),
                            a@[i as int]@,
                        );
                    }
                    if i > 0 {
                        out.push(0x2c);
                    }
                    let elem = &a[i];
                    proof {
                        assert(*elem == a@[i as int]);
                        assert(*self == JsonValue::Arr(*a));
                        assert(*a == self->Arr_0);
                        assert(decreases_to!(*self => self->Arr_0));
                        assert(decreases_to!(*a => a@));
                        assert(decreases_to!(a@ => a@[i as int]));
                    }
                    elem.write_bytes(out);
                    i = i + 1;
                    assert(out@ =~= mid + spec_join_values(spec_value_seq(a@.take(i as int))));
                }
                assert(a@.take(a@.len() as int) =~= a@);
                out.push(0x5d);
                assert(out@ =~= old(out)@ + spec_json_bytes(self@));
            },
            JsonValue::Obj(ms) => {
                out.push(0x7b);
                let ghost mid = out@;
                let mut i: usize = 0;
                while i < ms.len()
                    invariant
                        i <= ms.len(),
                        out@ == mid + spec_join_members(spec_member_seq(ms@.take(i as int))),
                    decreases ms.len() - i,
                {
                    proof {
                        lemma_member_seq(ms@.take(i as int));
                        assert(ms@.take(i as int + 1) =~= ms@.take(i as int).push(ms@[i as int]));
                        lemma_member_seq_push(ms@.take(i as int), ms@[i as int]);
                        lemma_join_members_push(
                            spec_member_seq(ms@.take(i as int)),
                            (ms@[i as int].key@, ms@[i as int].value@),
                        );
                    }
                    if i > 0 {
                        out.push(0x2c);
                    }
                    let m = &ms[i];
                    push_quoted(m.key.as_str(), out);
                    proof {
                        assert(*m == ms@[i as int]);
                        assert(*self == JsonValue::Obj(*ms));
                        assert(*ms == self->Obj_0);
                        assert(decreases_to!(*self => self->Obj_0));
                        assert(decreases_to!(*ms => ms@));
                        assert(decreases_to!(ms@ => ms@[i as int]));
                    }
                    out.push(0x3a);
                    m.value.write_bytes(out);
                    i = i + 1;
                    assert(out@ =~= mid + spec_join_members(spec_member_seq(ms@.take(i as int))));
                }
                assert(ms@.take(ms@.len() as int) =~= ms@);
                out.push(0x7d);
                assert(out@ =~= old(out)@ + spec_json_bytes(self@));
            },
        }
    }

    /// The wire bytes of this document.
    pub fn to_bytes(&self) -> (r: Vec<u8>)
        ensures
            r@ == spec_json_bytes(self@),
    {
        let mut out: Vec<u8> = Vec::new();
        self.write_bytes(&mut out);
        out
    }
}

/// Appends the member `key: value` to an object under construction.
pub fn obj_push(ms: &mut Vec<Member>, key: &str, value: JsonValue)
    ensures
        spec_member_seq(final(ms)@) == spec_member_seq(old(ms)@).push((key@, value@)),
{
    let ghost prior = ms@;
    let ghost v = value@;
    let m = Member { key: key.to_owned(), value };
    ms.push(m);
    proof {
        assert(ms@ =~= prior.push(Member { key: m.key, value: m.value }));
        lemma_member_seq_push(prior, m);
        assert(spec_member_seq(ms@) =~= spec_member_seq(prior).push((key@, v)));
    }
}

/// Appends an element to an array under construction.
pub fn arr_push(a: &mut Vec<JsonValue>, value: JsonValue)
    ensures
        spec_value_seq(final(a)@) == spec_value_seq(old(a)@).push(value@),
{
    let ghost prior = a@;
    let ghost v = value@;
    a.push(value);
    proof {
        lemma_value_seq_push(prior, a@[a@.len() - 1]);
        assert(a@ =~= prior.push(a@[a@.len() - 1]));
        assert(spec_value_seq(a@) =~= spec_value_seq(prior).push(v));
    }
}


} // verus!
