//! JSON documents and their serialization.
//!
//! Handlers that answer with JSON carry a [`JsonValue`]. Its mathematical
//! model is [`JsonModel`], where strings are character sequences and
//! integers are unbounded; [`json_text`] says, at the model level, exactly
//! what text a document serializes to, and [`JsonValue::to_json_string`]
//! is proved to produce that text.

use vstd::prelude::*;
use vstd::string::StrSliceExecFns;

verus! {

/// A JSON document: the subset of JSON this library's handlers emit.
/// Numbers are 64-bit integers; object members keep insertion order.
#[derive(Debug)]
pub enum JsonValue {
    Null,
    Bool(bool),
    Int(i64),
    Str(String),
    Arr(Vec<JsonValue>),
    Obj(Vec<(String, JsonValue)>),
}

/// The mathematical model of a JSON document: strings are character
/// sequences, integers are unbounded, and the collections are sequences.
#[verifier::ext_equal]
pub enum JsonModel {
    Null,
    Bool(bool),
    Int(int),
    Str(Seq<char>),
    Arr(Seq<JsonModel>),
    Obj(Seq<(Seq<char>, JsonModel)>),
}

/// The model of one object member.
pub open spec fn jmodel_member(p: (String, JsonValue)) -> (Seq<char>, JsonModel)
    decreases p, 0int,
{
    (p.0@, jmodel(p.1))
}

/// The models of the first `k` elements of `items`, in order.
pub open spec fn jmodel_items(items: Vec<JsonValue>, k: int) -> Seq<JsonModel>
    decreases items, k,
    when k <= items@.len()
{
    if k <= 0 {
        Seq::empty()
    } else {
        jmodel_items(items, k - 1).push(jmodel(items[k - 1]))
    }
}

/// The models of the first `k` members of `pairs`, in order.
pub open spec fn jmodel_members(pairs: Vec<(String, JsonValue)>, k: int) -> Seq<
    (Seq<char>, JsonModel),
>
    decreases pairs, k,
    when k <= pairs@.len()
{
    if k <= 0 {
        Seq::empty()
    } else {
        jmodel_members(pairs, k - 1).push(jmodel_member(pairs[k - 1]))
    }
}

/// The model of a document.
pub open spec fn jmodel(v: JsonValue) -> JsonModel
    decreases v, 0int,
{
    match v {
        JsonValue::Null => JsonModel::Null,
        JsonValue::Bool(b) => JsonModel::Bool(b),
        JsonValue::Int(i) => JsonModel::Int(i as int),
        JsonValue::Str(s) => JsonModel::Str(s@),
        JsonValue::Arr(items) => JsonModel::Arr(jmodel_items(items, items@.len() as int)),
        JsonValue::Obj(pairs) => JsonModel::Obj(jmodel_members(pairs, pairs@.len() as int)),
    }
}

impl View for JsonValue {
    type V = JsonModel;

    open spec fn view(&self) -> JsonModel {
        jmodel(*self)
    }
}

pub proof fn lemma_jmodel_items_props(items: Vec<JsonValue>, k: int)
    requires
        0 <= k <= items@.len(),
    ensures
        jmodel_items(items, k).len() == k,
        forall|j: int| 0 <= j < k ==> jmodel_items(items, k)[j] == jmodel(items@[j]),
    decreases k,
{
    if k > 0 {
        lemma_jmodel_items_props(items, k - 1);
    }
}

pub proof fn lemma_jmodel_members_props(pairs: Vec<(String, JsonValue)>, k: int)
    requires
        0 <= k <= pairs@.len(),
    ensures
        jmodel_members(pairs, k).len() == k,
        forall|j: int| 0 <= j < k ==> jmodel_members(pairs, k)[j] == jmodel_member(pairs@[j]),
    decreases k,
{
    if k > 0 {
        lemma_jmodel_members_props(pairs, k - 1);
    }
}

proof fn lemma_jmodel_items_congruent(a: Vec<JsonValue>, b: Vec<JsonValue>, k: int)
    requires
        0 <= k <= a@.len(),
        k <= b@.len(),
        forall|j: int| 0 <= j < k ==> jmodel(a@[j]) == jmodel(b@[j]),
    ensures
        jmodel_items(a, k) == jmodel_items(b, k),
    decreases k,
{
    if k > 0 {
        lemma_jmodel_items_congruent(a, b, k - 1);
    }
}

proof fn lemma_jmodel_members_congruent(
    a: Vec<(String, JsonValue)>,
    b: Vec<(String, JsonValue)>,
    k: int,
)
    requires
        0 <= k <= a@.len(),
        k <= b@.len(),
        forall|j: int|
            0 <= j < k ==> a@[j].0@ == b@[j].0@ && jmodel(a@[j].1) == jmodel(b@[j].1),
    ensures
        jmodel_members(a, k) == jmodel_members(b, k),
    decreases k,
{
    if k > 0 {
        lemma_jmodel_members_congruent(a, b, k - 1);
        assert(a@[k - 1].0@ == b@[k - 1].0@ && jmodel(a@[k - 1].1) == jmodel(b@[k - 1].1));
        assert(jmodel_member(a@[k - 1]) == jmodel_member(b@[k - 1]));
    }
}

/// The character for one digit value, `0` through `f`.
pub open spec fn hex_digit(d: nat) -> char {
    if d == 0 {
        '0'
    } else if d == 1 {
        '1'
    } else if d == 2 {
        '2'
    } else if d == 3 {
        '3'
    } else if d == 4 {
        '4'
    } else if d == 5 {
        '5'
    } else if d == 6 {
        '6'
    } else if d == 7 {
        '7'
    } else if d == 8 {
        '8'
    } else if d == 9 {
        '9'
    } else if d == 10 {
        'a'
    } else if d == 11 {
        'b'
    } else if d == 12 {
        'c'
    } else if d == 13 {
        'd'
    } else if d == 14 {
        'e'
    } else {
        'f'
    }
}

/// The decimal digits of `n`, most significant first.
pub open spec fn dec_rep(n: nat) -> Seq<char>
    decreases n,
{
    if n < 10 {
        seq![hex_digit(n)]
    } else {
        dec_rep(n / 10).push(hex_digit(n % 10))
    }
}

/// The decimal rendering of `i`, with a leading minus sign when negative.
pub open spec fn int_rep(i: int) -> Seq<char> {
    if i < 0 {
        seq!['-'] + dec_rep((-i) as nat)
    } else {
        dec_rep(i as nat)
    }
}

/// How one character appears inside a JSON string literal.
pub open spec fn esc_char(c: char) -> Seq<char> {
    if c == '"' {
        seq!['\\', '"']
    } else if c == '\\' {
        seq!['\\', '\\']
    } else if c == '\n' {
        seq!['\\', 'n']
    } else if c == '\r' {
        seq!['\\', 'r']
    } else if c == '\t' {
        seq!['\\', 't']
    } else if (c as u32) < 32 {
        seq!['\\', 'u', '0', '0', hex_digit((c as u32 / 16) as nat), hex_digit((c as u32 % 16) as nat)]
    } else {
        seq![c]
    }
}

/// The escaped form of the first `k` characters of `s`.
pub open spec fn esc_prefix(s: Seq<char>, k: int) -> Seq<char>
    decreases k,
{
    if k <= 0 {
        Seq::empty()
    } else {
        esc_prefix(s, k - 1) + esc_char(s[k - 1])
    }
}

/// The escaped form of a whole string, as it appears between the quotes
/// of a JSON string literal.
pub open spec fn esc_seq(s: Seq<char>) -> Seq<char> {
    esc_prefix(s, s.len() as int)
}

/// The serialization of one object member: quoted escaped key, a colon,
/// then the member's value.
pub open spec fn json_member_text(p: (Seq<char>, JsonModel)) -> Seq<char>
    decreases p, 0int,
{
    seq!['"'] + esc_seq(p.0) + seq!['"', ':'] + json_text(p.1)
}

/// The serialization of the first `k` elements, separated by commas.
pub open spec fn json_items_text(items: Seq<JsonModel>, k: int) -> Seq<char>
    decreases items, k,
    when k <= items.len()
{
    if k <= 0 {
        Seq::empty()
    } else if k == 1 {
        json_text(items[0])
    } else {
        json_items_text(items, k - 1) + seq![','] + json_text(items[k - 1])
    }
}

/// The serialization of the first `k` members, separated by commas.
pub open spec fn json_members_text(pairs: Seq<(Seq<char>, JsonModel)>, k: int) -> Seq<char>
    decreases pairs, k,
    when k <= pairs.len()
{
    if k <= 0 {
        Seq::empty()
    } else if k == 1 {
        json_member_text(pairs[0])
    } else {
        json_members_text(pairs, k - 1) + seq![','] + json_member_text(pairs[k - 1])
    }
}

/// The compact JSON text of a document: no added whitespace, members in
/// insertion order, strings escaped by [`esc_char`].
pub open spec fn json_text(m: JsonModel) -> Seq<char>
    decreases m, 0int,
{
    match m {
        JsonModel::Null => "null"@,
        JsonModel::Bool(b) => if b {
            "true"@
        } else {
            "false"@
        },
        JsonModel::Int(i) => int_rep(i),
        JsonModel::Str(s) => seq!['"'] + esc_seq(s) + seq!['"'],
        JsonModel::Arr(items) => seq!['['] + json_items_text(items, items.len() as int) + seq![']'],
        JsonModel::Obj(pairs) => seq!['{'] + json_members_text(pairs, pairs.len() as int)
            + seq!['}'],
    }
}

/// Relies on std's `String::push`: appends the given character to the end
/// of the string.
#[verifier::external_body]
pub(crate) fn push_char(s: &mut String, c: char)
    ensures
        final(s)@ == old(s)@.push(c),
{
    s.push(c);
}

/// The digit character for `d`, matching [`hex_digit`].
fn hex_digit_char(d: u32) -> (c: char)
    requires
        d < 16,
    ensures
        c == hex_digit(d as nat),
{
    if d == 0 {
        '0'
    } else if d == 1 {
        '1'
    } else if d == 2 {
        '2'
    } else if d == 3 {
        '3'
    } else if d == 4 {
        '4'
    } else if d == 5 {
        '5'
    } else if d == 6 {
        '6'
    } else if d == 7 {
        '7'
    } else if d == 8 {
        '8'
    } else if d == 9 {
        '9'
    } else if d == 10 {
        'a'
    } else if d == 11 {
        'b'
    } else if d == 12 {
        'c'
    } else if d == 13 {
        'd'
    } else if d == 14 {
        'e'
    } else {
        'f'
    }
}

/// Append the decimal digits of `n`.
fn push_dec_u64(out: &mut String, n: u64)
    ensures
        final(out)@ == old(out)@ + dec_rep(n as nat),
    decreases n,
{
    if n < 10 {
        push_char(out, hex_digit_char(n as u32));
        proof {
            assert(final(out)@ =~= old(out)@ + dec_rep(n as nat));
        }
    } else {
        assert(n / 10 < n) by (nonlinear_arith)
            requires
                n >= 10,
        ;
        push_dec_u64(out, n / 10);
        push_char(out, hex_digit_char((n % 10) as u32));
        proof {
            assert(final(out)@ =~= old(out)@ + dec_rep(n as nat));
        }
    }
}

/// Append the decimal rendering of `i`, sign included.
fn push_dec_i64(out: &mut String, i: i64)
    ensures
        final(out)@ == old(out)@ + int_rep(i as int),
{
    if i >= 0 {
        push_dec_u64(out, i as u64);
    } else {
        push_char(out, '-');
        let m: u64 = if i == i64::MIN {
            9223372036854775808u64
        } else {
            (-i) as u64
        };
        assert(m as nat == (-(i as int)) as nat);
        push_dec_u64(out, m);
        proof {
            assert(final(out)@ =~= old(out)@ + int_rep(i as int));
        }
    }
}

/// Append the escaped form of `s`, as between the quotes of a JSON
/// string literal.
pub(crate) fn write_escaped(out: &mut String, s: &str)
    ensures
        final(out)@ == old(out)@ + esc_seq(s@),
{
    let n = s.unicode_len();
    let mut k: usize = 0;
    while k < n
        invariant
            n == s@.len(),
            k <= n,
            out@ == old(out)@ + esc_prefix(s@, k as int),
        decreases n - k,
    {
        let c = s.get_char(k);
        if c == '"' {
            push_char(out, '\\');
            push_char(out, '"');
        } else if c == '\\' {
            push_char(out, '\\');
            push_char(out, '\\');
        } else if c == '\n' {
            push_char(out, '\\');
            push_char(out, 'n');
        } else if c == '\r' {
            push_char(out, '\\');
            push_char(out, 'r');
        } else if c == '\t' {
            push_char(out, '\\');
            push_char(out, 't');
        } else if (c as u32) < 32 {
            push_char(out, '\\');
            push_char(out, 'u');
            push_char(out, '0');
            push_char(out, '0');
            push_char(out, hex_digit_char((c as u32) / 16));
            push_char(out, hex_digit_char((c as u32) % 16));
        } else {
            push_char(out, c);
        }
        proof {
            assert(out@ =~= old(out)@ + esc_prefix(s@, k as int + 1));
        }
        k = k + 1;
    }
}

/// Append the serialization of `v`.
#[verifier::loop_isolation(false)]
fn write_json(v: &JsonValue, out: &mut String)
    ensures
        final(out)@ == old(out)@ + json_text(v@),
    decreases *v,
{
    match v {
        JsonValue::Null => {
            write_str(out, "null");
        },
        JsonValue::Bool(b) => {
            if *b {
                write_str(out, "true");
            } else {
                write_str(out, "false");
            }
        },
        JsonValue::Int(i) => {
            push_dec_i64(out, *i);
        },
        JsonValue::Str(s) => {
            push_char(out, '"');
            write_escaped(out, s.as_str());
            push_char(out, '"');
            proof {
                assert(final(out)@ =~= old(out)@ + json_text(v@));
            }
        },
        JsonValue::Arr(items) => {
            let ghost ms = jmodel_items(*items, items@.len() as int);
            proof {
                lemma_jmodel_items_props(*items, items@.len() as int);
            }
            push_char(out, '[');
            let n = items.len();
            let mut k: usize = 0;
            while k < n
                invariant
                    n == items@.len(),
                    k <= n,
                    ms == jmodel_items(*items, n as int),
                    ms.len() == n,
                    forall|j: int| 0 <= j < n ==> ms[j] == jmodel(items@[j]),
                    out@ == old(out)@.push('[') + json_items_text(ms, k as int),
                decreases n - k,
            {
                if k > 0 {
                    push_char(out, ',');
                }
                proof {
                    assert(*v == JsonValue::Arr(*items));
                    assert(decreases_to!(*v => (*v)->Arr_0));
                    assert(decreases_to!(*items => items@));
                    assert(decreases_to!(items@ => items@[k as int]));
                }
                write_json(&items[k], out);
                proof {
                    assert(out@ =~= old(out)@.push('[') + json_items_text(ms, k as int + 1));
                }
                k = k + 1;
            }
            push_char(out, ']');
            proof {
                assert(final(out)@ =~= old(out)@ + json_text(v@));
            }
        },
        JsonValue::Obj(pairs) => {
            let ghost ms = jmodel_members(*pairs, pairs@.len() as int);
            proof {
                lemma_jmodel_members_props(*pairs, pairs@.len() as int);
            }
            push_char(out, '{');
            let n = pairs.len();
            let mut k: usize = 0;
            while k < n
                invariant
                    n == pairs@.len(),
                    k <= n,
                    ms == jmodel_members(*pairs, n as int),
                    ms.len() == n,
                    forall|j: int| 0 <= j < n ==> ms[j] == jmodel_member(pairs@[j]),
                    out@ == old(out)@.push('{') + json_members_text(ms, k as int),
                decreases n - k,
            {
                if k > 0 {
                    push_char(out, ',');
                }
                let p = &pairs[k];
                push_char(out, '"');
                write_escaped(out, p.0.as_str());
                push_char(out, '"');
                push_char(out, ':');
                proof {
                    assert(*v == JsonValue::Obj(*pairs));
                    assert(decreases_to!(*v => (*v)->Obj_0));
                    assert(decreases_to!(*pairs => pairs@));
                    assert(decreases_to!(pairs@ => pairs@[k as int]));
                    assert(decreases_to!(pairs@[k as int] => pairs@[k as int].1));
                }
                write_json(&p.1, out);
                proof {
                    assert(json_member_text(ms[k as int]) =~= seq!['"'] + esc_seq(
                        pairs@[k as int].0@,
                    ) + seq!['"', ':'] + json_text(jmodel(pairs@[k as int].1)));
                    assert(out@ =~= old(out)@.push('{') + json_members_text(ms, k as int + 1));
                }
                k = k + 1;
            }
            push_char(out, '}');
            proof {
                assert(final(out)@ =~= old(out)@ + json_text(v@));
            }
        },
    }
}

/// Relies on std's `String::push_str`: appends the given slice to the end
/// of the string.
#[verifier::external_body]
pub(crate) fn write_str(s: &mut String, other: &str)
    ensures
        final(s)@ == old(s)@ + other@,
{
    s.push_str(other);
}

/// Clone a document; the copy has the same model.
#[verifier::loop_isolation(false)]
fn clone_json(v: &JsonValue) -> (res: JsonValue)
    ensures
        res@ == v@,
    decreases *v,
{
    match v {
        JsonValue::Null => JsonValue::Null,
        JsonValue::Bool(b) => JsonValue::Bool(*b),
        JsonValue::Int(i) => JsonValue::Int(*i),
        JsonValue::Str(s) => JsonValue::Str(s.clone()),
        JsonValue::Arr(items) => {
            let n = items.len();
            let mut out: Vec<JsonValue> = Vec::new();
            let mut k: usize = 0;
            while k < n
                invariant
                    n == items@.len(),
                    k <= n,
                    out@.len() == k,
                    forall|j: int| 0 <= j < k ==> jmodel(out@[j]) == jmodel(items@[j]),
                decreases n - k,
            {
                proof {
                    assert(*v == JsonValue::Arr(*items));
                    assert(decreases_to!(*v => (*v)->Arr_0));
                    assert(decreases_to!(*items => items@));
                    assert(decreases_to!(items@ => items@[k as int]));
                }
                let c = clone_json(&items[k]);
                out.push(c);
                k = k + 1;
            }
            proof {
                lemma_jmodel_items_congruent(out, *items, n as int);
            }
            JsonValue::Arr(out)
        },
        JsonValue::Obj(pairs) => {
            let n = pairs.len();
            let mut out: Vec<(String, JsonValue)> = Vec::new();
            let mut k: usize = 0;
            while k < n
                invariant
                    n == pairs@.len(),
                    k <= n,
                    out@.len() == k,
                    forall|j: int|
                        0 <= j < k ==> out@[j].0@ == pairs@[j].0@ && jmodel(out@[j].1) == jmodel(
                            pairs@[j].1,
                        ),
                decreases n - k,
            {
                proof {
                    assert(*v == JsonValue::Obj(*pairs));
                    assert(decreases_to!(*v => (*v)->Obj_0));
                    assert(decreases_to!(*pairs => pairs@));
                    assert(decreases_to!(pairs@ => pairs@[k as int]));
                    assert(decreases_to!(pairs@[k as int] => pairs@[k as int].1));
                }
                let p = &pairs[k];
                let key = p.0.clone();
                let val = clone_json(&p.1);
                out.push((key, val));
                k = k + 1;
            }
            proof {
                lemma_jmodel_members_congruent(out, *pairs, n as int);
            }
            JsonValue::Obj(out)
        },
    }
}

impl Clone for JsonValue {
    /// The copy has the same model as the original.
    fn clone(&self) -> (res: Self)
        ensures
            res@ == self@,
    {
        clone_json(self)
    }
}

impl JsonValue {
    /// Serialize this document as compact JSON text.
    pub fn to_json_string(&self) -> (r: String)
        ensures
            r@ == json_text(self@),
    {
        let mut out = String::new();
        write_json(self, &mut out);
        out
    }
}

} // verus!
