//! Canonical JSON text rendering for the document value model.
//!
//! The compact form: no whitespace, `"` and `\` and control characters
//! escaped in strings, integers as bare decimal tokens.

use vstd::prelude::*;
use vstd::string::StringExecFns;
use crate::json::{entries_of, lemma_entries_of, lemma_views_of, views_of, JsonV, JsonValue};
use crate::types::number::Number;

verus! {

broadcast use vstd::seq::group_seq_axioms, vstd::seq_lib::group_seq_lib_default,
    vstd::std_specs::vec::group_vec_axioms;

/// Relies on String::push: appends exactly the given character to the end
/// of the string.
#[verifier::external_body]
pub(crate) fn push_char(s: &mut String, c: char)
    ensures
        final(s)@ == old(s)@ + seq![c],
{
    s.push(c);
}

/// The decimal digit character for a value below ten.
pub open spec fn dec_digit(d: int) -> char {
    ((48 + d) as u8) as char
}

/// The decimal digits of `n`, with no leading zero; empty for zero.
pub open spec fn dec_full(n: nat) -> Seq<char>
    decreases n,
{
    if n == 0 {
        Seq::empty()
    } else {
        dec_full(n / 10) + seq![dec_digit((n % 10) as int)]
    }
}

/// The decimal rendering of an unsigned value: `"0"` for zero, otherwise
/// the digits with no leading zero.
pub open spec fn dec_nat(n: nat) -> Seq<char> {
    if n == 0 {
        seq!['0']
    } else {
        dec_full(n)
    }
}

/// The decimal rendering of a signed value: a leading `-` for negatives.
pub open spec fn dec_int(i: int) -> Seq<char> {
    if i < 0 {
        seq!['-'] + dec_nat((-i) as nat)
    } else {
        dec_nat(i as nat)
    }
}

/// The decimal rendering of an unsigned 128-bit value.
pub fn u128_text(n: u128) -> (r: String)
    ensures
        r@ == dec_nat(n as nat),
{
    if n == 0 {
        let r = "0".to_owned();
        proof {
            reveal_strlit("0");
            assert(r@ =~= seq!['0']);
        }
        return r;
    }
    let mut digits: Vec<char> = Vec::new();
    let mut m: u128 = n;
    while m > 0
        invariant
            dec_full(n as nat) == dec_full(m as nat) + digits@.reverse(),
            m == 0 ==> digits@.len() > 0,
        decreases m,
    {
        let d: u8 = (m % 10) as u8;
        let c: char = (48 + d) as char;
        proof {
            assert(c == dec_digit((m as nat % 10) as int));
        }
        let ghost pre = digits@;
        digits.push(c);
        m = m / 10;
        proof {
            assert(digits@.reverse() =~= seq![c] + pre.reverse());
        }
    }
    let mut r = String::new();
    let n_digits = digits.len();
    let mut i: usize = n_digits;
    while i > 0
        invariant
            i <= n_digits,
            n_digits == digits@.len(),
            r@ == Seq::new((n_digits - i) as nat, |k: int| digits@[n_digits - 1 - k]),
        decreases i,
    {
        i = i - 1;
        let c = digits[i];
        let ghost pre = r@;
        push_char(&mut r, c);
        proof {
            assert(r@ =~= Seq::new(
                (n_digits - i) as nat,
                |k: int| digits@[n_digits - 1 - k],
            ));
        }
    }
    proof {
        assert(r@ =~= digits@.reverse());
    }
    r
}

/// The decimal rendering of a signed 128-bit value.
pub fn i128_text(v: i128) -> (r: String)
    ensures
        r@ == dec_int(v as int),
{
    if v >= 0 {
        let r = u128_text(v as u128);
        r
    } else {
        let mag: u128 = ((-(v + 1)) as u128) + 1;
        proof {
            assert(mag as nat == (-(v as int)) as nat);
        }
        let mut r = "-".to_owned();
        proof {
            reveal_strlit("-");
            assert(r@ =~= seq!['-']);
        }
        let t = u128_text(mag);
        r.append(t.as_str());
        proof {
            assert(r@ =~= dec_int(v as int));
        }
        r
    }
}

/// The lowercase hexadecimal digit character for a value below sixteen.
pub open spec fn hex_digit(d: int) -> char {
    if d < 10 {
        dec_digit(d)
    } else {
        ((87 + d) as u8) as char
    }
}

/// How one character is escaped inside a JSON string literal.
pub open spec fn esc_char(c: char) -> Seq<char> {
    if c == '"' {
        seq!['\\', '"']
    } else if c == '\\' {
        seq!['\\', '\\']
    } else if c == '\u{8}' {
        seq!['\\', 'b']
    } else if c == '\u{9}' {
        seq!['\\', 't']
    } else if c == '\u{a}' {
        seq!['\\', 'n']
    } else if c == '\u{c}' {
        seq!['\\', 'f']
    } else if c == '\u{d}' {
        seq!['\\', 'r']
    } else if (c as u32) < 32 {
        seq!['\\', 'u', '0', '0', hex_digit((c as u32) as int / 16), hex_digit(
            (c as u32) as int % 16,
        )]
    } else {
        seq![c]
    }
}

/// The escaped form of a whole string body.
pub open spec fn esc_seq(s: Seq<char>) -> Seq<char>
    decreases s.len(),
{
    if s.len() == 0 {
        Seq::empty()
    } else {
        esc_char(s[0]) + esc_seq(s.drop_first())
    }
}

/// Escaping a string distributes over appending one character at the end.
pub proof fn lemma_esc_seq_snoc(s: Seq<char>, c: char)
    ensures
        esc_seq(s.push(c)) == esc_seq(s) + esc_char(c),
    decreases s.len(),
{
    if s.len() == 0 {
        assert(s.push(c).drop_first() =~= Seq::<char>::empty());
        assert(s.push(c)[0] == c);
        assert(esc_seq(Seq::<char>::empty()) =~= Seq::<char>::empty());
        assert(esc_seq(s.push(c)) =~= esc_char(c));
        assert(esc_seq(s) + esc_char(c) =~= esc_char(c));
    } else {
        assert(s.push(c).drop_first() =~= s.drop_first().push(c));
        lemma_esc_seq_snoc(s.drop_first(), c);
        assert(esc_seq(s.push(c)) =~= esc_seq(s) + esc_char(c));
    }
}

/// Writes the escaped form of `c` onto the end of `out`.
fn push_escaped(out: &mut String, c: char)
    ensures
        final(out)@ == old(out)@ + esc_char(c),
{
    if c == '"' {
        push_char(out, '\\');
        push_char(out, '"');
    } else if c == '\\' {
        push_char(out, '\\');
        push_char(out, '\\');
    } else if c == '\u{8}' {
        push_char(out, '\\');
        push_char(out, 'b');
    } else if c == '\u{9}' {
        push_char(out, '\\');
        push_char(out, 't');
    } else if c == '\u{a}' {
        push_char(out, '\\');
        push_char(out, 'n');
    } else if c == '\u{c}' {
        push_char(out, '\\');
        push_char(out, 'f');
    } else if c == '\u{d}' {
        push_char(out, '\\');
        push_char(out, 'r');
    } else if (c as u32) < 32 {
        push_char(out, '\\');
        push_char(out, 'u');
        push_char(out, '0');
        push_char(out, '0');
        let hi: u32 = (c as u32) / 16;
        let lo: u32 = (c as u32) % 16;
        let hc: char = if hi < 10 {
            (48 + hi as u8) as char
        } else {
            (87 + hi as u8) as char
        };
        let lc: char = if lo < 10 {
            (48 + lo as u8) as char
        } else {
            (87 + lo as u8) as char
        };
        push_char(out, hc);
        push_char(out, lc);
        proof {
            assert(final(out)@ =~= old(out)@ + esc_char(c));
        }
    } else {
        push_char(out, c);
    }
}

/// The escaped form of a string body, as executable code.
pub fn escaped(s: &str) -> (r: String)
    ensures
        r@ == esc_seq(s@),
{
    let mut out = String::new();
    let n = s.unicode_len();
    let mut i: usize = 0;
    while i < n
        invariant
            i <= n,
            n == s@.len(),
            out@ == esc_seq(s@.take(i as int)),
        decreases n - i,
    {
        let c = s.get_char(i);
        push_escaped(&mut out, c);
        proof {
            assert(s@.take(i + 1) =~= s@.take(i as int).push(s@[i as int]));
            lemma_esc_seq_snoc(s@.take(i as int), s@[i as int]);
        }
        i = i + 1;
    }
    proof {
        assert(s@.take(n as int) =~= s@);
    }
    out
}

/// The decimal token of a number; empty for the float variants, which this
/// layer does not render (their text lives outside the verified library).
pub open spec fn num_text(n: Number) -> Seq<char> {
    match n {
        Number::I8(v) => dec_int(v as int),
        Number::I16(v) => dec_int(v as int),
        Number::I32(v) => dec_int(v as int),
        Number::I64(v) => dec_int(v as int),
        Number::I128(v) => dec_int(v as int),
        Number::U8(v) => dec_nat(v as nat),
        Number::U16(v) => dec_nat(v as nat),
        Number::U32(v) => dec_nat(v as nat),
        Number::U64(v) => dec_nat(v as nat),
        Number::U128(v) => dec_nat(v as nat),
        Number::F32(_) => Seq::empty(),
        Number::F64(_) => Seq::empty(),
    }
}

/// The decimal token of an integer number.
pub fn number_text(n: &Number) -> (r: String)
    requires
        !n.is_float(),
    ensures
        r@ == num_text(*n),
{
    match n {
        Number::I8(v) => i128_text(*v as i128),
        Number::I16(v) => i128_text(*v as i128),
        Number::I32(v) => i128_text(*v as i128),
        Number::I64(v) => i128_text(*v as i128),
        Number::I128(v) => i128_text(*v),
        Number::U8(v) => u128_text(*v as u128),
        Number::U16(v) => u128_text(*v as u128),
        Number::U32(v) => u128_text(*v as u128),
        Number::U64(v) => u128_text(*v as u128),
        Number::U128(v) => u128_text(*v),
        Number::F32(_) => unreached(),
        Number::F64(_) => unreached(),
    }
}

impl JsonV {
    /// Whether no float leaf occurs anywhere in the value.
    pub open spec fn float_free(self) -> bool
        decreases self,
    {
        match self {
            JsonV::Bool(_) => true,
            JsonV::Num(n) => !n.is_float(),
            JsonV::Str(_) => true,
            JsonV::Arr(items) => arr_float_free(items),
            JsonV::Obj(fields) => obj_float_free(fields),
        }
    }
}

/// Whether every item of an array is free of float leaves.
pub open spec fn arr_float_free(items: Seq<JsonV>) -> bool
    decreases items,
{
    if items.len() == 0 {
        true
    } else {
        items[0].float_free() && arr_float_free(items.drop_first())
    }
}

/// Whether every value of an object is free of float leaves.
pub open spec fn obj_float_free(fields: Seq<(Seq<char>, JsonV)>) -> bool
    decreases fields,
{
    if fields.len() == 0 {
        true
    } else {
        fields[0].1.float_free() && obj_float_free(fields.drop_first())
    }
}

/// Float-freeness of an array grows at the right with the array.
pub proof fn lemma_arr_float_free_snoc(items: Seq<JsonV>, v: JsonV)
    ensures
        arr_float_free(items.push(v)) == (arr_float_free(items) && v.float_free()),
    decreases items,
{
    if items.len() == 0 {
        assert(items.push(v).drop_first() =~= Seq::<JsonV>::empty());
        assert(items.push(v)[0] == v);
        assert(arr_float_free(Seq::<JsonV>::empty()));
    } else {
        assert(items.push(v).drop_first() =~= items.drop_first().push(v));
        assert(items.push(v)[0] == items[0]);
        lemma_arr_float_free_snoc(items.drop_first(), v);
    }
}

/// Float-freeness of an object's entries grows at the right with them.
pub proof fn lemma_obj_float_free_snoc(fields: Seq<(Seq<char>, JsonV)>, e: (Seq<char>, JsonV))
    ensures
        obj_float_free(fields.push(e)) == (obj_float_free(fields) && e.1.float_free()),
    decreases fields,
{
    if fields.len() == 0 {
        assert(fields.push(e).drop_first() =~= Seq::<(Seq<char>, JsonV)>::empty());
        assert(fields.push(e)[0] == e);
        assert(obj_float_free(Seq::<(Seq<char>, JsonV)>::empty()));
    } else {
        assert(fields.push(e).drop_first() =~= fields.drop_first().push(e));
        assert(fields.push(e)[0] == fields[0]);
        lemma_obj_float_free_snoc(fields.drop_first(), e);
    }
}

/// Each item of a float-free array is float-free.
pub proof fn lemma_arr_float_free(items: Seq<JsonV>, i: int)
    requires
        arr_float_free(items),
        0 <= i < items.len(),
    ensures
        items[i].float_free(),
    decreases items,
{
    if i > 0 {
        lemma_arr_float_free(items.drop_first(), i - 1);
    }
}

/// Each value of a float-free object is float-free.
pub proof fn lemma_obj_float_free(fields: Seq<(Seq<char>, JsonV)>, i: int)
    requires
        obj_float_free(fields),
        0 <= i < fields.len(),
    ensures
        fields[i].1.float_free(),
    decreases fields,
{
    if i > 0 {
        lemma_obj_float_free(fields.drop_first(), i - 1);
    }
}

/// The canonical compact JSON text of a value.
pub open spec fn json_text(v: JsonV) -> Seq<char>
    decreases v,
{
    match v {
        JsonV::Bool(b) => if b {
            "true"@
        } else {
            "false"@
        },
        JsonV::Num(n) => num_text(n),
        JsonV::Str(s) => seq!['"'] + esc_seq(s) + seq!['"'],
        JsonV::Arr(items) => seq!['['] + arr_text(items) + seq![']'],
        JsonV::Obj(fields) => seq!['{'] + obj_text(fields) + seq!['}'],
    }
}

/// The comma-joined texts of an array's items, in order.
pub open spec fn arr_text(items: Seq<JsonV>) -> Seq<char>
    decreases items,
{
    if items.len() == 0 {
        Seq::empty()
    } else if items.len() == 1 {
        json_text(items[0])
    } else {
        json_text(items[0]) + seq![','] + arr_text(items.drop_first())
    }
}

/// The text of one object entry: quoted escaped key, colon, value.
pub open spec fn entry_text(e: (Seq<char>, JsonV)) -> Seq<char>
    decreases e,
{
    seq!['"'] + esc_seq(e.0) + seq!['"', ':'] + json_text(e.1)
}

/// The comma-joined texts of an object's entries, in order.
pub open spec fn obj_text(fields: Seq<(Seq<char>, JsonV)>) -> Seq<char>
    decreases fields,
{
    if fields.len() == 0 {
        Seq::empty()
    } else if fields.len() == 1 {
        entry_text(fields[0])
    } else {
        entry_text(fields[0]) + seq![','] + obj_text(fields.drop_first())
    }
}

/// Array text grows at the right by a comma (after the first item) and the
/// new item's text.
pub proof fn lemma_arr_text_snoc(items: Seq<JsonV>, v: JsonV)
    ensures
        arr_text(items.push(v)) == (if items.len() == 0 {
            json_text(v)
        } else {
            arr_text(items) + seq![','] + json_text(v)
        }),
    decreases items.len(),
{
    if items.len() == 0 {
        assert(items.push(v).len() == 1);
        assert(items.push(v)[0] == v);
    } else {
        assert(items.push(v)[0] == items[0]);
        assert(items.push(v).drop_first() =~= items.drop_first().push(v));
        lemma_arr_text_snoc(items.drop_first(), v);
        if items.len() == 1 {
            assert(arr_text(items.push(v)) =~= arr_text(items) + seq![','] + json_text(v));
        } else {
            assert(arr_text(items.push(v)) =~= arr_text(items) + seq![','] + json_text(v));
        }
    }
}

/// Object text grows at the right in the same way.
pub proof fn lemma_obj_text_snoc(fields: Seq<(Seq<char>, JsonV)>, e: (Seq<char>, JsonV))
    ensures
        obj_text(fields.push(e)) == (if fields.len() == 0 {
            entry_text(e)
        } else {
            obj_text(fields) + seq![','] + entry_text(e)
        }),
    decreases fields.len(),
{
    if fields.len() == 0 {
        assert(fields.push(e).len() == 1);
        assert(fields.push(e)[0] == e);
    } else {
        assert(fields.push(e)[0] == fields[0]);
        assert(fields.push(e).drop_first() =~= fields.drop_first().push(e));
        lemma_obj_text_snoc(fields.drop_first(), e);
        assert(obj_text(fields.push(e)) =~= obj_text(fields) + seq![','] + entry_text(e));
    }
}

impl JsonValue {
    /// Whether the value holds no float leaf, as executable code.
    #[verifier::loop_isolation(false)]
    pub fn is_float_free(&self) -> (r: bool)
        ensures
            r == self@.float_free(),
        decreases self,
    {
        match self {
            JsonValue::Bool(_) => true,
            JsonValue::Str(_) => true,
            JsonValue::Num(n) => match n {
                Number::F32(_) => false,
                Number::F64(_) => false,
                _ => true,
            },
            JsonValue::Arr(items) => {
                let ghost vs = views_of(items@);
                proof {
                    lemma_views_of(items@);
                    assert(self@ == JsonV::Arr(vs));
                    assert(vs.take(0) =~= Seq::<JsonV>::empty());
                }
                let mut ok = true;
                let n_items = items.len();
                let mut idx: usize = 0;
                while idx < n_items
                    invariant
                        idx <= n_items,
                        ok == arr_float_free(vs.take(idx as int)),
                    decreases n_items - idx,
                {
                    proof {
                        lemma_views_of(items@);
                        assert(decreases_to!(*self => *items));
                        assert(decreases_to!(*items => (*items)[idx as int]));
                        assert(decreases_to!(*self => (*items)[idx as int]));
                    }
                    let c = items[idx].is_float_free();
                    ok = ok && c;
                    proof {
                        assert(vs.take(idx + 1) =~= vs.take(idx as int).push(vs[idx as int]));
                        lemma_arr_float_free_snoc(vs.take(idx as int), vs[idx as int]);
                        assert(vs[idx as int] == items@[idx as int]@);
                    }
                    idx = idx + 1;
                }
                proof {
                    assert(vs.take(n_items as int) =~= vs);
                }
                ok
            },
            JsonValue::Obj(fields) => {
                let ghost vs = entries_of(fields@);
                proof {
                    lemma_entries_of(fields@);
                    assert(self@ == JsonV::Obj(vs));
                    assert(vs.take(0) =~= Seq::<(Seq<char>, JsonV)>::empty());
                }
                let mut ok = true;
                let n_fields = fields.len();
                let mut idx: usize = 0;
                while idx < n_fields
                    invariant
                        idx <= n_fields,
                        ok == obj_float_free(vs.take(idx as int)),
                    decreases n_fields - idx,
                {
                    proof {
                        lemma_entries_of(fields@);
                        assert(decreases_to!(*self => *fields));
                        assert(decreases_to!(*fields => (*fields)[idx as int]));
                        assert(decreases_to!((*fields)[idx as int] => (*fields)[idx as int].1));
                        assert(decreases_to!(*self => (*fields)[idx as int].1));
                    }
                    let c = fields[idx].1.is_float_free();
                    ok = ok && c;
                    proof {
                        assert(vs.take(idx + 1) =~= vs.take(idx as int).push(vs[idx as int]));
                        lemma_obj_float_free_snoc(vs.take(idx as int), vs[idx as int]);
                        assert(vs[idx as int] == (fields@[idx as int].0@, fields@[idx as int].1@));
                    }
                    idx = idx + 1;
                }
                proof {
                    assert(vs.take(n_fields as int) =~= vs);
                }
                ok
            },
        }
    }

    /// Renders the canonical text, or nothing exactly when a float leaf
    /// occurs somewhere in the value: the floats' text lives outside the
    /// verified library.
    pub fn try_to_text(&self) -> (r: Option<String>)
        ensures
            r is Some <==> self@.float_free(),
            r matches Some(s) ==> s@ == json_text(self@),
    {
        if self.is_float_free() {
            Some(self.to_text())
        } else {
            None
        }
    }

    /// Renders the canonical compact JSON text of this value.  The float
    /// variants have no text at this layer, so the value must be free of
    /// float leaves.
    #[verifier::loop_isolation(false)]
    pub fn to_text(&self) -> (r: String)
        requires
            self@.float_free(),
        ensures
            r@ == json_text(self@),
        decreases self,
    {
        match self {
            JsonValue::Bool(b) => {
                if *b {
                    let r = "true".to_owned();
                    r
                } else {
                    let r = "false".to_owned();
                    r
                }
            },
            JsonValue::Num(n) => number_text(n),
            JsonValue::Str(s) => {
                let mut out = "\"".to_owned();
                proof {
                    reveal_strlit("\"");
                    assert(out@ =~= seq!['"']);
                }
                let e = escaped(s.as_str());
                out.append(e.as_str());
                push_char(&mut out, '"');
                proof {
                    assert(out@ =~= seq!['"'] + esc_seq(s@) + seq!['"']);
                }
                out
            },
            JsonValue::Arr(items) => {
                let ghost vs = views_of(items@);
                proof {
                    lemma_views_of(items@);
                    assert(self@ == JsonV::Arr(vs));
                }
                let mut out = "[".to_owned();
                proof {
                    reveal_strlit("[");
                    assert(out@ =~= seq!['[']);
                    assert(vs.take(0) =~= Seq::<JsonV>::empty());
                }
                let n_items = items.len();
                let mut idx: usize = 0;
                while idx < n_items
                    invariant
                        idx <= n_items,
                        n_items == items@.len(),
                        vs == views_of(items@),
                        JsonV::Arr(vs).float_free(),
                        out@ == seq!['['] + arr_text(vs.take(idx as int)),
                    decreases n_items - idx,
                {
                    if idx > 0 {
                        push_char(&mut out, ',');
                    }
                    proof {
                        lemma_views_of(items@);
                        assert(arr_float_free(vs));
                        lemma_arr_float_free(vs, idx as int);
                        assert(vs[idx as int].float_free());
                        assert(vs[idx as int] == items@[idx as int]@);
                        assert(decreases_to!(*self => *items));
                        assert(decreases_to!(*items => (*items)[idx as int]));
                        assert(decreases_to!(*self => (*items)[idx as int]));
                    }
                    let t = items[idx].to_text();
                    out.append(t.as_str());
                    proof {
                        assert(vs.take(idx + 1) =~= vs.take(idx as int).push(vs[idx as int]));
                        lemma_arr_text_snoc(vs.take(idx as int), vs[idx as int]);
                        assert(out@ =~= seq!['['] + arr_text(vs.take(idx + 1)));
                    }
                    idx = idx + 1;
                }
                push_char(&mut out, ']');
                proof {
                    assert(vs.take(n_items as int) =~= vs);
                    assert(out@ =~= json_text(self@));
                }
                out
            },
            JsonValue::Obj(fields) => {
                let ghost vs = entries_of(fields@);
                proof {
                    lemma_entries_of(fields@);
                    assert(self@ == JsonV::Obj(vs));
                }
                let mut out = "{".to_owned();
                proof {
                    reveal_strlit("{");
                    assert(out@ =~= seq!['{']);
                    assert(vs.take(0) =~= Seq::<(Seq<char>, JsonV)>::empty());
                }
                let n_fields = fields.len();
                let mut idx: usize = 0;
                while idx < n_fields
                    invariant
                        idx <= n_fields,
                        n_fields == fields@.len(),
                        vs == entries_of(fields@),
                        JsonV::Obj(vs).float_free(),
                        out@ == seq!['{'] + obj_text(vs.take(idx as int)),
                    decreases n_fields - idx,
                {
                    if idx > 0 {
                        push_char(&mut out, ',');
                    }
                    proof {
                        lemma_entries_of(fields@);
                        assert(obj_float_free(vs));
                        lemma_obj_float_free(vs, idx as int);
                        assert(vs[idx as int].1.float_free());
                        assert(vs[idx as int] == (fields@[idx as int].0@, fields@[idx as int].1@));
                        assert(decreases_to!(*self => *fields));
                        assert(decreases_to!(*fields => (*fields)[idx as int]));
                        assert(decreases_to!((*fields)[idx as int] => (*fields)[idx as int].1));
                        assert(decreases_to!(*self => (*fields)[idx as int].1));
                    }
                    push_char(&mut out, '"');
                    let k = escaped(fields[idx].0.as_str());
                    out.append(k.as_str());
                    push_char(&mut out, '"');
                    push_char(&mut out, ':');
                    let t = fields[idx].1.to_text();
                    out.append(t.as_str());
                    proof {
                        assert(vs.take(idx + 1) =~= vs.take(idx as int).push(vs[idx as int]));
                        lemma_obj_text_snoc(vs.take(idx as int), vs[idx as int]);
                        assert(out@ =~= seq!['{'] + obj_text(vs.take(idx + 1)));
                    }
                    idx = idx + 1;
                }
                push_char(&mut out, '}');
                proof {
                    assert(vs.take(n_fields as int) =~= vs);
                    assert(out@ =~= json_text(self@));
                }
                out
            },
        }
    }
}

} // verus!
