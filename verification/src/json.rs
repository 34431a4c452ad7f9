//! A JSON-like structured value and its canonical text.
//!
//! The details payload of an error is a free-form structured value,
//! [`JsonValue`]. Its mathematical model is [`JsonModel`], a tree over
//! sequences; the spec functions here define, character by character, the
//! canonical JSON text of a model, and [`write_json`] produces exactly
//! that text.

use vstd::prelude::*;
use crate::text::{push_char, push_dec};

verus! {

/// A free-form structured value, shaped like a JSON document.
#[derive(Debug)]
pub enum JsonValue {
    Null,
    Bool(bool),
    Int(i64),
    Str(String),
    Array(Vec<JsonValue>),
    Object(Vec<(String, JsonValue)>),
}

/// The mathematical model of a [`JsonValue`]: the same tree, with strings
/// as character sequences and vectors as sequences.
pub enum JsonModel {
    Null,
    Bool(bool),
    Int(int),
    Str(Seq<char>),
    Arr(Seq<JsonModel>),
    Obj(Seq<(Seq<char>, JsonModel)>),
}

/// The model of a value: each node translated in place.
pub open spec fn spec_model(v: JsonValue) -> JsonModel
    decreases v, 0int,
{
    match v {
        JsonValue::Null => JsonModel::Null,
        JsonValue::Bool(b) => JsonModel::Bool(b),
        JsonValue::Int(n) => JsonModel::Int(n as int),
        JsonValue::Str(s) => JsonModel::Str(s@),
        JsonValue::Array(items) => JsonModel::Arr(
            spec_model_items(items@, items@.len() as int),
        ),
        JsonValue::Object(fields) => JsonModel::Obj(
            spec_model_fields(fields@, fields@.len() as int),
        ),
    }
}

/// The models of the first `n` items.
pub open spec fn spec_model_items(items: Seq<JsonValue>, n: int) -> Seq<JsonModel>
    decreases items, n,
{
    if n <= 0 || n > items.len() {
        Seq::empty()
    } else {
        spec_model_items(items, n - 1).push(spec_model(items[n - 1]))
    }
}

/// The models of the first `n` object members.
pub open spec fn spec_model_fields(fields: Seq<(String, JsonValue)>, n: int) -> Seq<
    (Seq<char>, JsonModel),
>
    decreases fields, n,
{
    if n <= 0 || n > fields.len() {
        Seq::empty()
    } else {
        spec_model_fields(fields, n - 1).push(
            (fields[n - 1].0@, spec_model(fields[n - 1].1)),
        )
    }
}

impl View for JsonValue {
    type V = JsonModel;

    open spec fn view(&self) -> JsonModel {
        spec_model(*self)
    }
}

/// The first `n` item models are exactly the models of the first `n` items,
/// in order.
pub proof fn lemma_model_items_index(items: Seq<JsonValue>, n: int)
    requires
        0 <= n <= items.len(),
    ensures
        spec_model_items(items, n).len() == n,
        forall|j: int|
            0 <= j < n ==> #[trigger] spec_model_items(items, n)[j] == spec_model(items[j]),
    decreases n,
{
    if n > 0 {
        lemma_model_items_index(items, n - 1);
    }
}

/// The first `n` member models are exactly the keys' characters and the
/// values' models of the first `n` members, in order.
pub proof fn lemma_model_fields_index(fields: Seq<(String, JsonValue)>, n: int)
    requires
        0 <= n <= fields.len(),
    ensures
        spec_model_fields(fields, n).len() == n,
        forall|j: int|
            0 <= j < n ==> #[trigger] spec_model_fields(fields, n)[j] == (
                fields[j].0@,
                spec_model(fields[j].1),
            ),
    decreases n,
{
    if n > 0 {
        lemma_model_fields_index(fields, n - 1);
    }
}

/// The hexadecimal digit character of `d`, for `0 <= d <= 15`.
pub open spec fn spec_hex_digit(d: int) -> char {
    if d < 10 {
        crate::text::spec_digit(d)
    } else if d == 10 {
        'a'
    } else if d == 11 {
        'b'
    } else if d == 12 {
        'c'
    } else if d == 13 {
        'd'
    } else if d == 14 {
        'e'
    } else {
        'f'
    }
}

/// How a single character appears inside a JSON string literal: quotes and
/// backslashes are escaped, the common control characters get their short
/// escapes, any other control character a `\u00XX` escape, and everything
/// else stands as itself.
pub open spec fn spec_escape_char(c: char) -> Seq<char> {
    if c == '"' {
        "\\\""@
    } else if c == '\\' {
        "\\\\"@
    } else if c == '\n' {
        "\\n"@
    } else if c == '\r' {
        "\\r"@
    } else if c == '\t' {
        "\\t"@
    } else if (c as int) < 32 {
        "\\u00"@ + seq![spec_hex_digit(c as int / 16), spec_hex_digit(c as int % 16)]
    } else {
        seq![c]
    }
}

/// The body of a JSON string literal: each character escaped in turn.
pub open spec fn spec_escape(s: Seq<char>) -> Seq<char>
    decreases s.len(),
{
    if s.len() == 0 {
        Seq::empty()
    } else {
        spec_escape(s.drop_last()) + spec_escape_char(s.last())
    }
}

/// A complete JSON string literal: the escaped text between quotes.
pub open spec fn spec_quoted(s: Seq<char>) -> Seq<char> {
    "\""@ + spec_escape(s) + "\""@
}

/// The decimal text of a signed integer.
pub open spec fn spec_int_text(n: int) -> Seq<char> {
    if n < 0 {
        "-"@ + crate::text::spec_dec(-n)
    } else {
        crate::text::spec_dec(n)
    }
}

/// The canonical JSON text of a model.
pub open spec fn spec_json(m: JsonModel) -> Seq<char>
    decreases m, 0int,
{
    match m {
        JsonModel::Null => "null"@,
        JsonModel::Bool(b) => if b {
            "true"@
        } else {
            "false"@
        },
        JsonModel::Int(n) => spec_int_text(n),
        JsonModel::Str(s) => spec_quoted(s),
        JsonModel::Arr(items) => "["@ + spec_json_items(items, items.len() as int) + "]"@,
        JsonModel::Obj(fields) => "{"@ + spec_json_fields(fields, fields.len() as int) + "}"@,
    }
}

/// The text of the first `n` array items, comma-separated.
pub open spec fn spec_json_items(items: Seq<JsonModel>, n: int) -> Seq<char>
    decreases items, n,
{
    if n <= 0 || n > items.len() {
        Seq::empty()
    } else {
        spec_json_items(items, n - 1) + (if n == 1 {
            Seq::<char>::empty()
        } else {
            ","@
        }) + spec_json(items[n - 1])
    }
}

/// The text of the first `n` object members, comma-separated, each a quoted
/// key, a colon, and the member's value.
pub open spec fn spec_json_fields(fields: Seq<(Seq<char>, JsonModel)>, n: int) -> Seq<char>
    decreases fields, n,
{
    if n <= 0 || n > fields.len() {
        Seq::empty()
    } else {
        spec_json_fields(fields, n - 1) + (if n == 1 {
            Seq::<char>::empty()
        } else {
            ","@
        }) + spec_quoted(fields[n - 1].0) + ":"@ + spec_json(fields[n - 1].1)
    }
}

impl Clone for JsonValue {
    /// A deep copy: the clone's model equals the original's.
    #[verifier::loop_isolation(false)]
    fn clone(&self) -> (res: Self)
        ensures
            res@ == self@,
        decreases *self,
    {
        match self {
            JsonValue::Null => JsonValue::Null,
            JsonValue::Bool(b) => JsonValue::Bool(*b),
            JsonValue::Int(n) => JsonValue::Int(*n),
            JsonValue::Str(s) => JsonValue::Str(s.clone()),
            JsonValue::Array(items) => {
                let mut copied: Vec<JsonValue> = Vec::new();
                let mut i: usize = 0;
                while i < items.len()
                    invariant
                        i <= items.len(),
                        copied@.len() == i,
                        forall|j: int|
                            0 <= j < i ==> #[trigger] spec_model(copied@[j]) == spec_model(
                                items@[j],
                            ),
                    decreases items.len() - i,
                {
                    proof {
                        assert(decreases_to!(*self => (*self)->Array_0));
                        assert(decreases_to!(*items => (*items)[i as int]));
                        assert(decreases_to!(*self => items@[i as int]));
                    }
                    copied.push(items[i].clone());
                    i += 1;
                }
                proof {
                    lemma_model_items_index(copied@, copied@.len() as int);
                    lemma_model_items_index(items@, items@.len() as int);
                    assert(spec_model_items(copied@, copied@.len() as int) =~= spec_model_items(
                        items@,
                        items@.len() as int,
                    ));
                }
                JsonValue::Array(copied)
            },
            JsonValue::Object(fields) => {
                let mut copied: Vec<(String, JsonValue)> = Vec::new();
                let mut i: usize = 0;
                while i < fields.len()
                    invariant
                        i <= fields.len(),
                        copied@.len() == i,
                        forall|j: int|
                            0 <= j < i ==> #[trigger] copied@[j].0@ == fields@[j].0@
                                && spec_model(copied@[j].1) == spec_model(fields@[j].1),
                    decreases fields.len() - i,
                {
                    proof {
                        assert(decreases_to!(*self => (*self)->Object_0));
                        assert(decreases_to!(*fields => (*fields)[i as int]));
                        assert(decreases_to!((*fields)[i as int] => (*fields)[i as int].1));
                        assert(decreases_to!(*self => fields@[i as int].1));
                    }
                    copied.push((fields[i].0.clone(), fields[i].1.clone()));
                    i += 1;
                }
                proof {
                    lemma_model_fields_index(copied@, copied@.len() as int);
                    lemma_model_fields_index(fields@, fields@.len() as int);
                    assert(spec_model_fields(copied@, copied@.len() as int) =~= spec_model_fields(
                        fields@,
                        fields@.len() as int,
                    ));
                }
                JsonValue::Object(copied)
            },
        }
    }
}

fn hex_digit(d: u64) -> (c: char)
    requires
        d < 16,
    ensures
        c == spec_hex_digit(d as int),
{
    if d < 10 {
        crate::text::digit_char(d)
    } else {
        match d {
            10 => 'a',
            11 => 'b',
            12 => 'c',
            13 => 'd',
            14 => 'e',
            _ => 'f',
        }
    }
}

/// Appends the escaped body of a JSON string literal to `out`.
pub(crate) fn push_escaped(out: &mut String, s: &str)
    ensures
        final(out)@ == old(out)@ + spec_escape(s@),
{
    let n = s.unicode_len();
    proof {
        assert(out@ =~= old(out)@ + spec_escape(s@.subrange(0, 0)));
    }
    let mut i: usize = 0;
    while i < n
        invariant
            n == s@.len(),
            i <= n,
            out@ == old(out)@ + spec_escape(s@.subrange(0, i as int)),
        decreases n - i,
    {
        let c = s.get_char(i);
        if c == '"' {
            out.append("\\\"");
        } else if c == '\\' {
            out.append("\\\\");
        } else if c == '\n' {
            out.append("\\n");
        } else if c == '\r' {
            out.append("\\r");
        } else if c == '\t' {
            out.append("\\t");
        } else if (c as u32) < 32 {
            out.append("\\u00");
            let x: u32 = c as u32;
            push_char(out, hex_digit((x / 16) as u64));
            push_char(out, hex_digit((x % 16) as u64));
        } else {
            push_char(out, c);
        }
        proof {
            assert(s@.subrange(0, i + 1).drop_last() =~= s@.subrange(0, i as int));
            assert(out@ =~= old(out)@ + spec_escape(s@.subrange(0, i + 1)));
        }
        i += 1;
    }
    proof {
        assert(s@.subrange(0, n as int) =~= s@);
    }
}

/// Appends a complete JSON string literal for `s` to `out`.
pub(crate) fn push_quoted(out: &mut String, s: &str)
    ensures
        final(out)@ == old(out)@ + spec_quoted(s@),
{
    out.append("\"");
    push_escaped(out, s);
    out.append("\"");
    assert(out@ =~= old(out)@ + spec_quoted(s@));
}

/// Appends the decimal text of a signed integer to `out`.
pub(crate) fn push_int(out: &mut String, n: i64)
    ensures
        final(out)@ == old(out)@ + spec_int_text(n as int),
{
    if n >= 0 {
        push_dec(out, n as u64);
    } else {
        out.append("-");
        let wide: i128 = n as i128;
        let mag: u64 = (-wide) as u64;
        assert(mag as int == -(n as int));
        push_dec(out, mag);
        assert(out@ =~= old(out)@ + spec_int_text(n as int));
    }
}

/// Appends the canonical JSON text of `v` to `out`.
#[verifier::loop_isolation(false)]
pub fn write_json(v: &JsonValue, out: &mut String)
    ensures
        final(out)@ == old(out)@ + spec_json(v@),
    decreases *v,
{
    match v {
        JsonValue::Null => {
            out.append("null");
        },
        JsonValue::Bool(b) => {
            if *b {
                out.append("true");
            } else {
                out.append("false");
            }
        },
        JsonValue::Int(n) => {
            push_int(out, *n);
        },
        JsonValue::Str(s) => {
            push_quoted(out, s.as_str());
        },
        JsonValue::Array(items) => {
            let ghost ms = spec_model_items(items@, items@.len() as int);
            proof {
                lemma_model_items_index(items@, items@.len() as int);
            }
            out.append("[");
            let mut i: usize = 0;
            while i < items.len()
                invariant
                    i <= items.len(),
                    out@ == old(out)@ + "["@ + spec_json_items(ms, i as int),
                decreases items.len() - i,
            {
                if i > 0 {
                    out.append(",");
                }
                proof {
                    assert(decreases_to!(*v => (*v)->Array_0));
                    assert(decreases_to!(*items => (*items)[i as int]));
                    assert(decreases_to!(*v => items@[i as int]));
                }
                write_json(&items[i], out);
                proof {
                    assert(out@ =~= old(out)@ + "["@ + spec_json_items(ms, i + 1));
                }
                i += 1;
            }
            out.append("]");
            proof {
                assert(out@ =~= old(out)@ + spec_json(v@));
            }
        },
        JsonValue::Object(fields) => {
            let ghost ms = spec_model_fields(fields@, fields@.len() as int);
            proof {
                lemma_model_fields_index(fields@, fields@.len() as int);
            }
            out.append("{");
            let mut i: usize = 0;
            while i < fields.len()
                invariant
                    i <= fields.len(),
                    out@ == old(out)@ + "{"@ + spec_json_fields(ms, i as int),
                decreases fields.len() - i,
            {
                if i > 0 {
                    out.append(",");
                }
                push_quoted(out, fields[i].0.as_str());
                out.append(":");
                proof {
                    assert(decreases_to!(*v => (*v)->Object_0));
                    assert(decreases_to!(*fields => (*fields)[i as int]));
                    assert(decreases_to!((*fields)[i as int] => (*fields)[i as int].1));
                    assert(decreases_to!(*v => fields@[i as int].1));
                }
                write_json(&fields[i].1, out);
                proof {
                    assert(out@ =~= old(out)@ + "{"@ + spec_json_fields(ms, i + 1));
                }
                i += 1;
            }
            out.append("}");
            proof {
                assert(out@ =~= old(out)@ + spec_json(v@));
            }
        },
    }
}

impl JsonValue {
    /// Returns the canonical JSON text of this value.
    pub fn to_json_string(&self) -> (text: String)
        ensures
            text@ == spec_json(self@),
    {
        let mut out = String::new();
        write_json(self, &mut out);
        assert(out@ =~= spec_json(self@));
        out
    }
}

} // verus!
