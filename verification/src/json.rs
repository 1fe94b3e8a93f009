//! A plain model of JSON values: the executable value, its mathematical
//! view, JSON string escaping, and parsing and writing through serde_json.
use vstd::prelude::*;

use crate::text::chars_of;

verus! {

/// A JSON value.  Numbers keep their textual form; objects keep their
/// members in order.
#[derive(Debug, Default)]
pub enum JsonValue {
    #[default]
    Null,
    Bool(bool),
    Number(String),
    Str(String),
    Array(Vec<JsonValue>),
    Object(Vec<(String, JsonValue)>),
}

/// The mathematical form of a JSON value.
pub enum JsonData {
    Null,
    Bool(bool),
    Number(Seq<char>),
    Str(Seq<char>),
    Array(Seq<JsonData>),
    Object(Seq<(Seq<char>, JsonData)>),
}

/// The mathematical form of a JSON value.
pub open spec fn json_view(v: JsonValue) -> JsonData
    decreases v, 1int,
{
    match v {
        JsonValue::Null => JsonData::Null,
        JsonValue::Bool(b) => JsonData::Bool(b),
        JsonValue::Number(n) => JsonData::Number(n@),
        JsonValue::Str(s) => JsonData::Str(s@),
        JsonValue::Array(items) => {
            proof {
                assert(decreases_to!(items => items@));
            }
            JsonData::Array(items_view(items@))
        },
        JsonValue::Object(members) => {
            proof {
                assert(decreases_to!(members => members@));
            }
            JsonData::Object(members_view(members@))
        },
    }
}

/// The mathematical forms of a sequence of JSON values.
pub open spec fn items_view(s: Seq<JsonValue>) -> Seq<JsonData>
    decreases s, 0int,
{
    if s.len() == 0 {
        Seq::empty()
    } else {
        proof {
            assert(decreases_to!(s => s[s.len() - 1]));
            assert(decreases_to!(s => s.subrange(0, s.len() - 1)));
        }
        items_view(s.subrange(0, s.len() - 1)).push(json_view(s[s.len() - 1]))
    }
}

/// The mathematical forms of the members of a JSON object.
pub open spec fn members_view(s: Seq<(String, JsonValue)>) -> Seq<(Seq<char>, JsonData)>
    decreases s, 0int,
{
    if s.len() == 0 {
        Seq::empty()
    } else {
        proof {
            assert(decreases_to!(s => s[s.len() - 1]));
            assert(decreases_to!(s[s.len() - 1] => s[s.len() - 1].1));
            assert(decreases_to!(s => s.subrange(0, s.len() - 1)));
        }
        members_view(s.subrange(0, s.len() - 1)).push(
            (s[s.len() - 1].0@, json_view(s[s.len() - 1].1)),
        )
    }
}

/// The keys of an object's members, in order.
pub open spec fn member_keys(s: Seq<(Seq<char>, JsonData)>) -> Seq<Seq<char>> {
    s.map_values(|m: (Seq<char>, JsonData)| m.0)
}

/// A well-formed JSON value, as serde_json's map keeps objects: every
/// object's keys are strictly ascending (so each key occurs once), at
/// every depth.
pub open spec fn json_wf(d: JsonData) -> bool
    decreases d, 1int,
{
    match d {
        JsonData::Array(items) => items_wf(items),
        JsonData::Object(ms) => crate::text::strictly_sorted(member_keys(ms)) && members_wf(ms),
        _ => true,
    }
}

/// Every value of the sequence is well-formed.
pub open spec fn items_wf(s: Seq<JsonData>) -> bool
    decreases s, 0int,
{
    if s.len() == 0 {
        true
    } else {
        proof {
            assert(decreases_to!(s => s[s.len() - 1]));
            assert(decreases_to!(s => s.subrange(0, s.len() - 1)));
        }
        items_wf(s.subrange(0, s.len() - 1)) && json_wf(s[s.len() - 1])
    }
}

/// Every member value of the sequence is well-formed.
pub open spec fn members_wf(s: Seq<(Seq<char>, JsonData)>) -> bool
    decreases s, 0int,
{
    if s.len() == 0 {
        true
    } else {
        proof {
            assert(decreases_to!(s => s[s.len() - 1]));
            assert(decreases_to!(s[s.len() - 1] => s[s.len() - 1].1));
            assert(decreases_to!(s => s.subrange(0, s.len() - 1)));
        }
        members_wf(s.subrange(0, s.len() - 1)) && json_wf(s[s.len() - 1].1)
    }
}

/// `members_wf` holds exactly when every member value is well-formed.
pub proof fn lemma_members_wf(s: Seq<(Seq<char>, JsonData)>)
    ensures
        members_wf(s) <==> forall|i: int| 0 <= i < s.len() ==> json_wf(#[trigger] s[i].1),
    decreases s.len(),
{
    if s.len() > 0 {
        let t = s.subrange(0, s.len() - 1);
        lemma_members_wf(t);
        if forall|i: int| 0 <= i < s.len() ==> json_wf(#[trigger] s[i].1) {
            assert forall|i: int| 0 <= i < t.len() implies json_wf(#[trigger] t[i].1) by {
                assert(t[i] == s[i]);
            }
        }
        if members_wf(s) {
            assert forall|i: int| 0 <= i < s.len() implies json_wf(#[trigger] s[i].1) by {
                if i < t.len() {
                    assert(t[i] == s[i]);
                }
            }
        }
    }
}

impl View for JsonValue {
    type V = JsonData;

    open spec fn view(&self) -> JsonData {
        json_view(*self)
    }
}

/// The view of a sequence grown by one value.
pub proof fn lemma_items_view_push(s: Seq<JsonValue>, x: JsonValue)
    ensures
        items_view(s.push(x)) == items_view(s).push(json_view(x)),
{
    assert(s.push(x).subrange(0, s.len() as int) =~= s);
}

/// The view of a member sequence grown by one member.
pub proof fn lemma_members_view_push(s: Seq<(String, JsonValue)>, m: (String, JsonValue))
    ensures
        members_view(s.push(m)) == members_view(s).push((m.0@, json_view(m.1))),
{
    assert(s.push(m).subrange(0, s.len() as int) =~= s);
}

/// The view of a prefix is the prefix of the view.
pub proof fn lemma_items_view_take(s: Seq<JsonValue>, i: int)
    requires
        0 <= i <= s.len(),
    ensures
        items_view(s).len() == s.len(),
        items_view(s.take(i)) == items_view(s).take(i),
        forall|k: int| 0 <= k < s.len() ==> #[trigger] items_view(s)[k] == json_view(s[k]),
    decreases s.len(),
{
    if s.len() > 0 {
        let t = s.subrange(0, s.len() - 1);
        if i == s.len() {
            assert(s.take(i) =~= s);
            lemma_items_view_take(t, t.len() as int);
        } else {
            assert(s.take(i) =~= t.take(i));
            lemma_items_view_take(t, i);
        }
        lemma_items_view_take(t, t.len() as int);
        assert forall|k: int| 0 <= k < s.len() implies #[trigger] items_view(s)[k] == json_view(
            s[k],
        ) by {
            if k < s.len() - 1 {
                assert(t[k] == s[k]);
            }
        }
        assert(items_view(s.take(i)) =~= items_view(s).take(i));
    } else {
        assert(s.take(i) =~= s);
    }
}

/// The view of a member prefix is the prefix of the view.
pub proof fn lemma_members_view_index(s: Seq<(String, JsonValue)>)
    ensures
        members_view(s).len() == s.len(),
        forall|k: int|
            0 <= k < s.len() ==> #[trigger] members_view(s)[k] == (s[k].0@, json_view(s[k].1)),
    decreases s.len(),
{
    if s.len() > 0 {
        let t = s.subrange(0, s.len() - 1);
        lemma_members_view_index(t);
        assert forall|k: int| 0 <= k < s.len() implies #[trigger] members_view(s)[k] == (
            s[k].0@,
            json_view(s[k].1),
        ) by {
            if k < s.len() - 1 {
                assert(t[k] == s[k]);
            }
        }
    }
}

impl JsonValue {
    /// A deep copy of the value.
    pub fn deep_copy(&self) -> (r: JsonValue)
        ensures
            r@ == self@,
        decreases self,
    {
        match self {
            JsonValue::Null => JsonValue::Null,
            JsonValue::Bool(b) => JsonValue::Bool(*b),
            JsonValue::Number(n) => JsonValue::Number(n.clone()),
            JsonValue::Str(s) => JsonValue::Str(s.clone()),
            JsonValue::Array(items) => {
                let mut out: Vec<JsonValue> = Vec::new();
                let mut i: usize = 0;
                while i < items.len()
                    invariant
                        i <= items.len(),
                        items_view(out@) == items_view(items@.take(i as int)),
                        *self == JsonValue::Array(*items),
                    decreases items.len() - i,
                {
                    proof {
                        assert(decreases_to!(*self => self->Array_0));
                        assert(decreases_to!(*items => items[i as int]));
                    }
                    let item = items[i].deep_copy();
                    proof {
                        lemma_items_view_push(out@, item);
                        lemma_items_view_push(items@.take(i as int), items@[i as int]);
                        assert(items@.take(i as int).push(items@[i as int]) =~= items@.take(
                            i as int + 1,
                        ));
                    }
                    out.push(item);
                    i = i + 1;
                }
                assert(items@.take(items.len() as int) =~= items@);
                JsonValue::Array(out)
            },
            JsonValue::Object(members) => {
                let mut out: Vec<(String, JsonValue)> = Vec::new();
                let mut i: usize = 0;
                while i < members.len()
                    invariant
                        i <= members.len(),
                        members_view(out@) == members_view(members@.take(i as int)),
                        *self == JsonValue::Object(*members),
                    decreases members.len() - i,
                {
                    proof {
                        assert(decreases_to!(*self => self->Object_0));
                        assert(decreases_to!(*members => members[i as int]));
                        assert(decreases_to!(members[i as int] => members[i as int].1));
                    }
                    let key = members[i].0.clone();
                    let value = members[i].1.deep_copy();
                    proof {
                        lemma_members_view_push(out@, (key, value));
                        lemma_members_view_push(members@.take(i as int), members@[i as int]);
                        assert(members@.take(i as int).push(members@[i as int]) =~= members@.take(
                            i as int + 1,
                        ));
                    }
                    out.push((key, value));
                    i = i + 1;
                }
                assert(members@.take(members.len() as int) =~= members@);
                JsonValue::Object(out)
            },
        }
    }
}

impl Clone for JsonValue {
    fn clone(&self) -> (r: Self)
        ensures
            r@ == self@,
    {
        self.deep_copy()
    }
}


/// The lower-case hexadecimal digit of a value below sixteen.
pub open spec fn hex_digit(d: nat) -> char {
    if d < 10 {
        (('0' as nat) + d) as char
    } else {
        (('a' as nat) + d - 10) as char
    }
}

/// The JSON string escape of one character: quote, backslash and the
/// control characters are escaped, everything else stands for itself.
pub open spec fn json_escape_char(c: char) -> Seq<char> {
    if c == '"' {
        seq!['\\', '"']
    } else if c == '\\' {
        seq!['\\', '\\']
    } else if c == '\n' {
        seq!['\\', 'n']
    } else if c == '\r' {
        seq!['\\', 'r']
    } else if c == '\t' {
        seq!['\\', 't']
    } else if c == '\x08' {
        seq!['\\', 'b']
    } else if c == '\x0c' {
        seq!['\\', 'f']
    } else if (c as u32) < 32 {
        seq!['\\', 'u', '0', '0', hex_digit(((c as u32) / 16) as nat), hex_digit(((c as u32) % 16) as nat)]
    } else {
        seq![c]
    }
}

/// The JSON string escape of a text.
pub open spec fn json_escape(s: Seq<char>) -> Seq<char>
    decreases s.len(),
{
    if s.len() == 0 {
        Seq::empty()
    } else {
        json_escape(s.drop_last()) + json_escape_char(s.last())
    }
}

/// A quoted JSON string.
pub open spec fn json_quoted(s: Seq<char>) -> Seq<char> {
    seq!['"'] + json_escape(s) + seq!['"']
}

pub fn hex_char(d: u32) -> (c: char)
    requires
        d < 16,
    ensures
        c == hex_digit(d as nat),
{
    if d < 10 {
        (('0' as u32) + d) as u8 as char
    } else {
        (('a' as u32) + d - 10) as u8 as char
    }
}

/// Appends the JSON escape of a text.
pub fn push_json_escaped(out: &mut String, text: &str)
    ensures
        final(out)@ == old(out)@ + json_escape(text@),
{
    let chars = chars_of(text);
    let mut i: usize = 0;
    while i < chars.len()
        invariant
            i <= chars.len(),
            chars@ == text@,
            out@ == old(out)@ + json_escape(text@.take(i as int)),
        decreases chars.len() - i,
    {
        let c = chars[i];
        let ghost before = out@;
        if c == '"' {
            out.push('\\');
            out.push('"');
        } else if c == '\\' {
            out.push('\\');
            out.push('\\');
        } else if c == '\n' {
            out.push('\\');
            out.push('n');
        } else if c == '\r' {
            out.push('\\');
            out.push('r');
        } else if c == '\t' {
            out.push('\\');
            out.push('t');
        } else if c == '\x08' {
            out.push('\\');
            out.push('b');
        } else if c == '\x0c' {
            out.push('\\');
            out.push('f');
        } else if (c as u32) < 32 {
            let code = c as u32;
            out.push('\\');
            out.push('u');
            out.push('0');
            out.push('0');
            out.push(hex_char(code / 16));
            out.push(hex_char(code % 16));
        } else {
            out.push(c);
        }
        proof {
            assert(out@ =~= before + json_escape_char(c));
            assert(text@.take(i as int + 1).drop_last() =~= text@.take(i as int));
        }
        i = i + 1;
    }
    assert(text@.take(chars.len() as int) =~= text@);
}

#[verifier::external_type_specification]
#[verifier::external_body]
pub struct ExSerdeJsonValue(serde_json::Value);

/// What `serde_json::from_str` makes of a text: the parsed value, or the
/// text of the parse error.
pub uninterp spec fn parsed_json(text: Seq<char>) -> Result<JsonData, Seq<char>>;

/// The library's value for a `serde_json::Value`, variant for variant:
/// numbers keep their text, object members come in the map's order.
#[verifier::external_body]
fn json_from_serde(v: &serde_json::Value) -> JsonValue {
    match v {
        serde_json::Value::Null => JsonValue::Null,
        serde_json::Value::Bool(b) => JsonValue::Bool(*b),
        serde_json::Value::Number(n) => JsonValue::Number(n.to_string()),
        serde_json::Value::String(s) => JsonValue::Str(s.clone()),
        serde_json::Value::Array(items) => JsonValue::Array(items.iter().map(json_from_serde).collect()),
        serde_json::Value::Object(m) => JsonValue::Object(
            m.iter().map(|(k, x)| (k.clone(), json_from_serde(x))).collect(),
        ),
    }
}

/// The `serde_json::Value` for a value of the library, variant for
/// variant: numbers are read back from their text with
/// `serde_json::Number`'s `FromStr` (the library holds only numbers that
/// `serde_json` wrote; a text that does not read as a number becomes
/// `null`), object members go into `serde_json`'s map.
#[verifier::external_body]
fn json_to_serde(v: &JsonValue) -> serde_json::Value {
    match v {
        JsonValue::Null => serde_json::Value::Null,
        JsonValue::Bool(b) => serde_json::Value::Bool(*b),
        JsonValue::Number(n) => match n.parse::<serde_json::Number>() {
            Ok(x) => serde_json::Value::Number(x),
            Err(_) => serde_json::Value::Null,
        },
        JsonValue::Str(s) => serde_json::Value::String(s.clone()),
        JsonValue::Array(items) => serde_json::Value::Array(items.iter().map(json_to_serde).collect()),
        JsonValue::Object(m) => serde_json::Value::Object(
            m.iter().map(|(k, x)| (k.clone(), json_to_serde(x))).collect(),
        ),
    }
}

/// The compact text `serde_json::to_string` writes for a value once it is
/// a `serde_json::Value`.
pub uninterp spec fn serialized_json(v: JsonData) -> Seq<char>;

/// The compact JSON text of a value, written by `serde_json::to_string`
/// on its `serde_json::Value`; the text is named (`serialized_json`).
/// Serializing a `serde_json::Value` does not fail (its map keys are
/// strings); the empty text stands for a failure, as an unwrapped default.
#[verifier::external_body]
pub(crate) fn to_json_text(v: &JsonValue) -> (r: String)
    ensures
        r@ == serialized_json(v@),
{
    serde_json::to_string(&json_to_serde(v)).unwrap_or_default()
}

/// Parses JSON text with `serde_json::from_str::<serde_json::Value>`.  The
/// contract names the outcome (`parsed_json`); which texts parse, and the
/// wording of the error, are serde_json's.  It claims one fact more: the
/// value is well-formed (`json_wf`), since serde_json's map (a `BTreeMap`
/// without the `preserve_order` feature) holds each key once and walks
/// its keys in ascending order.
#[verifier::external_body]
pub(crate) fn parse_json_text(text: &str) -> (r: Result<JsonValue, String>)
    ensures
        match r {
            Ok(v) => parsed_json(text@) == Ok::<JsonData, Seq<char>>(v@),
            Err(e) => parsed_json(text@) == Err::<JsonData, Seq<char>>(e@),
        },
        r matches Ok(v) ==> json_wf(v@),
{
    match serde_json::from_str::<serde_json::Value>(text) {
        Ok(v) => Ok(json_from_serde(&v)),
        Err(e) => Err(e.to_string()),
    }
}

} // verus!
