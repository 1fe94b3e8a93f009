//! JSON-LD structured data: splitting a payload into typed schema blocks
//! and the schema.org shape checks of a block.
use vstd::prelude::*;

use crate::dto::{
    blocks_view, BlockData, SeoDiagnosticSeverity, SeoFieldSource, SeoSchemaBlockKind,
    SeoStructuredDataBlock,
};
use crate::json::{
    json_view, json_wf, items_view, lemma_items_view_take, lemma_members_view_index,
    lemma_members_view_push, lemma_members_wf, member_keys, members_view, JsonData, JsonValue,
};
use crate::text::{
    append, opt_view, owned, str_eq, str_lt, text_lt, trim, is_blank, lemma_text_lt_asymmetric,
    lemma_text_lt_total, lemma_text_lt_transitive, strictly_sorted,
};

verus! {

// ---------------------------------------------------------------------------
// Object members
// ---------------------------------------------------------------------------

/// The position of the first member named `k`, or `-1`.
pub open spec fn key_index(s: Seq<(Seq<char>, JsonData)>, k: Seq<char>) -> int
    decreases s.len(),
{
    if s.len() == 0 {
        -1
    } else if s[0].0 == k {
        0
    } else {
        let r = key_index(s.drop_first(), k);
        if r < 0 {
            -1
        } else {
            r + 1
        }
    }
}

/// The value of the first member named `k`.
pub open spec fn member_get(s: Seq<(Seq<char>, JsonData)>, k: Seq<char>) -> Option<JsonData> {
    let i = key_index(s, k);
    if 0 <= i < s.len() {
        Some(s[i].1)
    } else {
        None
    }
}

/// The members not named `k`, in order.
pub open spec fn without_key(s: Seq<(Seq<char>, JsonData)>, k: Seq<char>) -> Seq<
    (Seq<char>, JsonData),
>
    decreases s.len(),
{
    if s.len() == 0 {
        s
    } else {
        let t = without_key(s.drop_last(), k);
        if s.last().0 == k {
            t
        } else {
            t.push(s.last())
        }
    }
}

/// Insertion of a member into members kept in key order (the order of a
/// JSON object map): after every smaller key, replacing a member with the
/// same key.
pub open spec fn insert_member(s: Seq<(Seq<char>, JsonData)>, k: Seq<char>, v: JsonData) -> Seq<
    (Seq<char>, JsonData),
>
    decreases s.len(),
{
    if s.len() == 0 {
        seq![(k, v)]
    } else if text_lt(s.last().0, k) {
        s.push((k, v))
    } else if s.last().0 == k {
        s.drop_last().push((k, v))
    } else {
        insert_member(s.drop_last(), k, v).push(s.last())
    }
}

/// `key_index` is the first position holding the key.
pub proof fn lemma_key_index(s: Seq<(Seq<char>, JsonData)>, k: Seq<char>)
    ensures
        -1 <= key_index(s, k) < s.len(),
        key_index(s, k) >= 0 ==> s[key_index(s, k)].0 == k,
        forall|j: int|
            0 <= j < s.len() && (key_index(s, k) < 0 || j < key_index(s, k)) ==> #[trigger] s[j].0
                != k,
    decreases s.len(),
{
    if s.len() > 0 && s[0].0 != k {
        let t = s.drop_first();
        lemma_key_index(t, k);
        assert forall|j: int|
            0 <= j < s.len() && (key_index(s, k) < 0 || j < key_index(s, k)) implies #[trigger] s[j].0
            != k by {
            if j > 0 {
                assert(s[j] == t[j - 1]);
            }
        }
    }
}

/// The position of the first member named `key`.
pub fn find_key(members: &Vec<(String, JsonValue)>, key: &str) -> (r: Option<usize>)
    ensures
        match r {
            Some(i) => i < members.len() && i as int == key_index(members_view(members@), key@),
            None => key_index(members_view(members@), key@) < 0,
        },
{
    let ghost mv = members_view(members@);
    proof {
        lemma_members_view_index(members@);
        lemma_key_index(mv, key@);
    }
    let mut i: usize = 0;
    while i < members.len()
        invariant
            i <= members.len(),
            mv == members_view(members@),
            mv.len() == members.len(),
            forall|k: int| 0 <= k < members.len() ==> #[trigger] mv[k] == (members@[k].0@, json_view(members@[k].1)),
            forall|j: int| 0 <= j < i ==> #[trigger] mv[j].0 != key@,
        decreases members.len() - i,
    {
        if str_eq(members[i].0.as_str(), key) {
            proof {
                lemma_key_index(mv, key@);
                let idx = key_index(mv, key@);
                assert(mv[i as int].0 == key@);
                if idx >= 0 && idx < i {
                    assert(mv[idx].0 == key@);
                }
            }
            return Some(i);
        }
        i = i + 1;
    }
    proof {
        lemma_key_index(mv, key@);
        let idx = key_index(mv, key@);
        if idx >= 0 {
            assert(mv[idx].0 == key@);
        }
    }
    None
}

/// Members without those named `key`, copied.
pub fn copy_without_key(members: &Vec<(String, JsonValue)>, key: &str) -> (r: Vec<(String, JsonValue)>)
    ensures
        members_view(r@) == without_key(members_view(members@), key@),
{
    proof {
        lemma_members_view_index(members@);
    }
    let mut out: Vec<(String, JsonValue)> = Vec::new();
    let mut i: usize = 0;
    while i < members.len()
        invariant
            i <= members.len(),
            members_view(out@) == without_key(members_view(members@.take(i as int)), key@),
        decreases members.len() - i,
    {
        proof {
            lemma_members_view_push(members@.take(i as int), members@[i as int]);
            assert(members@.take(i as int).push(members@[i as int]) =~= members@.take(i as int + 1));
            assert(members_view(members@.take(i as int + 1)).drop_last() =~= members_view(members@.take(i as int)));
        }
        if !str_eq(members[i].0.as_str(), key) {
            let k = members[i].0.clone();
            let v = members[i].1.deep_copy();
            proof {
                lemma_members_view_push(out@, (k, v));
            }
            out.push((k, v));
        }
        i = i + 1;
    }
    assert(members@.take(members.len() as int) =~= members@);
    out
}

/// The shape of an insertion of an absent key before the first greater key.
pub proof fn lemma_insert_member_at(
    s: Seq<(Seq<char>, JsonData)>,
    k: Seq<char>,
    v: JsonData,
    j: int,
)
    requires
        0 <= j <= s.len(),
        forall|m: int| 0 <= m < s.len() ==> #[trigger] s[m].0 != k,
        forall|m: int| j <= m < s.len() ==> text_lt(k, #[trigger] s[m].0),
        j == 0 || text_lt(s[j - 1].0, k),
    ensures
        insert_member(s, k, v) == s.take(j).push((k, v)) + s.skip(j),
    decreases s.len(),
{
    if s.len() == 0 {
        assert(s.take(j).push((k, v)) + s.skip(j) =~= seq![(k, v)]);
    } else if text_lt(s.last().0, k) {
        if j < s.len() {
            lemma_text_lt_asymmetric(k, s.last().0);
        }
        assert(s.take(j).push((k, v)) + s.skip(j) =~= s.push((k, v)));
    } else {
        assert(s.last().0 != k);
        if j == s.len() {
            assert(text_lt(s[j - 1].0, k));
        }
        let t = s.drop_last();
        lemma_insert_member_at(t, k, v, j);
        assert((t.take(j).push((k, v)) + t.skip(j)).push(s.last()) =~= s.take(j).push((k, v))
            + s.skip(j));
    }
}

/// Inserts an absent member, keeping members in key order.
pub fn insert_absent_member(members: &mut Vec<(String, JsonValue)>, key: String, value: JsonValue)
    requires
        key_index(members_view(old(members)@), key@) < 0,
    ensures
        members_view(final(members)@) == insert_member(members_view(old(members)@), key@, value@),
{
    let ghost mv = members_view(members@);
    proof {
        lemma_members_view_index(members@);
        lemma_key_index(mv, key@);
    }
    let mut j: usize = members.len();
    while j > 0 && str_lt(key.as_str(), members[j - 1].0.as_str())
        invariant
            j <= members.len(),
            members@ == old(members)@,
            mv == members_view(members@),
            mv.len() == members.len(),
            forall|k: int| 0 <= k < members.len() ==> #[trigger] mv[k] == (members@[k].0@, json_view(members@[k].1)),
            forall|m: int| j <= m < mv.len() ==> text_lt(key@, #[trigger] mv[m].0),
        decreases j,
    {
        j = j - 1;
    }
    proof {
        if j > 0 {
            assert(mv[j - 1].0 != key@);
            lemma_text_lt_total(mv[j - 1].0, key@);
        }
        lemma_insert_member_at(mv, key@, value@, j as int);
    }
    let ghost kv = (key@, value@);
    members.insert(j, (key, value));
    proof {
        lemma_members_view_index(members@);
        assert(members_view(members@) =~= mv.take(j as int).push(kv) + mv.skip(j as int));
    }
}

// ---------------------------------------------------------------------------
// Schema blocks
// ---------------------------------------------------------------------------

/// The first string item that is not blank.
pub open spec fn first_nonblank_str(items: Seq<JsonData>) -> Option<Seq<char>>
    decreases items.len(),
{
    if items.len() == 0 {
        None
    } else if items[0] matches JsonData::Str(s) && trim(s).len() > 0 {
        Some(items[0]->Str_0)
    } else {
        first_nonblank_str(items.drop_first())
    }
}

/// The schema type of a JSON-LD object: its `@type` string when not blank,
/// or the first non-blank string of an `@type` array.
pub open spec fn first_schema_type(obj: Seq<(Seq<char>, JsonData)>) -> Option<Seq<char>> {
    match member_get(obj, "@type"@) {
        Some(JsonData::Str(s)) => if trim(s).len() > 0 {
            Some(s)
        } else {
            None
        },
        Some(JsonData::Array(items)) => first_nonblank_str(items),
        _ => None,
    }
}

/// The JSON-LD context given to a block without its own `@context`.
pub open spec fn default_context() -> JsonData {
    JsonData::Str("https://schema.org"@)
}

/// The members of a block: its own, with the inherited (or default)
/// `@context` added when it has none.
pub open spec fn with_context(obj: Seq<(Seq<char>, JsonData)>, ctx: Option<JsonData>) -> Seq<
    (Seq<char>, JsonData),
> {
    if key_index(obj, "@context"@) >= 0 {
        obj
    } else {
        insert_member(
            obj,
            "@context"@,
            match ctx {
                Some(c) => c,
                None => default_context(),
            },
        )
    }
}

/// The block of one JSON-LD object.
pub open spec fn object_block(
    obj: Seq<(Seq<char>, JsonData)>,
    ctx: Option<JsonData>,
    source: SeoFieldSource,
) -> BlockData {
    let full = with_context(obj, ctx);
    let t = first_schema_type(full);
    BlockData {
        id: match member_get(full, "@id"@) {
            Some(JsonData::Str(s)) => Some(s),
            _ => None,
        },
        schema_kind: match t {
            Some(n) => SeoSchemaBlockKind::from_type_name(trim(n)),
            None => SeoSchemaBlockKind::Unknown,
        },
        schema_type: t,
        kind: t,
        source: source,
        payload: JsonData::Object(full),
    }
}

proof fn lemma_insert_member_shape(s: Seq<(Seq<char>, JsonData)>, k: Seq<char>, v: JsonData)
    ensures
        forall|i: int|
            0 <= i < insert_member(s, k, v).len() ==> (#[trigger] insert_member(s, k, v)[i] == (k, v)
                || s.contains(insert_member(s, k, v)[i])),
    decreases s.len(),
{
    let r = insert_member(s, k, v);
    if s.len() == 0 {
    } else if text_lt(s.last().0, k) {
        assert forall|i: int| 0 <= i < r.len() implies (#[trigger] r[i] == (k, v) || s.contains(r[i])) by {
            if i < s.len() {
                assert(s[i] == r[i]);
            }
        }
    } else if s.last().0 == k {
        assert forall|i: int| 0 <= i < r.len() implies (#[trigger] r[i] == (k, v) || s.contains(r[i])) by {
            if i < s.len() - 1 {
                assert(s[i] == r[i]);
            }
        }
    } else {
        let t = s.drop_last();
        lemma_insert_member_shape(t, k, v);
        let inner = insert_member(t, k, v);
        assert forall|i: int| 0 <= i < r.len() implies (#[trigger] r[i] == (k, v) || s.contains(r[i])) by {
            if i < inner.len() {
                assert(r[i] == inner[i]);
                if inner[i] != (k, v) {
                    assert(t.contains(inner[i]));
                    let m = choose|m: int| 0 <= m < t.len() && t[m] == inner[i];
                    assert(s[m] == t[m]);
                }
            } else {
                assert(r[i] == s[s.len() - 1]);
            }
        }
    }
}

proof fn lemma_insert_member_sorted(s: Seq<(Seq<char>, JsonData)>, k: Seq<char>, v: JsonData)
    requires
        strictly_sorted(member_keys(s)),
    ensures
        strictly_sorted(member_keys(insert_member(s, k, v))),
    decreases s.len(),
{
    let r = insert_member(s, k, v);
    let ks = member_keys(s);
    let kr = member_keys(r);
    if s.len() == 0 {
    } else if text_lt(s.last().0, k) {
        assert forall|i: int, j: int| 0 <= i < j < kr.len() implies text_lt(#[trigger] kr[i], #[trigger] kr[j]) by {
            if j == s.len() {
                assert(kr[j] == k);
                assert(kr[i] == ks[i]);
                if i < s.len() - 1 {
                    assert(text_lt(ks[i], ks[s.len() - 1]));
                    lemma_text_lt_transitive(ks[i], ks[s.len() - 1], k);
                }
            } else {
                assert(kr[i] == ks[i] && kr[j] == ks[j]);
            }
        }
    } else if s.last().0 == k {
        assert forall|i: int, j: int| 0 <= i < j < kr.len() implies text_lt(#[trigger] kr[i], #[trigger] kr[j]) by {
            assert(kr[i] == ks[i] && kr[j] == ks[j]);
        }
    } else {
        let t = s.drop_last();
        let kt = member_keys(t);
        assert forall|i: int, j: int| 0 <= i < j < kt.len() implies text_lt(#[trigger] kt[i], #[trigger] kt[j]) by {
            assert(kt[i] == ks[i] && kt[j] == ks[j]);
        }
        lemma_insert_member_sorted(t, k, v);
        lemma_insert_member_shape(t, k, v);
        lemma_text_lt_total(s.last().0, k);
        let inner = insert_member(t, k, v);
        let ki = member_keys(inner);
        assert forall|i: int, j: int| 0 <= i < j < kr.len() implies text_lt(#[trigger] kr[i], #[trigger] kr[j]) by {
            if j == kr.len() - 1 {
                assert(kr[j] == s.last().0);
                assert(r[i] == inner[i]);
                assert(kr[i] == inner[i].0);
                if inner[i] != (k, v) {
                    assert(t.contains(inner[i]));
                    let m = choose|m: int| 0 <= m < t.len() && t[m] == inner[i];
                    assert(ks[m] == t[m].0);
                    assert(text_lt(ks[m], ks[s.len() - 1]));
                }
            } else {
                assert(kr[i] == ki[i] && kr[j] == ki[j]);
            }
        }
    }
}

/// A block made of a well-formed object (and a well-formed inherited
/// context) has a well-formed payload: adding `@context` keeps the keys
/// ascending, each once.
pub proof fn lemma_object_block_wf(obj: Seq<(Seq<char>, JsonData)>, ctx: Option<JsonData>, source: SeoFieldSource)
    requires
        json_wf(JsonData::Object(obj)),
        ctx matches Some(c) ==> json_wf(c),
    ensures
        json_wf(object_block(obj, ctx, source).payload),
{
    let c = match ctx {
        Some(c) => c,
        None => default_context(),
    };
    if key_index(obj, "@context"@) < 0 {
        let r = insert_member(obj, "@context"@, c);
        lemma_insert_member_sorted(obj, "@context"@, c);
        lemma_insert_member_shape(obj, "@context"@, c);
        lemma_members_wf(obj);
        lemma_members_wf(r);
        assert forall|i: int| 0 <= i < r.len() implies json_wf(#[trigger] r[i].1) by {
            if r[i] != ("@context"@, c) {
                assert(obj.contains(r[i]));
                let m = choose|m: int| 0 <= m < obj.len() && obj[m] == r[i];
                assert(json_wf(obj[m].1));
            }
        }
    }
}

/// The blocks of a JSON-LD value: arrays are flattened, an object with an
/// `@graph` array stands for the graph's items (which inherit its
/// `@context`), any other object is one block, other values give none.
pub open spec fn collect_blocks(v: JsonData, ctx: Option<JsonData>, source: SeoFieldSource) -> Seq<
    BlockData,
>
    decreases v, 1int,
{
    match v {
        JsonData::Array(items) => collect_items(items, ctx, source),
        JsonData::Object(ms) => {
            let gi = key_index(ms, "@graph"@);
            let rest = without_key(ms, "@graph"@);
            if 0 <= gi < ms.len() && ms[gi].1 is Array {
                proof {
                    assert(decreases_to!(v => ms));
                    assert(decreases_to!(ms => ms[gi]));
                    assert(decreases_to!(ms[gi] => ms[gi].1));
                    assert(decreases_to!(ms[gi].1 => ms[gi].1->Array_0));
                }
                let graph_ctx = match member_get(rest, "@context"@) {
                    Some(c) => Some(c),
                    None => ctx,
                };
                collect_items(ms[gi].1->Array_0, graph_ctx, source)
            } else {
                seq![object_block(rest, ctx, source)]
            }
        },
        _ => Seq::empty(),
    }
}

/// The blocks of a sequence of JSON-LD values, in order.
pub open spec fn collect_items(
    items: Seq<JsonData>,
    ctx: Option<JsonData>,
    source: SeoFieldSource,
) -> Seq<BlockData>
    decreases items, 0int,
{
    if items.len() == 0 {
        Seq::empty()
    } else {
        proof {
            assert(decreases_to!(items => items[items.len() - 1]));
            assert(decreases_to!(items => items.subrange(0, items.len() - 1)));
        }
        collect_items(items.subrange(0, items.len() - 1), ctx, source) + collect_blocks(
            items[items.len() - 1],
            ctx,
            source,
        )
    }
}

/// The view of an optional borrowed JSON value.
pub open spec fn opt_json(o: Option<&JsonValue>) -> Option<JsonData> {
    match o {
        Some(c) => Some(json_view(*c)),
        None => None,
    }
}

/// The `@context` of a top-level JSON-LD object.
pub open spec fn top_context(v: JsonData) -> Option<JsonData> {
    match v {
        JsonData::Object(ms) => member_get(ms, "@context"@),
        _ => None,
    }
}

proof fn lemma_blocks_view_push(s: Seq<SeoStructuredDataBlock>, b: SeoStructuredDataBlock)
    ensures
        blocks_view(s.push(b)) == blocks_view(s).push(b@),
{
    assert(blocks_view(s.push(b)) =~= blocks_view(s).push(b@));
}

fn first_nonblank_string(items: &Vec<JsonValue>) -> (r: Option<String>)
    ensures
        opt_view(r) == first_nonblank_str(items_view(items@)),
{
    proof {
        lemma_items_view_take(items@, 0);
    }
    let ghost iv = items_view(items@);
    let mut i: usize = 0;
    assert(iv.skip(0) =~= iv);
    while i < items.len()
        invariant
            i <= items.len(),
            iv == items_view(items@),
            iv.len() == items.len(),
            forall|k: int| 0 <= k < items.len() ==> #[trigger] iv[k] == json_view(items@[k]),
            first_nonblank_str(iv) == first_nonblank_str(iv.skip(i as int)),
        decreases items.len() - i,
    {
        proof {
            assert(iv.skip(i as int).drop_first() =~= iv.skip(i as int + 1));
            assert(iv.skip(i as int)[0] == iv[i as int]);
        }
        match &items[i] {
            JsonValue::Str(s) => {
                if !is_blank(s.as_str()) {
                    return Some(s.clone());
                }
            },
            _ => {},
        }
        i = i + 1;
    }
    None
}

/// The schema type of JSON-LD object members (see `first_schema_type`).
pub fn schema_type_of(members: &Vec<(String, JsonValue)>) -> (r: Option<String>)
    ensures
        opt_view(r) == first_schema_type(members_view(members@)),
{
    proof {
        lemma_members_view_index(members@);
    }
    match find_key(members, "@type") {
        Some(i) => match &members[i].1 {
            JsonValue::Str(s) => {
                if is_blank(s.as_str()) {
                    None
                } else {
                    Some(s.clone())
                }
            },
            JsonValue::Array(items) => first_nonblank_string(items),
            _ => None,
        },
        None => None,
    }
}

fn block_of_object(
    obj: Vec<(String, JsonValue)>,
    source: SeoFieldSource,
    ctx: Option<&JsonValue>,
) -> (r: SeoStructuredDataBlock)
    ensures
        r@ == object_block(members_view(obj@), opt_json(ctx), source),
{
    let mut full = obj;
    if find_key(&full, "@context").is_none() {
        let context = match ctx {
            Some(c) => c.deep_copy(),
            None => JsonValue::Str(owned("https://schema.org")),
        };
        insert_absent_member(&mut full, owned("@context"), context);
    }
    proof {
        lemma_members_view_index(full@);
    }
    let schema_type = schema_type_of(&full);
    let id = match find_key(&full, "@id") {
        Some(i) => match &full[i].1 {
            JsonValue::Str(s) => Some(s.clone()),
            _ => None,
        },
        None => None,
    };
    let schema_kind = match &schema_type {
        Some(t) => SeoSchemaBlockKind::from_schema_type(t.as_str()),
        None => SeoSchemaBlockKind::Unknown,
    };
    let kind = match &schema_type {
        Some(t) => Some(t.clone()),
        None => None,
    };
    SeoStructuredDataBlock {
        id: id,
        schema_kind: schema_kind,
        schema_type: schema_type,
        kind: kind,
        source: source,
        payload: JsonValue::Object(full),
    }
}

fn collect_schema_blocks(
    value: &JsonValue,
    source: SeoFieldSource,
    ctx: Option<&JsonValue>,
    blocks: &mut Vec<SeoStructuredDataBlock>,
)
    ensures
        blocks_view(final(blocks)@) == blocks_view(old(blocks)@) + collect_blocks(
            value@,
            opt_json(ctx),
            source,
        ),
    decreases value,
{
    match value {
        JsonValue::Array(items) => {
            collect_items_into(value, items, source, ctx, blocks);
        },
        JsonValue::Object(members) => {
            proof {
                lemma_members_view_index(members@);
            }
            let rest = copy_without_key(members, "@graph");
            match find_key(members, "@graph") {
                Some(gi) => {
                    match &members[gi].1 {
                        JsonValue::Array(graph) => {
                            proof {
                                assert(decreases_to!(*value => value->Object_0));
                                assert(decreases_to!(*members => members[gi as int]));
                                assert(decreases_to!(members[gi as int] => members[gi as int].1));
                            }
                            proof {
                                lemma_members_view_index(rest@);
                            }
                            match find_key(&rest, "@context") {
                                Some(ci) => {
                                    collect_items_into(&members[gi].1, graph, source, Some(&rest[ci].1), blocks);
                                },
                                None => {
                                    collect_items_into(&members[gi].1, graph, source, ctx, blocks);
                                },
                            }
                        },
                        _ => {
                            let b = block_of_object(rest, source, ctx);
                            proof {
                                lemma_blocks_view_push(blocks@, b);
                            }
                            blocks.push(b);
                        },
                    }
                },
                None => {
                    let b = block_of_object(rest, source, ctx);
                    proof {
                        lemma_blocks_view_push(blocks@, b);
                    }
                    blocks.push(b);
                },
            }
        },
        _ => {},
    }
}

fn collect_items_into(
    owner: &JsonValue,
    items: &Vec<JsonValue>,
    source: SeoFieldSource,
    ctx: Option<&JsonValue>,
    blocks: &mut Vec<SeoStructuredDataBlock>,
)
    requires
        *owner == JsonValue::Array(*items),
    ensures
        blocks_view(final(blocks)@) == blocks_view(old(blocks)@) + collect_items(
            items_view(items@),
            opt_json(ctx),
            source,
        ),
    decreases owner, 0int,
{
    let ghost start = blocks_view(blocks@);
    let mut i: usize = 0;
    proof {
        assert(items@.take(0) =~= Seq::<JsonValue>::empty());
        assert(start + Seq::<BlockData>::empty() =~= start);
    }
    while i < items.len()
        invariant
            i <= items.len(),
            *owner == JsonValue::Array(*items),
            blocks_view(blocks@) == start + collect_items(
                items_view(items@.take(i as int)),
                opt_json(ctx),
                source,
            ),
        decreases items.len() - i,
    {
        proof {
            assert(decreases_to!(*owner => owner->Array_0));
            assert(decreases_to!(*items => items[i as int]));
            lemma_items_view_take(items@, i as int + 1);
            lemma_items_view_take(items@.take(i as int + 1), i as int);
            assert(items@.take(i as int + 1).take(i as int) =~= items@.take(i as int));
            let t = items_view(items@.take(i as int + 1));
            assert(t.subrange(0, t.len() - 1) =~= items_view(items@.take(i as int)));
            assert(t[t.len() - 1] == json_view(items@[i as int]));
        }
        collect_schema_blocks(&items[i], source, ctx, blocks);
        i = i + 1;
    }
    assert(items@.take(items.len() as int) =~= items@);
}

/// The typed schema blocks of a JSON-LD payload (see `collect_blocks`); the
/// top-level `@context` is inherited by nested blocks.
pub fn schema_blocks_from_value(value: &JsonValue, source: SeoFieldSource) -> (r: Vec<
    SeoStructuredDataBlock,
>)
    ensures
        blocks_view(r@) == collect_blocks(value@, top_context(value@), source),
{
    let mut blocks: Vec<SeoStructuredDataBlock> = Vec::new();
    match value {
        JsonValue::Object(members) => {
            proof {
                lemma_members_view_index(members@);
            }
            match find_key(members, "@context") {
                Some(ci) => collect_schema_blocks(value, source, Some(&members[ci].1), &mut blocks),
                None => collect_schema_blocks(value, source, None, &mut blocks),
            }
        },
        _ => collect_schema_blocks(value, source, None, &mut blocks),
    }
    assert(blocks_view(blocks@) =~= collect_blocks(value@, top_context(value@), source));
    blocks
}

/// A structured-data payload is valid when it has at least one block and
/// every block has a recognized schema type.
pub open spec fn valid_structured_data(v: JsonData) -> bool {
    let blocks = collect_blocks(v, top_context(v), SeoFieldSource::Explicit);
    blocks.len() > 0 && forall|i: int|
        0 <= i < blocks.len() ==> #[trigger] blocks[i].schema_kind != SeoSchemaBlockKind::Unknown
}

/// Whether a structured-data payload is valid (see `valid_structured_data`).
pub fn is_valid_structured_data_payload(value: &JsonValue) -> (r: bool)
    ensures
        r == valid_structured_data(value@),
{
    let blocks = schema_blocks_from_value(value, SeoFieldSource::Explicit);
    if blocks.len() == 0 {
        return false;
    }
    let mut i: usize = 0;
    while i < blocks.len()
        invariant
            i <= blocks.len(),
            blocks_view(blocks@) == collect_blocks(value@, top_context(value@), SeoFieldSource::Explicit),
            forall|k: int| 0 <= k < i ==> #[trigger] blocks_view(blocks@)[k].schema_kind != SeoSchemaBlockKind::Unknown,
        decreases blocks.len() - i,
    {
        if blocks[i].schema_kind == SeoSchemaBlockKind::Unknown {
            assert(blocks_view(blocks@)[i as int].schema_kind == SeoSchemaBlockKind::Unknown);
            return false;
        }
        i = i + 1;
    }
    true
}


// ---------------------------------------------------------------------------
// Block validation
// ---------------------------------------------------------------------------

/// A problem found in a structured-data block.
#[derive(Clone, Debug)]
pub struct SchemaValidationIssue {
    pub code: &'static str,
    pub severity: SeoDiagnosticSeverity,
    pub message: String,
}

/// The mathematical form of a validation issue.
pub struct IssueData {
    pub code: Seq<char>,
    pub severity: SeoDiagnosticSeverity,
    pub message: Seq<char>,
}

impl View for SchemaValidationIssue {
    type V = IssueData;

    open spec fn view(&self) -> IssueData {
        IssueData { code: self.code@, severity: self.severity, message: self.message@ }
    }
}

/// The views of a sequence of issues.
pub open spec fn issues_view(s: Seq<SchemaValidationIssue>) -> Seq<IssueData> {
    s.map_values(|i: SchemaValidationIssue| i@)
}

/// The fields schema.org requires of each kind of block.
pub open spec fn required_fields(kind: SeoSchemaBlockKind) -> Seq<Seq<char>> {
    match kind {
        SeoSchemaBlockKind::Product => seq!["name"@],
        SeoSchemaBlockKind::Offer => seq!["price"@, "priceCurrency"@],
        SeoSchemaBlockKind::BreadcrumbList => seq!["itemListElement"@],
        SeoSchemaBlockKind::ItemList => seq!["itemListElement"@],
        SeoSchemaBlockKind::FAQPage => seq!["mainEntity"@],
        SeoSchemaBlockKind::HowTo => seq!["name"@],
        SeoSchemaBlockKind::Organization => seq!["name"@],
        SeoSchemaBlockKind::LocalBusiness => seq!["name"@],
        SeoSchemaBlockKind::WebSite => seq!["name"@],
        SeoSchemaBlockKind::Article => seq!["headline"@],
        SeoSchemaBlockKind::BlogPosting => seq!["headline"@],
        SeoSchemaBlockKind::NewsArticle => seq!["headline"@],
        SeoSchemaBlockKind::DiscussionForumPosting => seq!["headline"@],
        SeoSchemaBlockKind::WebPage => seq!["name"@],
        SeoSchemaBlockKind::CollectionPage => seq!["name"@],
        _ => Seq::empty(),
    }
}

/// The views of a sequence of string slices.
pub open spec fn str_views(s: Seq<&'static str>) -> Seq<Seq<char>> {
    s.map_values(|x: &'static str| x@)
}

/// The fields schema.org requires of a kind of block.
pub fn required_fields_for_kind(kind: SeoSchemaBlockKind) -> (r: Vec<&'static str>)
    ensures
        str_views(r@) == required_fields(kind),
{
    let mut r: Vec<&'static str> = Vec::new();
    match kind {
        SeoSchemaBlockKind::Product | SeoSchemaBlockKind::HowTo | SeoSchemaBlockKind::Organization
        | SeoSchemaBlockKind::LocalBusiness | SeoSchemaBlockKind::WebSite
        | SeoSchemaBlockKind::WebPage | SeoSchemaBlockKind::CollectionPage => {
            r.push("name");
        },
        SeoSchemaBlockKind::Offer => {
            r.push("price");
            r.push("priceCurrency");
        },
        SeoSchemaBlockKind::BreadcrumbList | SeoSchemaBlockKind::ItemList => {
            r.push("itemListElement");
        },
        SeoSchemaBlockKind::FAQPage => {
            r.push("mainEntity");
        },
        SeoSchemaBlockKind::Article | SeoSchemaBlockKind::BlogPosting
        | SeoSchemaBlockKind::NewsArticle | SeoSchemaBlockKind::DiscussionForumPosting => {
            r.push("headline");
        },
        _ => {},
    }
    assert(str_views(r@) =~= required_fields(kind));
    r
}

/// The issue for a missing required field.
pub open spec fn missing_field_issue(tname: Seq<char>, field: Seq<char>) -> IssueData {
    IssueData {
        code: "missing_required_schema_field"@,
        severity: SeoDiagnosticSeverity::Warning,
        message: "Schema `"@ + tname + "` is missing required field `"@ + field + "`."@,
    }
}

/// One issue per required field that the object lacks, in field order.
pub open spec fn missing_field_issues(
    obj: Seq<(Seq<char>, JsonData)>,
    fields: Seq<Seq<char>>,
    tname: Seq<char>,
) -> Seq<IssueData>
    decreases fields.len(),
{
    if fields.len() == 0 {
        Seq::empty()
    } else {
        let prev = missing_field_issues(obj, fields.drop_last(), tname);
        if key_index(obj, fields.last()) >= 0 {
            prev
        } else {
            prev.push(missing_field_issue(tname, fields.last()))
        }
    }
}

/// The shape issue of a list or FAQ block whose list field is not an array.
pub open spec fn shape_issues(kind: SeoSchemaBlockKind, obj: Seq<(Seq<char>, JsonData)>) -> Seq<
    IssueData,
> {
    if kind == SeoSchemaBlockKind::BreadcrumbList || kind == SeoSchemaBlockKind::ItemList {
        match member_get(obj, "itemListElement"@) {
            Some(v) => if v is Array {
                Seq::empty()
            } else {
                seq![
                    IssueData {
                        code: "invalid_schema_shape"@,
                        severity: SeoDiagnosticSeverity::Error,
                        message: "itemListElement must be an array for BreadcrumbList/ItemList."@,
                    },
                ]
            },
            None => Seq::empty(),
        }
    } else if kind == SeoSchemaBlockKind::FAQPage {
        match member_get(obj, "mainEntity"@) {
            Some(v) => if v is Array {
                Seq::empty()
            } else {
                seq![
                    IssueData {
                        code: "invalid_schema_shape"@,
                        severity: SeoDiagnosticSeverity::Error,
                        message: "mainEntity must be an array for FAQPage."@,
                    },
                ]
            },
            None => Seq::empty(),
        }
    } else {
        Seq::empty()
    }
}

/// The issues of a block: an unrecognized type or a non-object payload is
/// the only issue; otherwise the missing required fields, then the shape
/// issue.
pub open spec fn schema_issues(b: BlockData) -> Seq<IssueData> {
    if b.schema_kind == SeoSchemaBlockKind::Unknown {
        seq![
            IssueData {
                code: "unsupported_schema_source_payload"@,
                severity: SeoDiagnosticSeverity::Warning,
                message: "Schema block has no recognized schema.org @type."@,
            },
        ]
    } else {
        match b.payload {
            JsonData::Object(obj) => {
                let tname = match b.schema_type {
                    Some(t) => t,
                    None => "unknown"@,
                };
                missing_field_issues(obj, required_fields(b.schema_kind), tname)
                    + shape_issues(b.schema_kind, obj)
            },
            _ => seq![
                IssueData {
                    code: "unsupported_schema_source_payload"@,
                    severity: SeoDiagnosticSeverity::Warning,
                    message: "Schema block payload is not a JSON object."@,
                },
            ],
        }
    }
}

proof fn lemma_key_index_absent(s: Seq<(Seq<char>, JsonData)>, k: Seq<char>)
    requires
        forall|i: int| 0 <= i < s.len() ==> (#[trigger] s[i]).0 != k,
    ensures
        key_index(s, k) == -1,
    decreases s.len(),
{
    if s.len() > 0 {
        assert forall|i: int| 0 <= i < s.drop_first().len() implies (#[trigger] s.drop_first()[i]).0 != k by {
            assert(s.drop_first()[i] == s[i + 1]);
        }
        lemma_key_index_absent(s.drop_first(), k);
    }
}

proof fn lemma_key_index_present(s: Seq<(Seq<char>, JsonData)>, k: Seq<char>, i: int)
    requires
        0 <= i < s.len(),
        s[i].0 == k,
    ensures
        key_index(s, k) >= 0,
    decreases s.len(),
{
    if s[0].0 != k {
        assert(s.drop_first()[i - 1] == s[i]);
        lemma_key_index_present(s.drop_first(), k, i - 1);
    }
}

/// Articles need a headline: a block of kind `Article`, `BlogPosting`,
/// `NewsArticle` or `DiscussionForumPosting` whose payload is an object
/// without a `headline` member gets exactly one issue, a warning that
/// names the block's type and `headline`; with a `headline` member it gets
/// none.
pub proof fn lemma_article_kinds_require_headline(b: BlockData)
    requires
        b.schema_kind == SeoSchemaBlockKind::Article || b.schema_kind == SeoSchemaBlockKind::BlogPosting
            || b.schema_kind == SeoSchemaBlockKind::NewsArticle || b.schema_kind
            == SeoSchemaBlockKind::DiscussionForumPosting,
        b.payload is Object,
    ensures
        ({
            let obj = b.payload->Object_0;
            let tname = match b.schema_type {
                Some(t) => t,
                None => "unknown"@,
            };
            &&& (forall|k: int| 0 <= k < obj.len() ==> (#[trigger] obj[k]).0 != "headline"@) ==> schema_issues(b)
                == seq![
                IssueData {
                    code: "missing_required_schema_field"@,
                    severity: SeoDiagnosticSeverity::Warning,
                    message: "Schema `"@ + tname + "` is missing required field `headline`."@,
                },
            ]
            &&& (exists|k: int| 0 <= k < obj.len() && (#[trigger] obj[k]).0 == "headline"@) ==> schema_issues(
                b,
            ).len() == 0
        }),
{
    let obj = b.payload->Object_0;
    let tname = match b.schema_type {
        Some(t) => t,
        None => "unknown"@,
    };
    let fields = required_fields(b.schema_kind);
    reveal_with_fuel(missing_field_issues, 2);
    assert(fields == seq!["headline"@]);
    assert(fields.drop_last() =~= Seq::<Seq<char>>::empty());
    assert(fields.last() == "headline"@);
    if forall|k: int| 0 <= k < obj.len() ==> (#[trigger] obj[k]).0 != "headline"@ {
        lemma_key_index_absent(obj, "headline"@);
        assert(missing_field_issues(obj, fields, tname) =~= seq![missing_field_issue(tname, "headline"@)]);
        assert(schema_issues(b) =~= seq![missing_field_issue(tname, "headline"@)]);
        reveal_strlit("` is missing required field `");
        reveal_strlit("headline");
        reveal_strlit("`.");
        reveal_strlit("` is missing required field `headline`.");
        assert("Schema `"@ + tname + "` is missing required field `"@ + "headline"@ + "`."@ =~= "Schema `"@
            + tname + "` is missing required field `headline`."@);
        assert(schema_issues(b) == seq![
            IssueData {
                code: "missing_required_schema_field"@,
                severity: SeoDiagnosticSeverity::Warning,
                message: "Schema `"@ + tname + "` is missing required field `headline`."@,
            },
        ]);
    }
    if exists|k: int| 0 <= k < obj.len() && (#[trigger] obj[k]).0 == "headline"@ {
        let k = choose|k: int| 0 <= k < obj.len() && (#[trigger] obj[k]).0 == "headline"@;
        lemma_key_index_present(obj, "headline"@, k);
        assert(missing_field_issues(obj, fields, tname) =~= Seq::<IssueData>::empty());
        assert(schema_issues(b) =~= Seq::<IssueData>::empty());
    }
}

/// Whether a code is one of the codes that schema validation reports.
pub open spec fn schema_issue_code(c: Seq<char>) -> bool {
    ||| c == "missing_required_schema_field"@
    ||| c == "invalid_schema_shape"@
    ||| c == "unsupported_schema_source_payload"@
}

proof fn lemma_missing_field_issue_codes(
    obj: Seq<(Seq<char>, JsonData)>,
    fields: Seq<Seq<char>>,
    tname: Seq<char>,
)
    ensures
        forall|k: int|
            0 <= k < missing_field_issues(obj, fields, tname).len() ==> schema_issue_code(
                #[trigger] missing_field_issues(obj, fields, tname)[k].code,
            ),
    decreases fields.len(),
{
    if fields.len() > 0 {
        lemma_missing_field_issue_codes(obj, fields.drop_last(), tname);
    }
}

/// Every issue of a block carries one of the schema validation codes.
pub proof fn lemma_schema_issue_codes(b: BlockData)
    ensures
        forall|k: int| 0 <= k < schema_issues(b).len() ==> schema_issue_code(#[trigger] schema_issues(b)[k].code),
{
    if b.schema_kind != SeoSchemaBlockKind::Unknown {
        if let JsonData::Object(obj) = b.payload {
            let tname = match b.schema_type {
                Some(t) => t,
                None => "unknown"@,
            };
            let a = missing_field_issues(obj, required_fields(b.schema_kind), tname);
            let c = shape_issues(b.schema_kind, obj);
            lemma_missing_field_issue_codes(obj, required_fields(b.schema_kind), tname);
            assert forall|k: int| 0 <= k < (a + c).len() implies schema_issue_code(#[trigger] (a + c)[k].code) by {
                if k < a.len() {
                    assert((a + c)[k] == a[k]);
                } else {
                    assert((a + c)[k] == c[k - a.len()]);
                }
            }
        }
    }
}

fn push_issue(issues: &mut Vec<SchemaValidationIssue>, issue: SchemaValidationIssue)
    ensures
        issues_view(final(issues)@) == issues_view(old(issues)@).push(issue@),
{
    let ghost v = issue@;
    issues.push(issue);
    assert(issues_view(issues@) =~= issues_view(old(issues)@).push(v));
}

fn shape_issue_of(
    issues: &mut Vec<SchemaValidationIssue>,
    members: &Vec<(String, JsonValue)>,
    field: &str,
    message: &'static str,
)
    ensures
        issues_view(final(issues)@) == issues_view(old(issues)@) + match member_get(
            members_view(members@),
            field@,
        ) {
            Some(v) => if v is Array {
                Seq::empty()
            } else {
                seq![
                    IssueData {
                        code: "invalid_schema_shape"@,
                        severity: SeoDiagnosticSeverity::Error,
                        message: message@,
                    },
                ]
            },
            None => Seq::<IssueData>::empty(),
        },
{
    proof {
        lemma_members_view_index(members@);
    }
    match find_key(members, field) {
        Some(i) => {
            match &members[i].1 {
                JsonValue::Array(_) => {
                    assert(issues_view(issues@) =~= issues_view(old(issues)@) + Seq::<IssueData>::empty());
                },
                _ => {
                    push_issue(
                        issues,
                        SchemaValidationIssue {
                            code: "invalid_schema_shape",
                            severity: SeoDiagnosticSeverity::Error,
                            message: owned(message),
                        },
                    );
                    assert(issues_view(issues@) =~= issues_view(old(issues)@) + seq![
                        IssueData {
                            code: "invalid_schema_shape"@,
                            severity: SeoDiagnosticSeverity::Error,
                            message: message@,
                        },
                    ]);
                },
            }
        },
        None => {
            assert(issues_view(issues@) =~= issues_view(old(issues)@) + Seq::<IssueData>::empty());
        },
    }
}

/// The schema.org issues of a structured-data block (see `schema_issues`).
pub fn validate_schema_block(block: &SeoStructuredDataBlock) -> (r: Vec<SchemaValidationIssue>)
    ensures
        issues_view(r@) == schema_issues(block@),
{
    let mut issues: Vec<SchemaValidationIssue> = Vec::new();
    if block.schema_kind == SeoSchemaBlockKind::Unknown {
        push_issue(
            &mut issues,
            SchemaValidationIssue {
                code: "unsupported_schema_source_payload",
                severity: SeoDiagnosticSeverity::Warning,
                message: owned("Schema block has no recognized schema.org @type."),
            },
        );
        assert(issues_view(issues@) =~= schema_issues(block@));
        return issues;
    }
    match &block.payload {
        JsonValue::Object(members) => {
            let ghost obj = members_view(members@);
            let fields = required_fields_for_kind(block.schema_kind);
            let ghost fs = required_fields(block.schema_kind);
            let ghost tname = match opt_view(block.schema_type) {
                Some(t) => t,
                None => "unknown"@,
            };
            let mut i: usize = 0;
            while i < fields.len()
                invariant
                    i <= fields.len(),
                    str_views(fields@) == fs,
                    obj == members_view(members@),
                    tname == match opt_view(block.schema_type) {
                        Some(t) => t,
                        None => "unknown"@,
                    },
                    issues_view(issues@) == missing_field_issues(obj, fs.take(i as int), tname),
                decreases fields.len() - i,
            {
                let field = fields[i];
                proof {
                    assert(fs[i as int] == field@);
                    assert(fs.take(i as int + 1).drop_last() =~= fs.take(i as int));
                }
                if find_key(members, field).is_none() {
                    let mut message = owned("Schema `");
                    match &block.schema_type {
                        Some(t) => append(&mut message, t.as_str()),
                        None => append(&mut message, "unknown"),
                    }
                    append(&mut message, "` is missing required field `");
                    append(&mut message, field);
                    append(&mut message, "`.");
                    push_issue(
                        &mut issues,
                        SchemaValidationIssue {
                            code: "missing_required_schema_field",
                            severity: SeoDiagnosticSeverity::Warning,
                            message: message,
                        },
                    );
                }
                i = i + 1;
            }
            assert(fs.take(fields.len() as int) =~= fs);
            let ghost before = issues_view(issues@);
            if block.schema_kind == SeoSchemaBlockKind::BreadcrumbList || block.schema_kind
                == SeoSchemaBlockKind::ItemList {
                shape_issue_of(
                    &mut issues,
                    members,
                    "itemListElement",
                    "itemListElement must be an array for BreadcrumbList/ItemList.",
                );
            } else if block.schema_kind == SeoSchemaBlockKind::FAQPage {
                shape_issue_of(
                    &mut issues,
                    members,
                    "mainEntity",
                    "mainEntity must be an array for FAQPage.",
                );
            } else {
                assert(issues_view(issues@) =~= before + Seq::<IssueData>::empty());
            }
            assert(issues_view(issues@) =~= schema_issues(block@));
        },
        _ => {
            push_issue(
                &mut issues,
                SchemaValidationIssue {
                    code: "unsupported_schema_source_payload",
                    severity: SeoDiagnosticSeverity::Warning,
                    message: owned("Schema block payload is not a JSON object."),
                },
            );
            assert(issues_view(issues@) =~= schema_issues(block@));
        },
    }
    issues
}

} // verus!
