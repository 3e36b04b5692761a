//! Flattening: from a nested document to an ordered list of key paths and leaves.

use crate::codec::parse_failure;
use crate::codec::parse_json;
use crate::codec::parsed_json;
use crate::codec::ParseError;
use crate::json::Json;
use crate::json::JsonView;
use vstd::prelude::*;
use vstd::string::StringExecFns;

verus! {

/// One flattened entry as specifications see it.
pub struct KvView {
    pub key: Seq<char>,
    pub value: JsonView,
}

/// One flattened entry: a key path and the leaf found there.
#[derive(Debug, PartialEq, Eq)]
pub struct KvString {
    pub key: String,
    pub value: Json,
}

impl View for KvString {
    type V = KvView;

    open spec fn view(&self) -> KvView {
        KvView { key: self.key@, value: self.value@ }
    }
}

/// The views of a list of entries, in order.
pub open spec fn entry_views(entries: Seq<KvString>) -> Seq<KvView> {
    entries.map_values(|e: KvString| e@)
}

/// The segment that the upstream tool wraps its export in.
pub open spec fn wrapper_segment() -> Seq<char> {
    "local"@
}

/// The separator between two segments of a key path.
pub open spec fn separator() -> Seq<char> {
    "/"@
}

/// The path under which the members of a nested object are flattened: the
/// object's own key where the path so far is empty or is the wrapper segment,
/// else the path so far, a separator and the key.
pub open spec fn child_prefix(prefix: Seq<char>, key: Seq<char>) -> Seq<char> {
    if prefix.len() == 0 || prefix == wrapper_segment() {
        key
    } else {
        prefix + separator() + key
    }
}

/// The key of a leaf: the path so far, a separator and the member's key,
/// whatever the path so far is.
pub open spec fn leaf_key(prefix: Seq<char>, key: Seq<char>) -> Seq<char> {
    prefix + separator() + key
}

/// What one member of an object contributes: the flattening of a nested
/// object, or the single entry of a leaf.
pub open spec fn member_entries(prefix: Seq<char>, key: Seq<char>, value: JsonView) -> Seq<KvView>
    decreases value, 1int,
{
    if value is Object {
        flatten(child_prefix(prefix, key), value)
    } else {
        seq![KvView { key: leaf_key(prefix, key), value }]
    }
}

/// What the first `n` members of an object contribute, in member order.
pub open spec fn flatten_members(
    prefix: Seq<char>,
    members: Seq<(Seq<char>, JsonView)>,
    n: nat,
) -> Seq<KvView>
    decreases members, n,
{
    if n == 0 || n > members.len() {
        Seq::empty()
    } else {
        flatten_members(prefix, members, (n - 1) as nat) + member_entries(
            prefix,
            members[n - 1].0,
            members[n - 1].1,
        )
    }
}

/// The flattening of a document under a path: the contributions of an object's
/// members one after the other, and nothing for any other value.
pub open spec fn flatten(prefix: Seq<char>, value: JsonView) -> Seq<KvView>
    decreases value, 0int,
{
    match value {
        JsonView::Object(members) => flatten_members(prefix, members, members.len()),
        _ => Seq::empty(),
    }
}

/// The path under which a nested object's members are flattened.
fn nested_path(old_key: &str, key: &str) -> (path: String)
    ensures
        path@ == child_prefix(old_key@, key@),
{
    let wrapper = "local".to_owned();
    let so_far = old_key.to_owned();
    if old_key.is_empty() || so_far == wrapper {
        key.to_owned()
    } else {
        let mut path = so_far;
        path.append("/");
        path.append(key);
        path
    }
}

/// The key under which a leaf is stored.
fn leaf_path(old_key: &str, key: &str) -> (path: String)
    ensures
        path@ == leaf_key(old_key@, key@),
{
    let mut path = old_key.to_owned();
    path.append("/");
    path.append(key);
    path
}

/// Flattens a document into its entries, in document order.
///
/// A nested object contributes the entries of its members, under its own key
/// where `old_key` is empty or is the wrapper segment `local`, else under
/// `old_key`, `/` and its key. Any other member is a leaf, arrays included: it
/// contributes one entry, whose key is `old_key`, `/` and the member's key, and
/// whose value is the member's value. A document that is no object has no
/// entries.
pub fn flat_json(old_key: &str, data: &Json) -> (results: Vec<KvString>)
    ensures
        entry_views(results@) == flatten(old_key@, data@),
        !(data@ is Object) ==> results@.len() == 0,
        forall|i: int| 0 <= i < results@.len() ==> !(#[trigger] results@[i]@.value is Object),
    decreases data,
{
    let mut results: Vec<KvString> = Vec::new();
    match data {
        Json::Object(members) => {
            let mut i: usize = 0;
            proof {
                data.lemma_object_view();
            }
            while i < members.len()
                invariant
                    *data == Json::Object(*members),
                    data@ is Object,
                    data@->Object_0.len() == members@.len(),
                    forall|k: int|
                        0 <= k < members@.len() ==> #[trigger] data@->Object_0[k] == (
                            members@[k].0@,
                            members@[k].1@,
                        ),
                    i <= members.len(),
                    entry_views(results@) == flatten_members(
                        old_key@,
                        data@->Object_0,
                        i as nat,
                    ),
                decreases members.len() - i,
            {
                let key = &members[i].0;
                let value = &members[i].1;
                assert(flatten_members(old_key@, data@->Object_0, (i + 1) as nat) == entry_views(
                    results@,
                ) + member_entries(old_key@, key@, value@));
                if value.is_object() {
                    let path = nested_path(old_key, key.as_str());
                    let mut nested = flat_json(path.as_str(), value);
                    results.append(&mut nested);
                } else {
                    results.push(
                        KvString { key: leaf_path(old_key, key.as_str()), value: value.clone() },
                    );
                }
                i += 1;
            }
        },
        _ => {},
    }
    proof {
        lemma_values_are_leaves(old_key@, data@);
        assert forall|i: int| 0 <= i < results@.len() implies !(#[trigger] results@[i]@.value
            is Object) by {
            assert(entry_views(results@)[i] == results@[i]@);
        }
    }
    results
}

/// Reads a document from JSON text and flattens it from the root, where the
/// path is empty.
///
/// The result is `Ok` exactly where the text is read as a document, and then
/// holds the entries of that document; else it holds the message with which
/// the text is rejected.
pub fn parse_pillar(contents: &str) -> (r: Result<Vec<KvString>, ParseError>)
    ensures
        match parsed_json(contents@) {
            Some(document) => r matches Ok(entries) && entry_views(entries@) == flatten(
                ""@,
                document,
            ),
            None => r matches Err(error) && error.message@ == parse_failure(contents@),
        },
{
    match parse_json(contents) {
        Ok(document) => Ok(flat_json("", &document)),
        Err(error) => Err(error),
    }
}

/// What the first `n` members contribute holds no object.
proof fn lemma_member_values_are_leaves(
    prefix: Seq<char>,
    members: Seq<(Seq<char>, JsonView)>,
    n: nat,
)
    ensures
        forall|i: int|
            0 <= i < flatten_members(prefix, members, n).len() ==> !(#[trigger] flatten_members(
                prefix,
                members,
                n,
            )[i].value is Object),
    decreases members, n,
{
    if 0 < n <= members.len() {
        lemma_member_values_are_leaves(prefix, members, (n - 1) as nat);
        let (key, value) = members[n - 1];
        if value is Object {
            lemma_values_are_leaves(child_prefix(prefix, key), value);
        }
        let before = flatten_members(prefix, members, (n - 1) as nat);
        let added = member_entries(prefix, key, value);
        let all = flatten_members(prefix, members, n);
        assert(all == before + added);
        assert forall|i: int| 0 <= i < all.len() implies !(#[trigger] all[i].value is Object) by {
            if i >= before.len() {
                assert(all[i] == added[i - before.len()]);
            }
        }
    }
}

/// Every entry holds a leaf: no value of a flattening is an object.
pub proof fn lemma_values_are_leaves(prefix: Seq<char>, document: JsonView)
    ensures
        forall|i: int|
            0 <= i < flatten(prefix, document).len() ==> !(#[trigger] flatten(
                prefix,
                document,
            )[i].value is Object),
    decreases document, 0int,
{
    match document {
        JsonView::Object(members) => {
            lemma_member_values_are_leaves(prefix, members, members.len());
        },
        _ => {},
    }
}

/// Flattening is a function of the path and the document alone: whatever two
/// runs over the same document hand back agrees entry by entry, key by key and
/// in order.
pub proof fn lemma_flatten_deterministic(
    prefix: Seq<char>,
    document: JsonView,
    first: Seq<KvView>,
    second: Seq<KvView>,
)
    requires
        first == flatten(prefix, document),
        second == flatten(prefix, document),
    ensures
        first == second,
        first.len() == second.len(),
        forall|i: int| 0 <= i < first.len() ==> first[i].key == second[i].key,
{
}

/// A value that is no object has no entries, at the root or anywhere else.
pub proof fn lemma_non_object_has_no_entries(prefix: Seq<char>, value: JsonView)
    requires
        !(value is Object),
    ensures
        flatten(prefix, value) == Seq::<KvView>::empty(),
{
}

/// A member that is no object is a leaf: it contributes exactly one entry,
/// under the path so far, a separator and its key, with its value unchanged.
pub proof fn lemma_leaf_member(prefix: Seq<char>, key: Seq<char>, value: JsonView)
    requires
        !(value is Object),
    ensures
        member_entries(prefix, key, value) == seq![KvView { key: prefix + "/"@ + key, value }],
{
}

/// An array is a leaf whatever it holds: flattening does not look into it, and
/// it contributes one entry with the array itself as the value.
pub proof fn lemma_array_is_leaf(prefix: Seq<char>, key: Seq<char>, items: Seq<JsonView>)
    ensures
        member_entries(prefix, key, JsonView::Array(items)) == seq![
            KvView { key: prefix + "/"@ + key, value: JsonView::Array(items) },
        ],
        flatten(prefix, JsonView::Array(items)) == Seq::<KvView>::empty(),
{
}

/// What the first `n` members contribute does not depend on the members that
/// follow them.
pub proof fn lemma_flatten_members_prefix(
    prefix: Seq<char>,
    members: Seq<(Seq<char>, JsonView)>,
    longer: Seq<(Seq<char>, JsonView)>,
    n: nat,
)
    requires
        n <= members.len() <= longer.len(),
        forall|i: int| 0 <= i < members.len() ==> members[i] == longer[i],
    ensures
        flatten_members(prefix, longer, n) == flatten_members(prefix, members, n),
    decreases n,
{
    if n > 0 {
        lemma_flatten_members_prefix(prefix, members, longer, (n - 1) as nat);
    }
}

/// Members contribute in member order: an object with one more member at its
/// end has the entries of the object without it, followed by what that member
/// contributes.
pub proof fn lemma_flatten_appended_member(
    prefix: Seq<char>,
    members: Seq<(Seq<char>, JsonView)>,
    key: Seq<char>,
    value: JsonView,
)
    ensures
        flatten(prefix, JsonView::Object(members.push((key, value)))) == flatten(
            prefix,
            JsonView::Object(members),
        ) + member_entries(prefix, key, value),
{
    let longer = members.push((key, value));
    lemma_flatten_members_prefix(prefix, members, longer, members.len());
}

/// The wrapper segment is stripped: below the root and below `local` alike, a
/// nested object is flattened under its own key, so a document wrapped in
/// `local` has the entries of the nested objects that it wraps.
pub proof fn lemma_wrapper_is_stripped(key: Seq<char>, nested: JsonView)
    requires
        nested is Object,
    ensures
        child_prefix(""@, key) == key,
        child_prefix("local"@, key) == key,
        member_entries("local"@, key, nested) == flatten(key, nested),
        member_entries(""@, key, nested) == flatten(key, nested),
        flatten(""@, JsonView::Object(seq![("local"@, nested)])) == flatten("local"@, nested),
{
    reveal_strlit("");
    let wrapped = seq![("local"@, nested)];
    assert(flatten_members(""@, wrapped, 0) =~= Seq::<KvView>::empty());
    assert(flatten_members(""@, wrapped, 1) =~= member_entries(""@, "local"@, nested));
}

} // verus!
