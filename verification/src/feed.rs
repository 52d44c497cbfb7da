use vstd::prelude::*;
use vstd::string::StringExecFns;
use crate::fresh::raw_views;
use crate::item::{
    RawField, RawFieldView, RawItem, RawItemView, RawTag, RawTagView, RawTags, RawTagsView,
    tag_views,
};

verus! {

/// Why a poll cycle obtained no usable batch from the feed.
#[derive(PartialEq, Eq, Structural, Clone, Copy, Debug)]
pub enum FetchError {
    /// Transport failure, DNS failure, or a non-success status.
    Network,
    /// The response body is not valid JSON.
    Decode,
    /// Valid JSON without the expected top-level container, item list,
    /// or with an item list that is not list-typed.
    Schema,
}

#[verifier::external_type_specification]
#[verifier::external_body]
pub struct ExJsonValue(serde_json::Value);

/// The JSON value tree a body text parses to, or nothing for a text that
/// is not valid JSON; a function of the text alone.
pub uninterp spec fn json_doc_of(body: Seq<char>) -> Option<serde_json::Value>;

/// Relies on serde_json::from_str: parses a JSON text into its value
/// tree, failing exactly on a text that is not valid JSON.
#[verifier::external_body]
fn parse_json(body: &str) -> (r: Option<serde_json::Value>)
    ensures
        r == json_doc_of(body@),
{
    serde_json::from_str::<serde_json::Value>(body).ok()
}

/// The member a JSON value holds under a key, or nothing where the value
/// is not an object or lacks the key; a function of value and key alone.
pub uninterp spec fn json_get_of(v: serde_json::Value, key: Seq<char>) -> Option<
    serde_json::Value,
>;

/// Relies on serde_json::Value::get with a string key: the member under
/// that key when this value is an object holding it, nothing otherwise.
#[verifier::external_body]
fn json_get<'a>(v: &'a serde_json::Value, key: &str) -> (r: Option<&'a serde_json::Value>)
    ensures
        (match r {
            Some(m) => json_get_of(*v, key@) == Some(*m),
            None => json_get_of(*v, key@) is None,
        }),
{
    v.get(key)
}

/// The elements of a JSON array value, nothing for any other value.
pub uninterp spec fn json_array_of(v: serde_json::Value) -> Option<Seq<serde_json::Value>>;

/// Relies on serde_json::Value::as_array: the element vector when this
/// value is a JSON array, nothing otherwise.
#[verifier::external_body]
fn json_as_array<'a>(v: &'a serde_json::Value) -> (r: Option<&'a Vec<serde_json::Value>>)
    ensures
        (match r {
            Some(a) => json_array_of(*v) == Some(a@),
            None => json_array_of(*v) is None,
        }),
{
    v.as_array()
}

/// The text of a JSON string value, nothing for any other value.
pub uninterp spec fn json_str_of(v: serde_json::Value) -> Option<Seq<char>>;

/// Relies on serde_json::Value::as_str: the text when this value is a
/// JSON string, nothing otherwise.
#[verifier::external_body]
fn json_as_str<'a>(v: &'a serde_json::Value) -> (r: Option<&'a str>)
    ensures
        (match r {
            Some(s) => json_str_of(*v) == Some(s@),
            None => json_str_of(*v) is None,
        }),
{
    v.as_str()
}

/// The number held by a JSON integer representable as an i64, nothing
/// for any other value.
pub uninterp spec fn json_i64_of(v: serde_json::Value) -> Option<int>;

/// Relies on serde_json::Value::as_i64: the number when this value is a
/// JSON integer representable as an i64, nothing otherwise.
#[verifier::external_body]
fn json_as_i64(v: &serde_json::Value) -> (r: Option<i64>)
    ensures
        (match r {
            Some(n) => json_i64_of(*v) == Some(n as int),
            None => json_i64_of(*v) is None,
        }),
{
    v.as_i64()
}

/// What the shape check reads of one field expected to be text: absent,
/// present with another type, or the text.
pub open spec fn spec_text_field(item: serde_json::Value, key: Seq<char>) -> RawFieldView {
    match json_get_of(item, key) {
        None => RawFieldView::Absent,
        Some(v) => match json_str_of(v) {
            Some(s) => RawFieldView::Text(s),
            None => RawFieldView::WrongType,
        },
    }
}

/// Reads one field that the item shape expects to be text.
fn extract_text_field(item: &serde_json::Value, key: &str) -> (f: RawField)
    ensures
        f@ == spec_text_field(*item, key@),
{
    match json_get(item, key) {
        None => RawField::Absent,
        Some(v) => match json_as_str(v) {
            Some(s) => RawField::Text(String::from_str(s)),
            None => RawField::WrongType,
        },
    }
}

/// What the shape check reads of the publish-time field, expected to be
/// an integer number of epoch seconds.
pub open spec fn spec_date_field(item: serde_json::Value) -> RawFieldView {
    match json_get_of(item, "date"@) {
        None => RawFieldView::Absent,
        Some(v) => match json_i64_of(v) {
            Some(n) => RawFieldView::Num(n),
            None => RawFieldView::WrongType,
        },
    }
}

/// Reads the publish-time field.
fn extract_date_field(item: &serde_json::Value) -> (f: RawField)
    ensures
        f@ == spec_date_field(*item),
{
    match json_get(item, "date") {
        None => RawField::Absent,
        Some(v) => match json_as_i64(v) {
            Some(n) => RawField::Num(n),
            None => RawField::WrongType,
        },
    }
}

/// One entry of the tag list: its text where it has any.
pub open spec fn spec_tag(v: serde_json::Value) -> RawTagView {
    match json_str_of(v) {
        Some(s) => RawTagView::Text(s),
        None => RawTagView::NotText,
    }
}

pub open spec fn spec_tag_list(arr: Seq<serde_json::Value>) -> Seq<RawTagView> {
    arr.map_values(|e: serde_json::Value| spec_tag(e))
}

/// What the shape check reads of the tag list: absent, not list-typed,
/// or each entry's text.
pub open spec fn spec_tags(item: serde_json::Value) -> RawTagsView {
    match json_get_of(item, "tags"@) {
        None => RawTagsView::Absent,
        Some(v) => match json_array_of(v) {
            None => RawTagsView::WrongType,
            Some(arr) => RawTagsView::List(spec_tag_list(arr)),
        },
    }
}

/// Reads the tag list, keeping each entry's text where it has one.
fn extract_tags(item: &serde_json::Value) -> (t: RawTags)
    ensures
        t@ == spec_tags(*item),
{
    match json_get(item, "tags") {
        None => RawTags::Absent,
        Some(v) => match json_as_array(v) {
            None => RawTags::WrongType,
            Some(arr) => {
                let ghost target = spec_tag_list(arr@);
                let mut ts: Vec<RawTag> = Vec::new();
                let mut i: usize = 0;
                while i < arr.len()
                    invariant
                        0 <= i <= arr@.len(),
                        target == spec_tag_list(arr@),
                        target.len() == arr@.len(),
                        ts@.len() == i,
                        tag_views(ts@) == target.take(i as int),
                    decreases arr@.len() - i,
                {
                    let ghost ts0 = ts@;
                    match json_as_str(&arr[i]) {
                        Some(s) => ts.push(RawTag::Text(String::from_str(s))),
                        None => ts.push(RawTag::NotText),
                    }
                    proof {
                        assert(target[i as int] == spec_tag(arr@[i as int]));
                        assert(ts@[i as int]@ == spec_tag(arr@[i as int]));
                        assert forall|k: int| 0 <= k < i implies #[trigger] tag_views(ts@)[k]
                            == target[k] by {
                            assert(ts@[k] == ts0[k]);
                            assert(tag_views(ts0)[k] == target.take(i as int)[k]);
                        }
                        assert(tag_views(ts@) =~= target.take(i as int + 1));
                    }
                    i += 1;
                }
                proof {
                    assert(target.take(arr@.len() as int) =~= target);
                }
                RawTags::List(ts)
            },
        },
    }
}

/// What the shape check reads of one feed entry.
pub open spec fn spec_raw_item(item: serde_json::Value) -> RawItemView {
    RawItemView {
        gid: spec_text_field(item, "gid"@),
        title: spec_text_field(item, "title"@),
        author: spec_text_field(item, "author"@),
        url: spec_text_field(item, "url"@),
        date: spec_date_field(item),
        tags: spec_tags(item),
    }
}

/// Reads of one feed entry exactly the fields the shape check uses.
fn extract_raw_item(item: &serde_json::Value) -> (r: RawItem)
    ensures
        r@ == spec_raw_item(*item),
{
    let r = RawItem {
        gid: extract_text_field(item, "gid"),
        title: extract_text_field(item, "title"),
        author: extract_text_field(item, "author"),
        url: extract_text_field(item, "url"),
        date: extract_date_field(item),
        tags: extract_tags(item),
    };
    proof {
        assert(r@ =~= spec_raw_item(*item));
    }
    r
}

pub open spec fn spec_item_list(arr: Seq<serde_json::Value>) -> Seq<RawItemView> {
    arr.map_values(|e: serde_json::Value| spec_raw_item(e))
}

/// The whole decode as a function of the body text: invalid JSON is a
/// decode error; a missing news container, a missing item list, or an
/// item list that is not an array is a schema error; otherwise the
/// per-entry extraction of the array, entry by entry.
pub open spec fn spec_decode(body: Seq<char>) -> Result<Seq<RawItemView>, FetchError> {
    match json_doc_of(body) {
        None => Err(FetchError::Decode),
        Some(doc) => match json_get_of(doc, "appnews"@) {
            None => Err(FetchError::Schema),
            Some(appnews) => match json_get_of(appnews, "newsitems"@) {
                None => Err(FetchError::Schema),
                Some(items) => match json_array_of(items) {
                    None => Err(FetchError::Schema),
                    Some(arr) => Ok(spec_item_list(arr)),
                },
            },
        },
    }
}

/// Decodes a feed response body into raw entries: the body must be valid
/// JSON shaped as an object holding the news container, which holds the
/// item list. No per-item filtering happens here.
pub fn decode_feed(body: &str) -> (r: Result<Vec<RawItem>, FetchError>)
    ensures
        (match r {
            Ok(raws) => spec_decode(body@) == Ok::<Seq<RawItemView>, FetchError>(raw_views(raws@)),
            Err(e) => spec_decode(body@) == Err::<Seq<RawItemView>, FetchError>(e),
        }),
{
    let doc = match parse_json(body) {
        Some(d) => d,
        None => {
            return Err(FetchError::Decode);
        },
    };
    let appnews = match json_get(&doc, "appnews") {
        Some(a) => a,
        None => {
            return Err(FetchError::Schema);
        },
    };
    let items_value = match json_get(appnews, "newsitems") {
        Some(n) => n,
        None => {
            return Err(FetchError::Schema);
        },
    };
    let arr = match json_as_array(items_value) {
        Some(a) => a,
        None => {
            return Err(FetchError::Schema);
        },
    };
    let ghost target = spec_item_list(arr@);
    let mut raws: Vec<RawItem> = Vec::new();
    let mut i: usize = 0;
    while i < arr.len()
        invariant
            0 <= i <= arr@.len(),
            target == spec_item_list(arr@),
            target.len() == arr@.len(),
            raws@.len() == i,
            raw_views(raws@) == target.take(i as int),
        decreases arr@.len() - i,
    {
        let ghost raws0 = raws@;
        raws.push(extract_raw_item(&arr[i]));
        proof {
            assert(target[i as int] == spec_raw_item(arr@[i as int]));
            assert(raws@[i as int]@ == spec_raw_item(arr@[i as int]));
            assert forall|k: int| 0 <= k < i implies #[trigger] raw_views(raws@)[k]
                == target[k] by {
                assert(raws@[k] == raws0[k]);
                assert(raw_views(raws0)[k] == target.take(i as int)[k]);
            }
            assert(raw_views(raws@) =~= target.take(i as int + 1));
        }
        i += 1;
    }
    proof {
        assert(target.take(arr@.len() as int) =~= target);
    }
    Ok(raws)
}

} // verus!
