use vstd::prelude::*;
use vstd::string::StringExecFns;
use crate::text::str_eq;

verus! {

/// One field of a raw feed entry, as the feed shape-check reads it:
/// absent, present with an unusable type, or a usable text or number.
#[derive(Debug)]
pub enum RawField {
    Absent,
    WrongType,
    Text(String),
    Num(i64),
}

/// Spec-level value of a `RawField`.
pub enum RawFieldView {
    Absent,
    WrongType,
    Text(Seq<char>),
    Num(int),
}

impl View for RawField {
    type V = RawFieldView;

    open spec fn view(&self) -> RawFieldView {
        match self {
            RawField::Absent => RawFieldView::Absent,
            RawField::WrongType => RawFieldView::WrongType,
            RawField::Text(s) => RawFieldView::Text(s@),
            RawField::Num(n) => RawFieldView::Num(*n as int),
        }
    }
}

/// One entry of a raw feed entry's tag list: either a text tag or
/// something that is not text.
#[derive(Debug)]
pub enum RawTag {
    NotText,
    Text(String),
}

pub enum RawTagView {
    NotText,
    Text(Seq<char>),
}

impl View for RawTag {
    type V = RawTagView;

    open spec fn view(&self) -> RawTagView {
        match self {
            RawTag::NotText => RawTagView::NotText,
            RawTag::Text(s) => RawTagView::Text(s@),
        }
    }
}

/// The tag list of a raw feed entry: absent, present but not list-typed,
/// or the list itself.
#[derive(Debug)]
pub enum RawTags {
    Absent,
    WrongType,
    List(Vec<RawTag>),
}

pub enum RawTagsView {
    Absent,
    WrongType,
    List(Seq<RawTagView>),
}

/// The views of a list of raw tags.
pub open spec fn tag_views(ts: Seq<RawTag>) -> Seq<RawTagView> {
    ts.map_values(|t: RawTag| t@)
}

impl View for RawTags {
    type V = RawTagsView;

    open spec fn view(&self) -> RawTagsView {
        match self {
            RawTags::Absent => RawTagsView::Absent,
            RawTags::WrongType => RawTagsView::WrongType,
            RawTags::List(ts) => RawTagsView::List(tag_views(ts@)),
        }
    }
}

/// One feed entry before shape validation, holding exactly what the
/// validation step reads of it.
#[derive(Debug)]
pub struct RawItem {
    pub gid: RawField,
    pub title: RawField,
    pub author: RawField,
    pub url: RawField,
    pub date: RawField,
    pub tags: RawTags,
}

#[verifier::ext_equal]
pub struct RawItemView {
    pub gid: RawFieldView,
    pub title: RawFieldView,
    pub author: RawFieldView,
    pub url: RawFieldView,
    pub date: RawFieldView,
    pub tags: RawTagsView,
}

impl View for RawItem {
    type V = RawItemView;

    open spec fn view(&self) -> RawItemView {
        RawItemView {
            gid: self.gid@,
            title: self.title@,
            author: self.author@,
            url: self.url@,
            date: self.date@,
            tags: self.tags@,
        }
    }
}

/// A well-formed news item: the feed's identifier, display fields, and
/// publish time in epoch seconds (UTC).
#[derive(Debug)]
pub struct NewsItem {
    pub gid: String,
    pub title: String,
    pub author: String,
    pub url: String,
    pub date: i64,
}

#[verifier::ext_equal]
pub struct NewsItemView {
    pub gid: Seq<char>,
    pub title: Seq<char>,
    pub author: Seq<char>,
    pub url: Seq<char>,
    pub date: int,
}

impl View for NewsItem {
    type V = NewsItemView;

    open spec fn view(&self) -> NewsItemView {
        NewsItemView {
            gid: self.gid@,
            title: self.title@,
            author: self.author@,
            url: self.url@,
            date: self.date as int,
        }
    }
}

/// Why one raw feed entry was rejected; never fatal to the batch.
#[derive(PartialEq, Eq, Structural, Clone, Copy, Debug)]
pub enum ItemError {
    /// The entry has no tag list at all.
    TagsMissing,
    /// The entry's tag field is not list-typed.
    TagsNotList,
    /// The tag list lacks the patch-notes marker, so the entry is irrelevant.
    NotPatchNotes,
    /// A required field is absent.
    FieldMissing,
    /// A required field has the wrong type.
    FieldWrongType,
}

/// The tag that marks an entry as patch-notes content.
pub open spec fn patch_tag() -> Seq<char> {
    "patchnotes"@
}

pub open spec fn tag_is_patch(t: RawTagView) -> bool {
    t matches RawTagView::Text(s) && s == patch_tag()
}

pub open spec fn has_patch_tag(ts: Seq<RawTagView>) -> bool {
    exists|i: int| 0 <= i < ts.len() && tag_is_patch(ts[i])
}

/// Shape validation of one raw entry: it must carry the patch-notes tag,
/// four text fields, and a numeric publish time; the first violation in
/// checking order (tags, relevance, date, gid, title, author, url) is
/// reported.
pub open spec fn spec_parse_item(raw: RawItemView) -> Result<NewsItemView, ItemError> {
    match raw.tags {
        RawTagsView::Absent => Err(ItemError::TagsMissing),
        RawTagsView::WrongType => Err(ItemError::TagsNotList),
        RawTagsView::List(ts) => if !has_patch_tag(ts) {
            Err(ItemError::NotPatchNotes)
        } else {
            match (raw.date, raw.gid, raw.title, raw.author, raw.url) {
                (
                    RawFieldView::Num(date),
                    RawFieldView::Text(gid),
                    RawFieldView::Text(title),
                    RawFieldView::Text(author),
                    RawFieldView::Text(url),
                ) => Ok(NewsItemView { gid, title, author, url, date }),
                _ => if raw.date is Absent {
                    Err(ItemError::FieldMissing)
                } else if !(raw.date is Num) {
                    Err(ItemError::FieldWrongType)
                } else if raw.gid is Absent {
                    Err(ItemError::FieldMissing)
                } else if !(raw.gid is Text) {
                    Err(ItemError::FieldWrongType)
                } else if raw.title is Absent {
                    Err(ItemError::FieldMissing)
                } else if !(raw.title is Text) {
                    Err(ItemError::FieldWrongType)
                } else if raw.author is Absent {
                    Err(ItemError::FieldMissing)
                } else if !(raw.author is Text) {
                    Err(ItemError::FieldWrongType)
                } else if raw.url is Absent {
                    Err(ItemError::FieldMissing)
                } else {
                    Err(ItemError::FieldWrongType)
                },
            }
        },
    }
}

/// An entry without the patch-notes tag is never surfaced, however
/// complete its other fields are.
pub proof fn lemma_untagged_never_surfaced(raw: RawItemView)
    requires
        !(raw.tags matches RawTagsView::List(ts) && has_patch_tag(ts)),
    ensures
        spec_parse_item(raw) is Err,
{
}

fn tags_have_patch(ts: &Vec<RawTag>) -> (r: bool)
    ensures
        r == has_patch_tag(tag_views(ts@)),
{
    let ghost tsv = tag_views(ts@);
    let mut i: usize = 0;
    while i < ts.len()
        invariant
            0 <= i <= ts.len(),
            tsv == tag_views(ts@),
            tsv.len() == ts@.len(),
            forall|k: int| 0 <= k < i ==> !tag_is_patch(tsv[k]),
        decreases ts.len() - i,
    {
        match &ts[i] {
            RawTag::Text(s) => {
                if str_eq(s.as_str(), "patchnotes") {
                    proof {
                        assert(tag_is_patch(tsv[i as int]));
                    }
                    return true;
                }
            },
            RawTag::NotText => {},
        }
        i += 1;
    }
    proof {
        assert(!has_patch_tag(tsv));
    }
    false
}

/// Validates one raw feed entry, returning the well-formed item or the
/// reason it is skipped. One malformed entry only fails itself: the
/// caller goes on with the rest of the batch.
pub fn parse_item(raw: &RawItem) -> (r: Result<NewsItem, ItemError>)
    ensures
        r matches Ok(item) ==> spec_parse_item(raw@) == Ok::<NewsItemView, ItemError>(item@),
        r matches Err(e) ==> spec_parse_item(raw@) == Err::<NewsItemView, ItemError>(e),
{
    let ts = match &raw.tags {
        RawTags::Absent => {
            return Err(ItemError::TagsMissing);
        },
        RawTags::WrongType => {
            return Err(ItemError::TagsNotList);
        },
        RawTags::List(ts) => ts,
    };
    if !tags_have_patch(ts) {
        return Err(ItemError::NotPatchNotes);
    }
    let date = match &raw.date {
        RawField::Num(d) => *d,
        RawField::Absent => {
            return Err(ItemError::FieldMissing);
        },
        _ => {
            return Err(ItemError::FieldWrongType);
        },
    };
    let gid = match &raw.gid {
        RawField::Text(s) => s,
        RawField::Absent => {
            return Err(ItemError::FieldMissing);
        },
        _ => {
            return Err(ItemError::FieldWrongType);
        },
    };
    let title = match &raw.title {
        RawField::Text(s) => s,
        RawField::Absent => {
            return Err(ItemError::FieldMissing);
        },
        _ => {
            return Err(ItemError::FieldWrongType);
        },
    };
    let author = match &raw.author {
        RawField::Text(s) => s,
        RawField::Absent => {
            return Err(ItemError::FieldMissing);
        },
        _ => {
            return Err(ItemError::FieldWrongType);
        },
    };
    let url = match &raw.url {
        RawField::Text(s) => s,
        RawField::Absent => {
            return Err(ItemError::FieldMissing);
        },
        _ => {
            return Err(ItemError::FieldWrongType);
        },
    };
    let item = NewsItem {
        gid: String::from_str(gid.as_str()),
        title: String::from_str(title.as_str()),
        author: String::from_str(author.as_str()),
        url: String::from_str(url.as_str()),
        date,
    };
    proof {
        assert(spec_parse_item(raw@) matches Ok(v) && v =~= item@);
    }
    Ok(item)
}

} // verus!
