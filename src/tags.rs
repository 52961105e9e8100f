//! Attaching tags to documents.

use vstd::prelude::*;

use crate::dtos::{AddTagToDocumentRequest, AddTagToDocumentResponse, TagInfo};
use crate::error::AppError;
use crate::models::Tag;
use crate::text::{texts, trim_text, trimmed};

verus! {

/// A tag request must name at least one tag.
pub fn check_tag_request(request: &AddTagToDocumentRequest) -> (r: Result<(), AppError>)
    ensures
        request.tags@.len() == 0 ==> r == Err::<(), AppError>(
            AppError::BadRequest("Tags list cannot be empty"),
        ),
        request.tags@.len() > 0 ==> r == Ok::<(), AppError>(()),
{
    if request.tags.len() == 0 {
        Err(AppError::BadRequest("Tags list cannot be empty"))
    } else {
        Ok(())
    }
}

/// Tags go only on a document that exists and is not soft-deleted.
pub fn check_tag_document(active_document_exists: bool) -> (r: Result<(), AppError>)
    ensures
        !active_document_exists ==> r == Err::<(), AppError>(
            AppError::NotFound("Document not found or has been deleted"),
        ),
        active_document_exists ==> r == Ok::<(), AppError>(()),
{
    if active_document_exists {
        Ok(())
    } else {
        Err(AppError::NotFound("Document not found or has been deleted"))
    }
}

/// The names to process: each requested name trimmed, blank ones dropped,
/// in order. Names are compared exactly, so names differing in case stay
/// distinct.
pub open spec fn names_to_process(tags: Seq<Seq<char>>) -> Seq<Seq<char>>
    decreases tags.len(),
{
    if tags.len() == 0 {
        Seq::empty()
    } else {
        let rest = names_to_process(tags.drop_last());
        let t = trimmed(tags.last());
        if t.len() == 0 {
            rest
        } else {
            rest.push(t)
        }
    }
}

pub fn tag_names(tags: &Vec<String>) -> (r: Vec<String>)
    ensures
        texts(r@) == names_to_process(texts(tags@)),
{
    let mut r: Vec<String> = Vec::new();
    let mut i: usize = 0;
    while i < tags.len()
        invariant
            i <= tags@.len(),
            texts(r@) == names_to_process(texts(tags@.subrange(0, i as int))),
        decreases tags@.len() - i,
    {
        assert(texts(tags@.subrange(0, i + 1)).drop_last() =~= texts(tags@.subrange(0, i as int)));
        let t = trim_text(tags[i].as_str());
        if !t.is_empty() {
            let ghost prev = texts(r@);
            r.push(t.to_owned());
            assert(texts(r@) =~= prev.push(t@));
        }
        i += 1;
    }
    assert(tags@.subrange(0, tags@.len() as int) =~= tags@);
    r
}

/// Whether processing `names` in order creates each name's tag, when the
/// names in `stored` had tags before: a name is created at its first
/// occurrence when it was not stored, and reused everywhere else.
pub open spec fn created_flags(stored: Seq<Seq<char>>, names: Seq<Seq<char>>) -> Seq<bool> {
    Seq::new(
        names.len(),
        |i: int| !stored.contains(names[i]) && !names.subrange(0, i).contains(names[i]),
    )
}

/// Whether `v[..end]` holds a string with the text of `s`.
fn holds_text(v: &Vec<String>, end: usize, s: &String) -> (r: bool)
    requires
        end <= v@.len(),
    ensures
        r == texts(v@).subrange(0, end as int).contains(s@),
{
    let ghost t = texts(v@).subrange(0, end as int);
    let mut i: usize = 0;
    while i < end
        invariant
            end <= v@.len(),
            i <= end,
            t == texts(v@).subrange(0, end as int),
            forall|j: int| 0 <= j < i ==> t[j] != s@,
        decreases end - i,
    {
        if v[i] == *s {
            assert(t[i as int] == s@);
            return true;
        }
        i += 1;
    }
    false
}

/// Which of the names to process will create their tag, given the names
/// among them that already have one.
pub fn plan_tag_creation(names: &Vec<String>, stored: &Vec<String>) -> (r: Vec<bool>)
    ensures
        r@ == created_flags(texts(stored@), texts(names@)),
{
    let ghost goal = created_flags(texts(stored@), texts(names@));
    let mut r: Vec<bool> = Vec::new();
    let mut i: usize = 0;
    while i < names.len()
        invariant
            i <= names@.len(),
            goal == created_flags(texts(stored@), texts(names@)),
            r@ == goal.subrange(0, i as int),
        decreases names@.len() - i,
    {
        let in_store = holds_text(stored, stored.len(), &names[i]);
        let seen = holds_text(names, i, &names[i]);
        assert(texts(stored@).subrange(0, stored@.len() as int) =~= texts(stored@));
        r.push(!in_store && !seen);
        assert(r@ =~= goal.subrange(0, i + 1));
        i += 1;
    }
    r
}

/// A request creates each new tag name once: at its first occurrence, and
/// only when no tag of that exact name was stored; every later occurrence,
/// and every stored name, reuses the tag.
pub proof fn tags_created_once(stored: Seq<Seq<char>>, names: Seq<Seq<char>>)
    ensures
        created_flags(stored, names).len() == names.len(),
        forall|i: int|
            0 <= i < names.len() && stored.contains(names[i]) ==> !(#[trigger] created_flags(
                stored,
                names,
            )[i]),
        forall|i: int, j: int|
            #![trigger names[i], created_flags(stored, names)[j]]
            0 <= i < j < names.len() && names[i] == names[j] ==> !created_flags(stored, names)[j],
        forall|i: int|
            0 <= i < names.len() && !stored.contains(names[i]) && (forall|j: int|
                0 <= j < i ==> names[j] != names[i]) ==> #[trigger] created_flags(stored, names)[i],
{
    assert forall|i: int, j: int|
        #![trigger names[i], created_flags(stored, names)[j]]
        0 <= i < j < names.len() && names[i] == names[j] implies !created_flags(
            stored,
            names,
        )[j] by {
        assert(names.subrange(0, j)[i] == names[j]);
    }
}

/// The outcome for one tag: the tag, and whether this request created it.
pub fn tag_info(tag: Tag, created: bool) -> (r: TagInfo)
    ensures
        r.tag_id == tag.id,
        r.tag_name == tag.name,
        r.tag_created == created,
{
    TagInfo { tag_id: tag.id, tag_name: tag.name, tag_created: created }
}

/// The answer to a tag request; a request whose names were all blank fails.
pub fn tags_response(document_id: u128, tags: Vec<TagInfo>) -> (r: Result<
    AddTagToDocumentResponse,
    AppError,
>)
    ensures
        tags@.len() == 0 ==> r == Err::<AddTagToDocumentResponse, AppError>(
            AppError::BadRequest("No valid tags were processed"),
        ),
        tags@.len() > 0 ==> (r matches Ok(resp) && resp.document_id == document_id && resp.tags
            == tags && resp.total == tags@.len()),
{
    if tags.len() == 0 {
        return Err(AppError::BadRequest("No valid tags were processed"));
    }
    let total = tags.len();
    Ok(AddTagToDocumentResponse { document_id, tags, total })
}

} // verus!
