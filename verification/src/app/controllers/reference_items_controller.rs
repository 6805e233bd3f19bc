use vstd::prelude::*;

use crate::app::models::reference_item::{
    NewReferenceItem, NewReferenceItemSubmission, ReferenceItem, ReferenceItemSubmission,
};

verus! {

/// Response data for a reference item, with the submission's visibility.
#[derive(Debug, Clone)]
pub struct ReferenceItemDetails {
    pub id: i32,
    pub title: String,
    pub url: Option<String>,
    pub is_public: bool,
}

/// Post data for submitting a potentially-new reference item.
#[derive(Debug, Clone)]
pub struct ReferenceItemData {
    pub title: String,
    pub url: Option<String>,
    pub is_public: bool,
}

/// The details of `item` as submitted with visibility `is_public`.
pub open spec fn details_of(item: ReferenceItem, is_public: bool) -> ReferenceItemDetails {
    ReferenceItemDetails { id: item.id, title: item.title, url: item.url, is_public }
}

/// Every joined row carries its submission.
pub open spec fn rows_have_submissions(rows: Seq<(ReferenceItem, Option<ReferenceItemSubmission>)>) -> bool {
    forall|i: int| 0 <= i < rows.len() ==> (#[trigger] rows[i]).1 is Some
}

/// Lists the details of public reference items, from the items joined with
/// their public submissions (one output row per joined row, in order).
pub fn list_reference_item_details(rows: Vec<(ReferenceItem, Option<ReferenceItemSubmission>)>) -> (r: Vec<ReferenceItemDetails>)
    requires
        rows_have_submissions(rows@),
    ensures
        r@.len() == rows@.len(),
        forall|i: int| 0 <= i < rows@.len() ==>
            #[trigger] r@[i] == details_of(rows@[i].0, rows@[i].1->0.is_public),
{
    let ghost input = rows@;
    let mut out: Vec<ReferenceItemDetails> = Vec::new();
    for row in it: rows.into_iter()
        invariant
            it.seq() == input,
            rows_have_submissions(input),
            out@.len() == it.index(),
            forall|i: int| 0 <= i < it.index() ==>
                #[trigger] out@[i] == details_of(input[i].0, input[i].1->0.is_public),
    {
        match row {
            (item, Some(sub)) => {
                out.push(ReferenceItemDetails {
                    id: item.id,
                    title: item.title,
                    url: item.url,
                    is_public: sub.is_public,
                });
            },
            (_, None) => {
                proof {
                    assert(input[it.index() as int].1 is Some);
                }
            },
        }
    }
    out
}

/// What creating a reference item asks for next.
#[derive(Debug, Clone)]
pub enum CreateItemStep {
    /// Look up the first stored item with this url.
    FindByUrl(String),
    /// Store this new item, and report the stored row.
    InsertItem(NewReferenceItem),
    /// Store this submission, then answer with `details`.
    InsertSubmission { submission: NewReferenceItemSubmission, details: ReferenceItemDetails },
}

/// The submission by `user_id` of the stored item `item_id`, with the
/// requested visibility.
pub open spec fn submission_of(user_id: i32, item_id: i32, is_public: bool) -> NewReferenceItemSubmission {
    NewReferenceItemSubmission { submitting_user_id: user_id, reference_item_id: item_id, is_public }
}

/// The new item that the request describes.
pub open spec fn new_item_of(data: ReferenceItemData) -> NewReferenceItem {
    NewReferenceItem { title: data.title, url: data.url }
}

/// The step that records `user_id`'s submission of the stored `item`,
/// answering with the item's details and the requested visibility.
pub open spec fn submit_step(data: ReferenceItemData, user_id: i32, item: ReferenceItem) -> CreateItemStep {
    CreateItemStep::InsertSubmission {
        submission: submission_of(user_id, item.id, data.is_public),
        details: details_of(item, data.is_public),
    }
}

/// First step: an item with a url may already be stored; one without is new.
pub open spec fn create_item_start_spec(data: ReferenceItemData) -> CreateItemStep {
    match data.url {
        Some(url) => CreateItemStep::FindByUrl(url),
        None => CreateItemStep::InsertItem(new_item_of(data)),
    }
}

/// After the lookup by url: an existing item is submitted again; otherwise
/// the item is stored first.
pub open spec fn create_item_existing_found_spec(
    data: ReferenceItemData,
    user_id: i32,
    existing: Option<ReferenceItem>,
) -> CreateItemStep {
    match existing {
        Some(item) => submit_step(data, user_id, item),
        None => CreateItemStep::InsertItem(new_item_of(data)),
    }
}

/// Builds the submission row of `user_id` for the stored item `item_id`.
fn new_submission(user_id: i32, item_id: i32, is_public: bool) -> (r: NewReferenceItemSubmission)
    ensures
        r == submission_of(user_id, item_id, is_public),
{
    NewReferenceItemSubmission { submitting_user_id: user_id, reference_item_id: item_id, is_public }
}

/// Starts creating a reference item from the posted data.
pub fn create_item_start(data: ReferenceItemData) -> (r: CreateItemStep)
    ensures
        r == create_item_start_spec(data),
        data.url matches Some(u) ==> r == CreateItemStep::FindByUrl(u),
        data.url is None ==> (r matches CreateItemStep::InsertItem(n)
            && n.title == data.title && n.url is None),
{
    match data.url {
        Some(url) => CreateItemStep::FindByUrl(url),
        None => CreateItemStep::InsertItem(NewReferenceItem { title: data.title, url: None }),
    }
}

/// Continues with the result of the lookup by url (`None` where no item has
/// that url).
pub fn create_item_existing_found(data: ReferenceItemData, user_id: i32, existing: Option<ReferenceItem>) -> (r: CreateItemStep)
    ensures
        r == create_item_existing_found_spec(data, user_id, existing),
        existing is None ==> (r matches CreateItemStep::InsertItem(n)
            && n.title == data.title && n.url == data.url),
        existing matches Some(item) ==> (r matches CreateItemStep::InsertSubmission { submission, details }
            && submission.submitting_user_id == user_id
            && submission.reference_item_id == item.id
            && submission.is_public == data.is_public
            && details.id == item.id && details.title == item.title
            && details.url == item.url && details.is_public == data.is_public),
{
    match existing {
        Some(item) => {
            let submission = new_submission(user_id, item.id, data.is_public);
            CreateItemStep::InsertSubmission {
                submission,
                details: ReferenceItemDetails {
                    id: item.id,
                    title: item.title,
                    url: item.url,
                    is_public: data.is_public,
                },
            }
        },
        None => CreateItemStep::InsertItem(NewReferenceItem { title: data.title, url: data.url }),
    }
}

/// Continues with the row of the newly stored item: records the submission.
pub fn create_item_inserted(data: ReferenceItemData, user_id: i32, inserted: ReferenceItem) -> (r: CreateItemStep)
    ensures
        r == submit_step(data, user_id, inserted),
{
    let submission = new_submission(user_id, inserted.id, data.is_public);
    CreateItemStep::InsertSubmission {
        submission,
        details: ReferenceItemDetails {
            id: inserted.id,
            title: inserted.title,
            url: inserted.url,
            is_public: data.is_public,
        },
    }
}

} // verus!
