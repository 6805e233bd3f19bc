use vstd::prelude::*;

verus! {

/// Reference item model.
#[derive(Debug, Clone)]
pub struct ReferenceItem {
    pub id: i32,
    pub title: String,
    pub url: Option<String>,
}

/// Fields of a reference item row to insert.
#[derive(Debug, Clone)]
pub struct NewReferenceItem {
    pub title: String,
    pub url: Option<String>,
}

/// A user's submission of a reference item.
#[derive(Debug, Clone, Copy, PartialEq, Eq, Structural)]
pub struct ReferenceItemSubmission {
    pub id: i32,
    pub submitting_user_id: i32,
    pub reference_item_id: i32,
    pub is_public: bool,
}

/// Fields of a submission row to insert.
#[derive(Debug, Clone, Copy, PartialEq, Eq, Structural)]
pub struct NewReferenceItemSubmission {
    pub submitting_user_id: i32,
    pub reference_item_id: i32,
    pub is_public: bool,
}

} // verus!
