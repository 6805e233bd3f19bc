use vstd::prelude::*;

verus! {

/// Authors model.
#[derive(Debug, Clone)]
pub struct Author {
    pub id: i32,
    pub name: String,
}

/// Fields of an author row to insert.
#[derive(Debug, Clone)]
pub struct NewAuthor<'a> {
    pub name: &'a str,
}

/// References-authors many to many join model.
#[derive(Debug, Clone, Copy, PartialEq, Eq, Structural)]
pub struct ReferenceAuthor {
    pub id: i32,
    pub author_id: i32,
    pub reference_id: i32,
}

/// Fields of a reference-author join row to insert.
#[derive(Debug, Clone, Copy, PartialEq, Eq, Structural)]
pub struct NewReferenceAuthor {
    pub author_id: i32,
    pub reference_id: i32,
}

} // verus!
