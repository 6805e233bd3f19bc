use paperside_api::app::controllers::reference_items_controller::{
    create_item_existing_found, create_item_inserted, create_item_start,
    list_reference_item_details, CreateItemStep, ReferenceItemData, ReferenceItemDetails,
};
use paperside_api::app::controllers::references_controller::{
    load_reference_item_response, reference_not_found, NewReferenceItemRequest,
};
use paperside_api::app::models::author::Author;
use paperside_api::app::models::reference_item::{
    NewReferenceItem, ReferenceItem, ReferenceItemSubmission,
};

fn item_data() -> ReferenceItemData {
    ReferenceItemData {
        title: "A test reference item".to_string(),
        url: Some("http://example.org".to_string()),
        is_public: true,
    }
}

/// Runs the create machine against a store whose items are `stored`; new
/// items get id `next_id`. Answers with the recorded submission and details.
fn create(
    data: ReferenceItemData,
    user_id: i32,
    stored: &[ReferenceItem],
    next_id: i32,
) -> (ReferenceItemSubmission, ReferenceItemDetails, bool) {
    let mut inserted_item = false;
    let mut step = create_item_start(data.clone());
    loop {
        step = match step {
            CreateItemStep::FindByUrl(url) => {
                let existing = stored.iter().find(|i| i.url.as_deref() == Some(url.as_str())).cloned();
                create_item_existing_found(data.clone(), user_id, existing)
            }
            CreateItemStep::InsertItem(new_item) => {
                inserted_item = true;
                let row = ReferenceItem { id: next_id, title: new_item.title, url: new_item.url };
                create_item_inserted(data.clone(), user_id, row)
            }
            CreateItemStep::InsertSubmission { submission, details } => {
                let row = ReferenceItemSubmission {
                    id: 1,
                    submitting_user_id: submission.submitting_user_id,
                    reference_item_id: submission.reference_item_id,
                    is_public: submission.is_public,
                };
                return (row, details, inserted_item);
            }
        }
    }
}

#[test]
fn test_create_public_reference_item() {
    let data = item_data();
    let (submission, details, inserted) = create(data.clone(), 5, &[], 12);
    assert!(details.id > 0, "Expected result to have valid id");
    assert_eq!(details.title, data.title);
    assert_eq!(details.is_public, data.is_public);
    assert!(inserted);
    assert_eq!(submission.reference_item_id, 12);
    assert_eq!(submission.submitting_user_id, 5);
}

#[test]
fn test_list_public_reference_items() {
    let data = item_data();
    let (submission, details, _) = create(data.clone(), 5, &[], 3);
    let row = ReferenceItem { id: details.id, title: details.title.clone(), url: details.url.clone() };
    let parsed = list_reference_item_details(vec![(row, Some(submission))]);
    assert_eq!(parsed.first().unwrap().title, data.title);
    assert_eq!(parsed.first().unwrap().is_public, data.is_public);
}

#[test]
fn existing_url_is_submitted_again() {
    let stored = ReferenceItem {
        id: 9,
        title: "Stored title".to_string(),
        url: Some("http://example.org".to_string()),
    };
    let mut data = item_data();
    data.is_public = false;
    let (submission, details, inserted) = create(data, 2, &[stored], 50);
    assert!(!inserted);
    assert_eq!(details.id, 9);
    assert_eq!(details.title, "Stored title");
    assert!(!details.is_public);
    assert_eq!(submission.reference_item_id, 9);
    assert_eq!(submission.submitting_user_id, 2);
    assert!(!submission.is_public);
}

#[test]
fn item_without_url_is_always_new() {
    let data = ReferenceItemData { title: "No url".to_string(), url: None, is_public: true };
    match create_item_start(data.clone()) {
        CreateItemStep::InsertItem(new_item) => {
            assert_eq!(new_item.title, "No url");
            assert!(new_item.url.is_none());
        }
        other => panic!("unexpected step {:?}", other),
    }
    let stored = ReferenceItem { id: 1, title: "No url".to_string(), url: None };
    let (_, details, inserted) = create(data, 1, &[stored], 2);
    assert!(inserted);
    assert_eq!(details.id, 2);
}

#[test]
fn listed_details_keep_row_order() {
    let rows = vec![
        (
            ReferenceItem { id: 2, title: "b".to_string(), url: None },
            Some(ReferenceItemSubmission { id: 1, submitting_user_id: 1, reference_item_id: 2, is_public: true }),
        ),
        (
            ReferenceItem { id: 1, title: "a".to_string(), url: Some("u".to_string()) },
            Some(ReferenceItemSubmission { id: 2, submitting_user_id: 1, reference_item_id: 1, is_public: false }),
        ),
    ];
    let details = list_reference_item_details(rows);
    assert_eq!(details.len(), 2);
    assert_eq!(details[0].id, 2);
    assert_eq!(details[1].title, "a");
    assert_eq!(details[1].url.as_deref(), Some("u"));
    assert!(!details[1].is_public);
    assert!(list_reference_item_details(vec![]).is_empty());
}

#[test]
fn test_crud_of_reference_items() {
    let title = "Generating Large Images from Latent Vectors";
    let url = "http://blog.otoro.net/2016/04/01/generating-large-images-from-latent-vectors/";
    let request = NewReferenceItemRequest {
        reference: NewReferenceItem { title: title.to_string(), url: Some(url.to_string()) },
    };
    // the stored row of the created item
    let created = ReferenceItem {
        id: 17,
        title: request.reference.title.clone(),
        url: request.reference.url.clone(),
    };
    let authors = vec![Author { id: 1, name: "David Ha".to_string() }];
    let response = load_reference_item_response(created, authors);
    assert_eq!(response.reference.title, title);
    assert_eq!(response.reference.url.as_deref(), Some(url));
    assert_eq!(response.authors.len(), 1);
    assert_eq!(reference_not_found(17), "Reference not found: 17");
}

#[test]
fn not_found_message_spells_the_id() {
    assert_eq!(reference_not_found(0), "Reference not found: 0");
    assert_eq!(reference_not_found(9), "Reference not found: 9");
    assert_eq!(reference_not_found(10), "Reference not found: 10");
    assert_eq!(reference_not_found(-42), "Reference not found: -42");
    assert_eq!(reference_not_found(i32::MAX), "Reference not found: 2147483647");
    assert_eq!(reference_not_found(i32::MIN), "Reference not found: -2147483648");
}
