use content_bridge::error::{ExtractError, PickError};
use content_bridge::extract::{extract, Answer, ExtractStep, Extraction, Query};
use content_bridge::reference::{authorize, ContentReference, GrantOutcome};

fn reference(token: &str) -> ContentReference {
    ContentReference::from_token(token.to_string()).unwrap()
}

#[test]
fn empty_text_is_no_reference() {
    assert!(ContentReference::from_token(String::new()).is_none());
}

#[test]
fn token_round_trips_character_for_character() {
    let token = "{\"uri\":\"content://a/b c/\u{e9}\",\"documentTopTreeUri\":null}";
    let first = reference(token);
    assert_eq!(first.to_token(), token);
    let second = ContentReference::from_token(first.to_token()).unwrap();
    assert!(first.same_as(&second));
    assert!(first.clone().same_as(&first));
    assert!(!first.same_as(&reference("content://other")));
}

#[test]
fn authorize_follows_the_platform() {
    let r = reference("content://a");
    let grant = authorize(&r, GrantOutcome::Granted).unwrap();
    assert!(grant.covers(&r));
    assert!(!grant.covers(&reference("content://b")));
    assert_eq!(grant.reference().to_token(), "content://a");
    assert_eq!(authorize(&r, GrantOutcome::Denied).unwrap_err(), PickError::PermissionDenied);
}

#[test]
fn authorizing_twice_gives_the_same_grant() {
    let r = reference("content://a");
    let first = authorize(&r, GrantOutcome::Granted).unwrap();
    let second = authorize(&first.reference(), GrantOutcome::Granted).unwrap();
    assert!(second.covers(&r));
    assert!(first.reference().same_as(&second.reference()));
}

#[test]
fn extraction_without_grant_fails_before_any_query() {
    let r = reference("content://a");
    match Extraction::begin(&r, None) {
        ExtractStep::Finished(Err(ExtractError::Unreadable)) => {}
        other => panic!("unexpected {:?}", other),
    }
    let other_grant = authorize(&reference("content://b"), GrantOutcome::Granted).unwrap();
    match Extraction::begin(&r, Some(&other_grant)) {
        ExtractStep::Finished(Err(ExtractError::Unreadable)) => {}
        other => panic!("unexpected {:?}", other),
    }
}

#[test]
fn extraction_with_grant_reads_type_name_and_thumbnail() {
    let r = reference("content://a");
    let grant = authorize(&r, GrantOutcome::Granted).unwrap();
    let ExtractStep::Continue { extraction, query } = Extraction::begin(&r, Some(&grant)) else {
        panic!("an authorized extraction starts with a query");
    };
    assert!(matches!(&query, Query::MimeType(q) if q.same_as(&r)));
    assert!(extraction.reference().same_as(&r));
    let ExtractStep::Continue { extraction, query } =
        extraction.answer(Answer::Text("image/png".to_string()))
    else {
        panic!("the name follows the type");
    };
    assert!(matches!(&query, Query::Name(q) if q.same_as(&r)));
    let ExtractStep::Continue { extraction, .. } =
        extraction.answer(Answer::Text("cat.png".to_string()))
    else {
        panic!("the thumbnail follows the name");
    };
    let ExtractStep::Finished(outcome) = extraction.answer(Answer::Image(vec![1, 2, 3])) else {
        panic!("the third answer ends the extraction");
    };
    let metadata = outcome.unwrap();
    assert_eq!(metadata.mime_type, "image/png");
    assert_eq!(metadata.display_name, "cat.png");
    assert_eq!(metadata.thumbnail, Some(vec![1, 2, 3]));
}

#[test]
fn extraction_degrades_to_no_thumbnail() {
    let r = reference("content://a");
    let grant = authorize(&r, GrantOutcome::Granted).unwrap();
    let ExtractStep::Continue { extraction, .. } = Extraction::begin(&r, Some(&grant)) else {
        panic!("an authorized extraction starts with a query");
    };
    let ExtractStep::Continue { extraction, .. } =
        extraction.answer(Answer::Text("image/png".to_string()))
    else {
        panic!("the name follows the type");
    };
    let ExtractStep::Continue { extraction, .. } =
        extraction.answer(Answer::Text("cat.png".to_string()))
    else {
        panic!("the thumbnail follows the name");
    };
    let ExtractStep::Finished(outcome) = extraction.answer(Answer::Text("no image".to_string()))
    else {
        panic!("the third answer ends the extraction");
    };
    let metadata = outcome.unwrap();
    assert_eq!(metadata.display_name, "cat.png");
    assert_eq!(metadata.thumbnail, None);
}

#[test]
fn extract_asks_the_platform_three_times() {
    let r = reference("content://a");
    let grant = authorize(&r, GrantOutcome::Granted).unwrap();
    let asked = std::cell::RefCell::new(Vec::new());
    let metadata = extract(&r, Some(&grant), |query: Query| match query {
        Query::MimeType(q) => {
            asked.borrow_mut().push(format!("type {}", q.to_token()));
            Answer::Text("image/png".to_string())
        }
        Query::Name(q) => {
            asked.borrow_mut().push(format!("name {}", q.to_token()));
            Answer::Text("cat.png".to_string())
        }
        Query::Thumbnail { reference, width, height, .. } => {
            asked.borrow_mut().push(format!("thumb {} {} {}", reference.to_token(), width, height));
            Answer::Image(vec![9, 8])
        }
    })
    .unwrap();
    assert_eq!(metadata.mime_type, "image/png");
    assert_eq!(metadata.display_name, "cat.png");
    assert_eq!(metadata.thumbnail, Some(vec![9, 8]));
    assert_eq!(
        asked.into_inner(),
        vec!["type content://a", "name content://a", "thumb content://a 200 200"]
    );
}

#[test]
fn extract_without_grant_asks_nothing() {
    let r = reference("content://a");
    let asked = std::cell::Cell::new(0);
    let outcome = extract(&r, None, |_query: Query| {
        asked.set(asked.get() + 1);
        Answer::Text("never".to_string())
    });
    assert_eq!(outcome.unwrap_err(), ExtractError::Unreadable);
    assert_eq!(asked.get(), 0);
}

#[test]
fn extract_of_invalid_reference_is_not_found() {
    let r = reference("content://gone");
    let grant = authorize(&r, GrantOutcome::Granted).unwrap();
    let asked = std::cell::Cell::new(0);
    let outcome = extract(&r, Some(&grant), |_query: Query| {
        asked.set(asked.get() + 1);
        Answer::InvalidReference
    });
    assert_eq!(outcome.unwrap_err(), ExtractError::NotFound);
    assert_eq!(asked.get(), 1);
}

#[test]
fn extract_of_unreadable_document_still_asks_everything() {
    let r = reference("content://locked");
    let grant = authorize(&r, GrantOutcome::Granted).unwrap();
    let asked = std::cell::Cell::new(0);
    let outcome = extract(&r, Some(&grant), |_query: Query| {
        asked.set(asked.get() + 1);
        Answer::Failed
    });
    assert_eq!(outcome.unwrap_err(), ExtractError::Unreadable);
    assert_eq!(asked.get(), 3);
}
