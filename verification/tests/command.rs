use content_bridge::bridge::{CursorCall, CursorReply, PendingQuery};
use content_bridge::command::{
    display_name_of, get_display_name_from_uri, get_random_loading_quote, greet,
    issue_display_name_query, loading_quote_at, LoadingText, Platform,
};
use content_bridge::error::{BridgeError, DisplayNameError};
use content_bridge::extract::{Answer, Query};
use content_bridge::files::{pick_file_with_metdata, PickAction, PickEvent};
use content_bridge::reference::{ContentReference, GrantOutcome};
use std::cell::Cell;

fn cursor_with(name: &'static str) -> impl Fn(CursorCall) -> CursorReply {
    move |call: CursorCall| match call {
        CursorCall::Open { .. } => CursorReply::Cursor { present: true },
        CursorCall::MoveToFirst => CursorReply::Moved(true),
        CursorCall::ColumnIndex { .. } => CursorReply::Index(0),
        CursorCall::ReadText { .. } => CursorReply::Text(name.to_string()),
        CursorCall::Close => CursorReply::Closed,
    }
}

#[test]
fn unsupported_platform_fails_before_any_call() {
    let called = Cell::new(false);
    let result = get_display_name_from_uri(
        Platform::Other,
        "content://a".to_string(),
        |_pending: PendingQuery| {
            called.set(true);
            Some(Ok("never".to_string()))
        },
    );
    assert_eq!(result, Err(DisplayNameError::UnsupportedPlatform));
    assert!(!called.get());
    assert_eq!(result.unwrap_err().message(), "Only supported on Android");
}

#[test]
fn display_name_comes_through_the_bridge() {
    let result = get_display_name_from_uri(
        Platform::Android,
        "content://a".to_string(),
        |pending: PendingQuery| {
            assert_eq!(pending.reference().to_token(), "content://a");
            Some(pending.resolve(cursor_with("report.pdf")))
        },
    );
    assert_eq!(result, Ok("report.pdf".to_string()));
}

#[test]
fn bridge_failure_keeps_its_kind() {
    let result = get_display_name_from_uri(
        Platform::Android,
        "content://a".to_string(),
        |pending: PendingQuery| {
            Some(pending.resolve(|call: CursorCall| match call {
                CursorCall::Open { .. } => CursorReply::Cursor { present: true },
                CursorCall::MoveToFirst => CursorReply::Moved(true),
                CursorCall::ColumnIndex { .. } => CursorReply::Index(-1),
                _ => CursorReply::Closed,
            }))
        },
    );
    assert_eq!(result, Err(DisplayNameError::BridgeFailure(BridgeError::ColumnMissing)));
    assert_eq!(result.unwrap_err().message(), "Failed to receive result: Column not found");
}

#[test]
fn callback_that_never_sends_gives_channel_closed() {
    let result = get_display_name_from_uri(
        Platform::Android,
        "content://a".to_string(),
        |_pending: PendingQuery| None,
    );
    assert_eq!(result, Err(DisplayNameError::BridgeFailure(BridgeError::ChannelClosed)));
    assert_eq!(
        result.unwrap_err().message(),
        "Failed to receive result: receiving on a closed channel"
    );
}

#[test]
fn empty_uri_gives_no_cursor_without_a_call() {
    let called = Cell::new(false);
    let result =
        get_display_name_from_uri(Platform::Android, String::new(), |_pending: PendingQuery| {
            called.set(true);
            None
        });
    assert_eq!(result, Err(DisplayNameError::BridgeFailure(BridgeError::NoCursor)));
    assert!(!called.get());
    assert_eq!(result.unwrap_err().message(), "Failed to receive result: Cursor is null");
}

#[test]
fn issue_and_conclude_stand_alone() {
    assert_eq!(
        issue_display_name_query(Platform::Other, "content://a".to_string()).unwrap_err(),
        DisplayNameError::UnsupportedPlatform
    );
    let pending = issue_display_name_query(Platform::Android, "content://a".to_string()).unwrap();
    assert_eq!(pending.reference().to_token(), "content://a");
    assert_eq!(display_name_of(Some(Ok("n".to_string()))), Ok("n".to_string()));
    assert_eq!(
        display_name_of(Some(Err(BridgeError::EmptyResult))),
        Err(DisplayNameError::BridgeFailure(BridgeError::EmptyResult))
    );
    assert_eq!(
        DisplayNameError::BridgeFailure(BridgeError::EmptyResult).message(),
        "Failed to receive result: No data in cursor"
    );
    assert_eq!(
        display_name_of(None),
        Err(DisplayNameError::BridgeFailure(BridgeError::ChannelClosed))
    );
}

#[test]
fn picked_reference_resolves_to_the_same_name() {
    let token = "{\"uri\":\"content://docs/7\",\"documentTopTreeUri\":null}";
    let info = pick_file_with_metdata(|action: PickAction| match action {
        PickAction::LaunchPicker { .. } => PickEvent::Picked {
            reference: ContentReference::from_token(token.to_string()).unwrap(),
            display_path: "content://docs/7".to_string(),
        },
        PickAction::TakePermission(_) => PickEvent::Grant(GrantOutcome::Granted),
        PickAction::Ask(Query::MimeType(_)) => PickEvent::Answer(Answer::Text("text/plain".into())),
        PickAction::Ask(Query::Name(_)) => PickEvent::Answer(Answer::Text("notes.txt".into())),
        PickAction::Ask(Query::Thumbnail { .. }) => PickEvent::Answer(Answer::Failed),
    })
    .unwrap();
    let name = get_display_name_from_uri(
        Platform::Android,
        info.uri().clone(),
        |pending: PendingQuery| {
            assert_eq!(pending.reference().to_token(), token);
            Some(pending.resolve(cursor_with("notes.txt")))
        },
    )
    .unwrap();
    assert_eq!(&name, info.name());
}

#[test]
fn greeting_wraps_the_name() {
    assert_eq!(greet("Ada"), "Hello, Ada! You've been greeted from Rust!");
    assert_eq!(greet(""), "Hello, ! You've been greeted from Rust!");
}

fn quotes(lines: &[&str]) -> Vec<LoadingText> {
    lines
        .iter()
        .map(|line| LoadingText { book: "Book".to_string(), quote: line.to_string() })
        .collect()
}

#[test]
fn quote_at_index_or_fallback() {
    let list = quotes(&["one", "two", "three"]);
    assert_eq!(loading_quote_at(&list, 0), "one");
    assert_eq!(loading_quote_at(&list, 2), "three");
    assert_eq!(loading_quote_at(&list, 3), "Loading...");
    assert_eq!(loading_quote_at(&Vec::new(), 0), "Loading...");
}

#[test]
fn random_quote_of_empty_list_is_the_fallback() {
    assert_eq!(get_random_loading_quote(&Vec::new()), Ok("Loading...".to_string()));
}

#[test]
fn random_quote_is_one_of_the_list() {
    let single = quotes(&["only"]);
    let list = quotes(&["one", "two", "three"]);
    for _ in 0..200 {
        assert_eq!(get_random_loading_quote(&single), Ok("only".to_string()));
        let picked = get_random_loading_quote(&list).unwrap();
        assert!(picked == "one" || picked == "two" || picked == "three");
    }
}
