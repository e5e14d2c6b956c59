use content_bridge::bridge::{
    receive, CursorCall, CursorReply, CursorWalk, PendingQuery, WalkStep,
};
use content_bridge::error::BridgeError;
use content_bridge::reference::ContentReference;
use std::cell::RefCell;
use std::sync::mpsc;

fn pending(token: &str) -> PendingQuery {
    PendingQuery::issue(ContentReference::from_token(token.to_string()).unwrap())
}

fn name_of(call: &CursorCall) -> String {
    match call {
        CursorCall::Open { reference, column } => {
            format!("open {} [{}]", reference.to_token(), column)
        }
        CursorCall::MoveToFirst => "first".to_string(),
        CursorCall::ColumnIndex { column } => format!("index {}", column),
        CursorCall::ReadText { index } => format!("read {}", index),
        CursorCall::Close => "close".to_string(),
    }
}

/// Runs the callback against a cursor that holds the given values and
/// notes every native call.
fn resolve(
    cursor: bool,
    has_row: bool,
    index: i32,
    text: Option<&str>,
) -> (Result<String, BridgeError>, Vec<String>) {
    let log = RefCell::new(Vec::new());
    let outcome = pending("content://a").resolve(|call: CursorCall| {
        log.borrow_mut().push(name_of(&call));
        match call {
            CursorCall::Open { .. } => CursorReply::Cursor { present: cursor },
            CursorCall::MoveToFirst => CursorReply::Moved(has_row),
            CursorCall::ColumnIndex { .. } => CursorReply::Index(index),
            CursorCall::ReadText { .. } => match text {
                Some(name) => CursorReply::Text(name.to_string()),
                None => CursorReply::Fault,
            },
            CursorCall::Close => CursorReply::Closed,
        }
    });
    (outcome, log.into_inner())
}

#[test]
fn walk_delivers_the_display_name() {
    let (outcome, log) = resolve(true, true, 0, Some("report.pdf"));
    assert_eq!(outcome, Ok("report.pdf".to_string()));
    assert_eq!(
        log,
        vec!["open content://a [_display_name]", "first", "index _display_name", "read 0", "close"]
    );
}

#[test]
fn walk_reads_the_column_where_it_stands() {
    let (outcome, log) = resolve(true, true, 3, Some("a.txt"));
    assert_eq!(outcome, Ok("a.txt".to_string()));
    assert_eq!(log[3], "read 3");
}

#[test]
fn missing_cursor_gives_no_cursor_and_nothing_to_close() {
    let (outcome, log) = resolve(false, true, 0, Some("report.pdf"));
    assert_eq!(outcome, Err(BridgeError::NoCursor));
    assert_eq!(log, vec!["open content://a [_display_name]"]);
}

#[test]
fn cursor_without_rows_gives_empty_result() {
    let (outcome, log) = resolve(true, false, 0, Some(""));
    assert_eq!(outcome, Err(BridgeError::EmptyResult));
    assert_ne!(outcome, Ok(String::new()));
    assert_eq!(log, vec!["open content://a [_display_name]", "first", "close"]);
}

#[test]
fn missing_column_gives_column_missing() {
    let (outcome, log) = resolve(true, true, -1, Some("report.pdf"));
    assert_eq!(outcome, Err(BridgeError::ColumnMissing));
    assert_eq!(
        log,
        vec!["open content://a [_display_name]", "first", "index _display_name", "close"]
    );
}

#[test]
fn unreadable_column_gives_column_missing() {
    let (outcome, log) = resolve(true, true, 0, None);
    assert_eq!(outcome, Err(BridgeError::ColumnMissing));
    assert_eq!(log.last().unwrap(), "close");
    assert_eq!(log.iter().filter(|call| call.as_str() == "close").count(), 1);
}

#[test]
fn fault_at_each_stage_gives_that_stage_failure() {
    let faulty = |fail_at: usize| {
        let made = RefCell::new(0usize);
        let outcome = pending("content://a").resolve(|call: CursorCall| {
            let at = *made.borrow();
            *made.borrow_mut() = at + 1;
            if at == fail_at {
                return CursorReply::Fault;
            }
            match call {
                CursorCall::Open { .. } => CursorReply::Cursor { present: true },
                CursorCall::MoveToFirst => CursorReply::Moved(true),
                CursorCall::ColumnIndex { .. } => CursorReply::Index(0),
                CursorCall::ReadText { .. } => CursorReply::Text("n".to_string()),
                CursorCall::Close => CursorReply::Closed,
            }
        });
        (outcome, made.into_inner())
    };
    assert_eq!(faulty(0), (Err(BridgeError::NoCursor), 1));
    assert_eq!(faulty(1), (Err(BridgeError::EmptyResult), 3));
    assert_eq!(faulty(2), (Err(BridgeError::ColumnMissing), 4));
    assert_eq!(faulty(3), (Err(BridgeError::ColumnMissing), 5));
    assert_eq!(faulty(4), (Ok("n".to_string()), 5));
}

fn first_call(token: &str) -> CursorWalk {
    match pending(token).enter() {
        WalkStep::Continue { walk, call } => {
            assert_eq!(name_of(&call), format!("open {} [_display_name]", token));
            walk
        }
        WalkStep::Delivered(outcome) => panic!("delivered {:?} before any call", outcome),
    }
}

fn next(step: WalkStep, reply: CursorReply) -> WalkStep {
    match step {
        WalkStep::Continue { walk, .. } => walk.reply(reply),
        WalkStep::Delivered(outcome) => WalkStep::Delivered(outcome),
    }
}

#[test]
fn two_walks_of_one_reference_do_not_mix() {
    let a = first_call("content://same").reply(CursorReply::Cursor { present: true });
    let b = first_call("content://same").reply(CursorReply::Cursor { present: true });
    let a = next(a, CursorReply::Moved(true));
    let b = next(b, CursorReply::Moved(false));
    let a = next(a, CursorReply::Index(0));
    let b = next(b, CursorReply::Closed);
    let a = next(a, CursorReply::Text("mine".to_string()));
    let a = next(a, CursorReply::Closed);
    assert!(matches!(a, WalkStep::Delivered(Ok(ref name)) if name == "mine"));
    assert!(matches!(b, WalkStep::Delivered(Err(BridgeError::EmptyResult))));
}

#[test]
fn each_invocation_has_its_own_channel() {
    let (first_tx, first_rx) = mpsc::channel();
    let (second_tx, second_rx) = mpsc::channel();
    let (second, _) = resolve(true, true, 0, Some("second"));
    let (first, _) = resolve(true, true, 0, Some("first"));
    second_tx.send(second).unwrap();
    first_tx.send(first).unwrap();
    assert_eq!(receive(first_rx.recv().ok()), Ok("first".to_string()));
    assert_eq!(receive(second_rx.recv().ok()), Ok("second".to_string()));
    drop(first_tx);
    assert_eq!(receive(first_rx.recv().ok()), Err(BridgeError::ChannelClosed));
}

#[test]
fn closed_channel_gives_channel_closed() {
    let (tx, rx) = mpsc::channel::<Result<String, BridgeError>>();
    drop(tx);
    assert_eq!(receive(rx.recv().ok()), Err(BridgeError::ChannelClosed));
    assert_eq!(receive(None), Err(BridgeError::ChannelClosed));
    assert_eq!(receive(Some(Err(BridgeError::NoCursor))), Err(BridgeError::NoCursor));
    assert_eq!(receive(Some(Ok("x".to_string()))), Ok("x".to_string()));
}

#[test]
fn bridge_failures_have_their_own_text() {
    assert_eq!(BridgeError::NoCursor.message(), "Cursor is null");
    assert_eq!(BridgeError::EmptyResult.message(), "No data in cursor");
    assert_eq!(BridgeError::ColumnMissing.message(), "Column not found");
    assert_eq!(BridgeError::ChannelClosed.message(), "receiving on a closed channel");
}
