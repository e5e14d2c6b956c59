//! The cross-thread query bridge. A worker thread issues a query and blocks
//! on a one-shot channel; the thread that owns the interface walks a row
//! cursor inside a callback and sends exactly one outcome back.
//!
//! The walk is a machine: it names the next native call and takes that
//! call's reply. A cursor that was opened is closed before anything is
//! delivered, on every path.

use crate::error::BridgeError;
use crate::reference::ContentReference;
use vstd::prelude::*;
use vstd::string::*;

verus! {

/// The column that holds a document's display name.
pub open spec fn display_name_column() -> Seq<char> {
    "_display_name"@
}

/// One native call on the resolver or on the cursor it gave.
#[derive(Debug)]
pub enum CursorCall {
    /// Query the resolver for `reference`, asking for `column` alone.
    Open { reference: ContentReference, column: String },
    /// Move the cursor to its first row.
    MoveToFirst,
    /// Look up the index of `column` in the cursor.
    ColumnIndex { column: String },
    /// Read the text at `index` of the current row.
    ReadText { index: i32 },
    /// Release the cursor.
    Close,
}

/// A [`CursorCall`] as contracts see it.
pub ghost enum CursorCallView {
    Open { reference: Seq<char>, column: Seq<char> },
    MoveToFirst,
    ColumnIndex { column: Seq<char> },
    ReadText { index: i32 },
    Close,
}

impl View for CursorCall {
    type V = CursorCallView;

    open spec fn view(&self) -> CursorCallView {
        match *self {
            CursorCall::Open { reference, column } => CursorCallView::Open {
                reference: reference@,
                column: column@,
            },
            CursorCall::MoveToFirst => CursorCallView::MoveToFirst,
            CursorCall::ColumnIndex { column } => CursorCallView::ColumnIndex { column: column@ },
            CursorCall::ReadText { index } => CursorCallView::ReadText { index },
            CursorCall::Close => CursorCallView::Close,
        }
    }
}

/// What a native call came back with.
#[derive(Debug)]
pub enum CursorReply {
    /// The resolver answered the query: with a cursor, or with none.
    Cursor { present: bool },
    /// Whether the cursor now stands on a row.
    Moved(bool),
    /// The index of the column; negative where the cursor has no such column.
    Index(i32),
    /// The text that was read.
    Text(String),
    /// The cursor is released.
    Closed,
    /// The call itself failed, or gave nothing that can be used.
    Fault,
}

/// A [`CursorReply`] as contracts see it.
pub ghost enum CursorReplyView {
    Cursor { present: bool },
    Moved(bool),
    Index(i32),
    Text(Seq<char>),
    Closed,
    Fault,
}

impl View for CursorReply {
    type V = CursorReplyView;

    open spec fn view(&self) -> CursorReplyView {
        match *self {
            CursorReply::Cursor { present } => CursorReplyView::Cursor { present },
            CursorReply::Moved(on_row) => CursorReplyView::Moved(on_row),
            CursorReply::Index(index) => CursorReplyView::Index(index),
            CursorReply::Text(text) => CursorReplyView::Text(text@),
            CursorReply::Closed => CursorReplyView::Closed,
            CursorReply::Fault => CursorReplyView::Fault,
        }
    }
}

/// The view of a bridge outcome.
pub open spec fn delivery_view(outcome: Result<String, BridgeError>) -> Result<
    Seq<char>,
    BridgeError,
> {
    match outcome {
        Ok(name) => Ok(name@),
        Err(kind) => Err(kind),
    }
}

/// Where the callback stands. From `Advancing` on a cursor is open.
pub ghost enum WalkView {
    /// The query is out; no cursor yet.
    Opening,
    /// The move to the first row is out.
    Advancing,
    /// The column lookup is out.
    Locating,
    /// The read is out.
    Reading,
    /// The release is out; `outcome` is what will be delivered after it.
    Closing { outcome: Result<Seq<char>, BridgeError> },
}

/// What one move of the walk gives: the next native call, or the one
/// outcome that goes into the channel.
pub ghost enum WalkStepView {
    Continue { walk: WalkView, call: CursorCallView },
    Delivered(Result<Seq<char>, BridgeError>),
}

/// The first move of the callback: the query for `reference`, asking for
/// the display-name column alone.
pub open spec fn enter_view(reference: Seq<char>) -> WalkStepView {
    WalkStepView::Continue {
        walk: WalkView::Opening,
        call: CursorCallView::Open { reference, column: display_name_column() },
    }
}

/// The move that releases the cursor and keeps `outcome` for delivery.
pub open spec fn release_with(outcome: Result<Seq<char>, BridgeError>) -> WalkStepView {
    WalkStepView::Continue { walk: WalkView::Closing { outcome }, call: CursorCallView::Close }
}

/// How the walk moves on a reply. At each stage one reply lets it go on;
/// any other ends it with that stage's failure, after the cursor, if one is
/// open, was released.
pub open spec fn reply_view(walk: WalkView, reply: CursorReplyView) -> WalkStepView {
    match walk {
        WalkView::Opening => if reply == (CursorReplyView::Cursor { present: true }) {
            WalkStepView::Continue { walk: WalkView::Advancing, call: CursorCallView::MoveToFirst }
        } else {
            WalkStepView::Delivered(Err(BridgeError::NoCursor))
        },
        WalkView::Advancing => if reply == CursorReplyView::Moved(true) {
            WalkStepView::Continue {
                walk: WalkView::Locating,
                call: CursorCallView::ColumnIndex { column: display_name_column() },
            }
        } else {
            release_with(Err(BridgeError::EmptyResult))
        },
        WalkView::Locating => match reply {
            CursorReplyView::Index(index) if index >= 0 => WalkStepView::Continue {
                walk: WalkView::Reading,
                call: CursorCallView::ReadText { index },
            },
            _ => release_with(Err(BridgeError::ColumnMissing)),
        },
        WalkView::Reading => match reply {
            CursorReplyView::Text(name) => release_with(Ok(name)),
            _ => release_with(Err(BridgeError::ColumnMissing)),
        },
        WalkView::Closing { outcome } => WalkStepView::Delivered(outcome),
    }
}

/// Feeds a run of replies to the walk, one per call. Replies that come
/// after the delivery are not looked at.
pub open spec fn feed(step: WalkStepView, replies: Seq<CursorReplyView>) -> WalkStepView
    decreases replies.len(),
{
    if replies.len() == 0 {
        step
    } else {
        match step {
            WalkStepView::Delivered(_) => step,
            WalkStepView::Continue { walk, call } => feed(
                reply_view(walk, replies[0]),
                replies.drop_first(),
            ),
        }
    }
}

/// The native calls that the walk asks for along a run of replies, in
/// order, the one that is still out included.
pub open spec fn calls(step: WalkStepView, replies: Seq<CursorReplyView>) -> Seq<CursorCallView>
    decreases replies.len(),
{
    match step {
        WalkStepView::Delivered(_) => Seq::empty(),
        WalkStepView::Continue { walk, call } => if replies.len() == 0 {
            seq![call]
        } else {
            seq![call] + calls(reply_view(walk, replies[0]), replies.drop_first())
        },
    }
}

/// What the bridge delivers, given what the resolver and the cursor hold:
/// whether a cursor comes back, whether it has a row, the index of the
/// display-name column and the text in it (absent where it cannot be read).
pub open spec fn walk_outcome(
    cursor: bool,
    has_row: bool,
    index: int,
    text: Option<Seq<char>>,
) -> Result<Seq<char>, BridgeError> {
    if !cursor {
        Err(BridgeError::NoCursor)
    } else if !has_row {
        Err(BridgeError::EmptyResult)
    } else if index < 0 || text is None {
        Err(BridgeError::ColumnMissing)
    } else {
        Ok(text->0)
    }
}

#[derive(Debug)]
enum WalkState {
    Opening,
    Advancing,
    Locating,
    Reading,
    Closing(Result<String, BridgeError>),
}

/// The callback's side of the bridge while it runs.
#[derive(Debug)]
pub struct CursorWalk {
    state: WalkState,
}

impl View for CursorWalk {
    type V = WalkView;

    closed spec fn view(&self) -> WalkView {
        match self.state {
            WalkState::Opening => WalkView::Opening,
            WalkState::Advancing => WalkView::Advancing,
            WalkState::Locating => WalkView::Locating,
            WalkState::Reading => WalkView::Reading,
            WalkState::Closing(outcome) => WalkView::Closing { outcome: delivery_view(outcome) },
        }
    }
}

/// What one move of the walk gives.
#[derive(Debug)]
pub enum WalkStep {
    /// Make `call` and hand its reply to `walk`.
    Continue { walk: CursorWalk, call: CursorCall },
    /// Send this into the channel; the walk is over.
    Delivered(Result<String, BridgeError>),
}

impl View for WalkStep {
    type V = WalkStepView;

    open spec fn view(&self) -> WalkStepView {
        match *self {
            WalkStep::Continue { walk, call } => WalkStepView::Continue {
                walk: walk@,
                call: call@,
            },
            WalkStep::Delivered(outcome) => WalkStepView::Delivered(delivery_view(outcome)),
        }
    }
}

/// A query that was issued and whose callback has not run yet. It is used
/// up when the callback starts, so one issue gives one walk and one outcome.
#[derive(Debug)]
pub struct PendingQuery {
    reference: ContentReference,
}

impl View for PendingQuery {
    type V = Seq<char>;

    closed spec fn view(&self) -> Seq<char> {
        self.reference@
    }
}

impl PendingQuery {
    /// Issues the query for `reference`.
    pub fn issue(reference: ContentReference) -> (pending: PendingQuery)
        ensures
            pending@ == reference@,
    {
        PendingQuery { reference }
    }

    /// The reference that will be queried.
    pub fn reference(&self) -> (reference: ContentReference)
        ensures
            reference@ == self@,
    {
        self.reference.clone()
    }

    /// Starts the callback: the first native call is the query itself.
    pub fn enter(self) -> (step: WalkStep)
        ensures
            step@ == enter_view(self@),
    {
        WalkStep::Continue {
            walk: CursorWalk { state: WalkState::Opening },
            call: CursorCall::Open {
                reference: self.reference,
                column: String::from_str("_display_name"),
            },
        }
    }
}

fn release(outcome: Result<String, BridgeError>) -> (step: WalkStep)
    ensures
        step@ == release_with(delivery_view(outcome)),
{
    WalkStep::Continue {
        walk: CursorWalk { state: WalkState::Closing(outcome) },
        call: CursorCall::Close,
    }
}

impl CursorWalk {
    /// Takes the reply to the call that is out, and says what comes next.
    pub fn reply(self, reply: CursorReply) -> (step: WalkStep)
        ensures
            step@ == reply_view(self@, reply@),
    {
        match self.state {
            WalkState::Opening => match reply {
                CursorReply::Cursor { present: true } => WalkStep::Continue {
                    walk: CursorWalk { state: WalkState::Advancing },
                    call: CursorCall::MoveToFirst,
                },
                _ => WalkStep::Delivered(Err(BridgeError::NoCursor)),
            },
            WalkState::Advancing => match reply {
                CursorReply::Moved(true) => WalkStep::Continue {
                    walk: CursorWalk { state: WalkState::Locating },
                    call: CursorCall::ColumnIndex { column: String::from_str("_display_name") },
                },
                _ => release(Err(BridgeError::EmptyResult)),
            },
            WalkState::Locating => match reply {
                CursorReply::Index(index) => {
                    if index >= 0 {
                        WalkStep::Continue {
                            walk: CursorWalk { state: WalkState::Reading },
                            call: CursorCall::ReadText { index },
                        }
                    } else {
                        release(Err(BridgeError::ColumnMissing))
                    }
                },
                _ => release(Err(BridgeError::ColumnMissing)),
            },
            WalkState::Reading => match reply {
                CursorReply::Text(name) => release(Ok(name)),
                _ => release(Err(BridgeError::ColumnMissing)),
            },
            WalkState::Closing(outcome) => WalkStep::Delivered(outcome),
        }
    }
}

/// How many native calls a walk can still ask for, the one that is out
/// included. Every reply brings it down.
pub open spec fn calls_left(walk: WalkView) -> nat {
    match walk {
        WalkView::Opening => 5,
        WalkView::Advancing => 4,
        WalkView::Locating => 3,
        WalkView::Reading => 2,
        WalkView::Closing { .. } => 1,
    }
}

/// The views of a run of replies.
pub open spec fn reply_views(replies: Seq<CursorReply>) -> Seq<CursorReplyView> {
    Seq::new(replies.len(), |i: int| replies[i]@)
}

/// True when `native` may have given `reply` to a call that looks like
/// `call`.
pub open spec fn replied<F: Fn(CursorCall) -> CursorReply>(
    native: F,
    call: CursorCallView,
    reply: CursorReply,
) -> bool {
    exists|made: CursorCall| made@ == call && call_ensures(native, (made,), reply)
}

/// True when `outcome` is what the walk for `reference` delivers on
/// `replies`, and `replies` are what `native` gave, call by call, to the
/// calls that the walk asked for.
pub open spec fn resolved_by<F: Fn(CursorCall) -> CursorReply>(
    native: F,
    reference: Seq<char>,
    replies: Seq<CursorReply>,
    outcome: Result<Seq<char>, BridgeError>,
) -> bool {
    &&& 1 <= replies.len() <= 5
    &&& feed(enter_view(reference), reply_views(replies)) == WalkStepView::Delivered(outcome)
    &&& calls(enter_view(reference), reply_views(replies)).len() == replies.len()
    &&& forall|i: int|
        0 <= i < replies.len() ==> replied(
            native,
            #[trigger] calls(enter_view(reference), reply_views(replies))[i],
            replies[i],
        )
}

proof fn feed_one_more(
    start: WalkStepView,
    replies: Seq<CursorReplyView>,
    reply: CursorReplyView,
)
    requires
        feed(start, replies) is Continue,
    ensures
        feed(start, replies.push(reply)) == reply_view(feed(start, replies)->walk, reply),
        calls(start, replies).len() == replies.len() + 1,
        calls(start, replies).last() == feed(start, replies)->call,
        calls(start, replies.push(reply)) == calls(start, replies) + calls(
            feed(start, replies.push(reply)),
            Seq::empty(),
        ),
    decreases replies.len(),
{
    reveal_with_fuel(feed, 3);
    reveal_with_fuel(calls, 3);
    let longer = replies.push(reply);
    if replies.len() == 0 {
        assert(longer.drop_first() =~= Seq::<CursorReplyView>::empty());
        assert(longer[0] == reply);
        assert(calls(start, longer) =~= calls(start, replies) + calls(
            feed(start, longer),
            Seq::empty(),
        ));
    } else {
        assert(longer.drop_first() =~= replies.drop_first().push(reply));
        assert(longer[0] == replies[0]);
        let next = reply_view(start->walk, replies[0]);
        feed_one_more(next, replies.drop_first(), reply);
        assert(calls(start, longer) =~= calls(start, replies) + calls(
            feed(start, longer),
            Seq::empty(),
        ));
    }
}

impl PendingQuery {
    /// Runs the whole callback: makes the native calls through `native`,
    /// one after the other as the walk asks for them, and returns the one
    /// outcome to send. It makes five calls at most, and none after the
    /// release of the cursor.
    pub fn resolve<F: Fn(CursorCall) -> CursorReply>(self, native: F) -> (outcome: Result<
        String,
        BridgeError,
    >)
        requires
            forall|call: CursorCall| call_requires(native, (call,)),
        ensures
            exists|replies: Seq<CursorReply>|
                resolved_by(native, self@, replies, delivery_view(outcome)),
    {
        let ghost start = enter_view(self@);
        let ghost mut replies: Seq<CursorReply> = Seq::empty();
        let mut step = self.enter();
        proof {
            assert(reply_views(replies) =~= Seq::<CursorReplyView>::empty());
        }
        loop
            invariant
                step@ == feed(start, reply_views(replies)),
                start == enter_view(self@),
                forall|call: CursorCall| call_requires(native, (call,)),
                step@ matches WalkStepView::Continue { walk, .. } ==> replies.len() + calls_left(
                    walk,
                ) <= 5,
                replies.len() <= 5,
                step@ is Delivered ==> replies.len() >= 1,
                calls(start, reply_views(replies)).len() == replies.len() + (if step@
                    is Continue {
                    1int
                } else {
                    0int
                }),
                forall|i: int|
                    0 <= i < replies.len() ==> replied(
                        native,
                        #[trigger] calls(start, reply_views(replies))[i],
                        replies[i],
                    ),
            decreases
                    match step@ {
                        WalkStepView::Continue { walk, .. } => calls_left(walk),
                        WalkStepView::Delivered(_) => 0,
                    },
        {
            match step {
                WalkStep::Delivered(outcome) => {
                    proof {
                        assert(resolved_by(native, self@, replies, delivery_view(outcome)));
                    }
                    return outcome;
                },
                WalkStep::Continue { walk, call } => {
                    let ghost made = call;
                    let ghost before = reply_views(replies);
                    let reply = native(call);
                    proof {
                        feed_one_more(start, before, reply@);
                        assert(reply_views(replies.push(reply)) =~= before.push(reply@));
                        assert(replied(native, made@, reply));
                        replies = replies.push(reply);
                    }
                    step = walk.reply(reply);
                    proof {
                        let after = reply_views(replies);
                        let made_before = calls(start, before);
                        let made_after = calls(start, after);
                        assert(made_after == made_before + calls(step@, Seq::empty()));
                        assert forall|i: int| 0 <= i < replies.len() implies replied(
                            native,
                            #[trigger] made_after[i],
                            replies[i],
                        ) by {
                            assert(made_after[i] == made_before[i]);
                            if i < replies.len() - 1 {
                                assert(replies[i] == replies.drop_last()[i]);
                            }
                        }
                    }
                },
            }
        }
    }
}

/// What the blocked worker makes of its receive: the outcome that was sent,
/// or `ChannelClosed` where the channel closed with nothing in it.
pub open spec fn receive_view(received: Option<Result<Seq<char>, BridgeError>>) -> Result<
    Seq<char>,
    BridgeError,
> {
    match received {
        Some(outcome) => outcome,
        None => Err(BridgeError::ChannelClosed),
    }
}

/// Ends the bridge on the worker's side. `received` is what the blocking
/// receive gave: the one message, or nothing where the sender went away.
pub fn receive(received: Option<Result<String, BridgeError>>) -> (outcome: Result<
    String,
    BridgeError,
>)
    ensures
        delivery_view(outcome) == receive_view(
            match received {
                Some(sent) => Some(delivery_view(sent)),
                None => None,
            },
        ),
{
    match received {
        Some(sent) => sent,
        None => Err(BridgeError::ChannelClosed),
    }
}

} // verus!
