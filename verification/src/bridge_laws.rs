//! What holds of every run of the query bridge.

use crate::bridge::{
    calls, display_name_column, enter_view, feed, reply_view, walk_outcome, CursorCallView,
    CursorReplyView, WalkStepView, WalkView,
};
use crate::error::BridgeError;
use vstd::prelude::*;

verus! {

/// The reply that a platform gives to `call` when the resolver hands out a
/// cursor or not (`cursor`), the cursor has a row or not (`has_row`), the
/// display-name column stands at `index` (negative: no such column) and
/// holds `text` (absent: nothing that can be read).
pub open spec fn platform_reply(
    cursor: bool,
    has_row: bool,
    index: i32,
    text: Option<Seq<char>>,
    call: CursorCallView,
) -> CursorReplyView {
    match call {
        CursorCallView::Open { .. } => CursorReplyView::Cursor { present: cursor },
        CursorCallView::MoveToFirst => CursorReplyView::Moved(has_row),
        CursorCallView::ColumnIndex { .. } => CursorReplyView::Index(index),
        CursorCallView::ReadText { .. } => match text {
            Some(name) => CursorReplyView::Text(name),
            None => CursorReplyView::Fault,
        },
        CursorCallView::Close => CursorReplyView::Closed,
    }
}

/// Runs the walk against such a platform for at most `budget` calls.
pub open spec fn drive(
    step: WalkStepView,
    cursor: bool,
    has_row: bool,
    index: i32,
    text: Option<Seq<char>>,
    budget: nat,
) -> WalkStepView
    decreases budget,
{
    if budget == 0 {
        step
    } else {
        match step {
            WalkStepView::Delivered(_) => step,
            WalkStepView::Continue { walk, call } => drive(
                reply_view(walk, platform_reply(cursor, has_row, index, text, call)),
                cursor,
                has_row,
                index,
                text,
                (budget - 1) as nat,
            ),
        }
    }
}

/// Once an outcome is delivered, no later reply changes it or adds another.
pub proof fn delivered_walk_stays(
    outcome: Result<Seq<char>, BridgeError>,
    replies: Seq<CursorReplyView>,
)
    ensures
        feed(WalkStepView::Delivered(outcome), replies) == WalkStepView::Delivered(outcome),
        calls(WalkStepView::Delivered(outcome), replies) == Seq::<CursorCallView>::empty(),
{
}

/// Against a platform that answers each call from what it holds, the walk
/// delivers within five calls, and what it delivers is the text of the
/// display-name column of the first row, or the failure that names what is
/// missing.
pub proof fn walk_resolves_what_the_cursor_holds(
    reference: Seq<char>,
    cursor: bool,
    has_row: bool,
    index: i32,
    text: Option<Seq<char>>,
)
    ensures
        drive(enter_view(reference), cursor, has_row, index, text, 5) == WalkStepView::Delivered(
            walk_outcome(cursor, has_row, index as int, text),
        ),
{
    reveal_with_fuel(drive, 6);
}

/// Whatever the replies are, the fifth one at the latest ends the walk.
pub proof fn walk_ends_within_five_replies(reference: Seq<char>, replies: Seq<CursorReplyView>)
    requires
        replies.len() >= 5,
    ensures
        feed(enter_view(reference), replies) is Delivered,
{
    let r1 = replies.drop_first();
    let r2 = r1.drop_first();
    let r3 = r2.drop_first();
    let r4 = r3.drop_first();
    let r5 = r4.drop_first();
    let s1 = reply_view(WalkView::Opening, replies[0]);
    assert(feed(enter_view(reference), replies) == feed(s1, r1));
    if s1 is Continue {
        let s2 = reply_view(s1->walk, r1[0]);
        assert(feed(s1, r1) == feed(s2, r2));
        let s3 = reply_view(s2->walk, r2[0]);
        assert(feed(s2, r2) == feed(s3, r3));
        if s3 is Continue {
            let s4 = reply_view(s3->walk, r3[0]);
            assert(feed(s3, r3) == feed(s4, r4));
            if s4 is Continue {
                let s5 = reply_view(s4->walk, r4[0]);
                assert(feed(s4, r4) == feed(s5, r5));
                delivered_walk_stays(s5->Delivered_0, r5);
            } else {
                delivered_walk_stays(s4->Delivered_0, r4);
            }
        } else {
            delivered_walk_stays(s3->Delivered_0, r3);
        }
    } else {
        delivered_walk_stays(s1->Delivered_0, r1);
    }
}

/// True of the calls of a run in which `Close` is the last call and no
/// other where a cursor was opened, and no call at all where none was.
pub open spec fn released_exactly_once(
    made: Seq<CursorCallView>,
    opened: bool,
) -> bool {
    forall|i: int|
        0 <= i < made.len() ==> ((#[trigger] made[i]) is Close <==> (opened && i == made.len()
            - 1))
}

proof fn release_from(walk: WalkView, call: CursorCallView, replies: Seq<CursorReplyView>)
    requires
        feed(WalkStepView::Continue { walk, call }, replies) is Delivered,
        !(walk is Opening),
        call is Close <==> walk is Closing,
    ensures
        released_exactly_once(calls(WalkStepView::Continue { walk, call }, replies), true),
    decreases replies.len(),
{
    let step = WalkStepView::Continue { walk, call };
    let made = calls(step, replies);
    assert(replies.len() > 0);
    let next = reply_view(walk, replies[0]);
    let rest = replies.drop_first();
    let later = calls(next, rest);
    assert(made == seq![call] + later);
    assert(feed(step, replies) == feed(next, rest));
    match next {
        WalkStepView::Delivered(outcome) => {
            delivered_walk_stays(outcome, rest);
            assert(walk is Closing);
            assert(made =~= seq![call]);
        },
        WalkStepView::Continue { walk: next_walk, call: next_call } => {
            release_from(next_walk, next_call, rest);
            assert(later.len() > 0);
            assert forall|i: int| 0 <= i < made.len() implies ((#[trigger] made[i]) is Close <==> i
                == made.len() - 1) by {
                if i > 0 {
                    assert(made[i] == later[i - 1]);
                }
            }
        },
    }
}

/// A cursor that was opened is released before the outcome is delivered,
/// once and as the last thing done; where no cursor was opened, none is
/// released. This holds on every path, the failing ones too.
pub proof fn cursor_is_released(reference: Seq<char>, replies: Seq<CursorReplyView>)
    requires
        feed(enter_view(reference), replies) is Delivered,
    ensures
        replies.len() > 0,
        released_exactly_once(
            calls(enter_view(reference), replies),
            replies[0] == (CursorReplyView::Cursor { present: true }),
        ),
{
    let start = enter_view(reference);
    let made = calls(start, replies);
    let next = reply_view(WalkView::Opening, replies[0]);
    let rest = replies.drop_first();
    let later = calls(next, rest);
    assert(made == seq![start->call] + later);
    assert(feed(start, replies) == feed(next, rest));
    match next {
        WalkStepView::Delivered(outcome) => {
            delivered_walk_stays(outcome, rest);
            assert(made =~= seq![start->call]);
        },
        WalkStepView::Continue { walk, call } => {
            release_from(walk, call, rest);
            assert forall|i: int| 0 <= i < made.len() implies ((#[trigger] made[i]) is Close <==> i
                == made.len() - 1) by {
                if i > 0 {
                    assert(made[i] == later[i - 1]);
                }
            }
        },
    }
}

/// A cursor without a row makes the bridge fail with `EmptyResult`: the
/// walk ends, after releasing the cursor, and delivers no name, not even an
/// empty one.
pub proof fn empty_cursor_fails(reference: Seq<char>, replies: Seq<CursorReplyView>)
    requires
        replies.len() >= 3,
        replies[0] == (CursorReplyView::Cursor { present: true }),
        replies[1] == CursorReplyView::Moved(false),
    ensures
        feed(enter_view(reference), replies) == WalkStepView::Delivered(
            Err(BridgeError::EmptyResult),
        ),
        calls(enter_view(reference), replies) == seq![
            CursorCallView::Open { reference, column: display_name_column() },
            CursorCallView::MoveToFirst,
            CursorCallView::Close,
        ],
{
    let r1 = replies.drop_first();
    let r2 = r1.drop_first();
    let r3 = r2.drop_first();
    let s1 = reply_view(WalkView::Opening, replies[0]);
    let s2 = reply_view(WalkView::Advancing, r1[0]);
    let s3 = reply_view(s2->walk, r2[0]);
    assert(feed(enter_view(reference), replies) == feed(s1, r1));
    assert(feed(s1, r1) == feed(s2, r2));
    assert(feed(s2, r2) == feed(s3, r3));
    delivered_walk_stays(Err(BridgeError::EmptyResult), r3);
    assert(calls(s3, r3) =~= Seq::<CursorCallView>::empty());
    assert(calls(s2, r2) =~= seq![CursorCallView::Close]);
    assert(calls(s1, r1) =~= seq![CursorCallView::MoveToFirst, CursorCallView::Close]);
    assert(calls(enter_view(reference), replies) =~= seq![
        CursorCallView::Open { reference, column: display_name_column() },
        CursorCallView::MoveToFirst,
        CursorCallView::Close,
    ]);
}

/// The replies of `tagged` that belong to the first walk (`first`) or to
/// the second, in the order in which they came.
pub open spec fn replies_of(tagged: Seq<(bool, CursorReplyView)>, first: bool) -> Seq<
    CursorReplyView,
>
    decreases tagged.len(),
{
    if tagged.len() == 0 {
        Seq::empty()
    } else if tagged[0].0 == first {
        seq![tagged[0].1] + replies_of(tagged.drop_first(), first)
    } else {
        replies_of(tagged.drop_first(), first)
    }
}

/// Two walks side by side: each reply of `tagged` goes to the walk that
/// its tag names, in the order in which the replies come.
pub open spec fn feed_both(
    first: WalkStepView,
    second: WalkStepView,
    tagged: Seq<(bool, CursorReplyView)>,
) -> (WalkStepView, WalkStepView)
    decreases tagged.len(),
{
    if tagged.len() == 0 {
        (first, second)
    } else if tagged[0].0 {
        feed_both(feed(first, seq![tagged[0].1]), second, tagged.drop_first())
    } else {
        feed_both(first, feed(second, seq![tagged[0].1]), tagged.drop_first())
    }
}

proof fn feed_one_then_rest(step: WalkStepView, reply: CursorReplyView, rest: Seq<CursorReplyView>)
    ensures
        feed(step, seq![reply] + rest) == feed(feed(step, seq![reply]), rest),
{
    let all = seq![reply] + rest;
    assert(all.drop_first() =~= rest);
    assert(seq![reply].drop_first() =~= Seq::<CursorReplyView>::empty());
    match step {
        WalkStepView::Delivered(outcome) => {
            delivered_walk_stays(outcome, rest);
        },
        WalkStepView::Continue { walk, call } => {
            assert(feed(step, seq![reply]) == feed(
                reply_view(walk, reply),
                Seq::<CursorReplyView>::empty(),
            ));
        },
    }
}

/// Two invocations of the bridge never see each other, however their
/// callbacks interleave: each delivers what it would deliver if it ran
/// alone on its own replies. This holds for two queries of one reference
/// as for any other two.
pub proof fn interleaved_walks_are_independent(
    first: WalkStepView,
    second: WalkStepView,
    tagged: Seq<(bool, CursorReplyView)>,
)
    ensures
        feed_both(first, second, tagged) == (
            feed(first, replies_of(tagged, true)),
            feed(second, replies_of(tagged, false)),
        ),
    decreases tagged.len(),
{
    if tagged.len() > 0 {
        let rest = tagged.drop_first();
        let reply = tagged[0].1;
        if tagged[0].0 {
            let moved = feed(first, seq![reply]);
            interleaved_walks_are_independent(moved, second, rest);
            feed_one_then_rest(first, reply, replies_of(rest, true));
        } else {
            let moved = feed(second, seq![reply]);
            interleaved_walks_are_independent(first, moved, rest);
            feed_one_then_rest(second, reply, replies_of(rest, false));
        }
    }
}

} // verus!
