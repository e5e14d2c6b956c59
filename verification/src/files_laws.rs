//! What holds of every run of a pick.

use crate::error::PickError;
use crate::extract::{thumbnail_query, AnswerView, QueryView};
use crate::files::{
    actions, any_type, event_view, feed, pick_outcome, start_view, FileInfoView, PickActionView,
    PickEventView, PickFlowView, PickStepView,
};
use crate::reference::{is_token, GrantOutcome};
use vstd::prelude::*;

verus! {

/// The reference that a query is about.
pub open spec fn query_reference(query: QueryView) -> Seq<char> {
    match query {
        QueryView::MimeType(reference) => reference,
        QueryView::Name(reference) => reference,
        QueryView::Thumbnail { reference, .. } => reference,
    }
}

/// A pick that has ended stays ended.
pub proof fn finished_pick_stays(
    result: Result<FileInfoView, PickError>,
    events: Seq<PickEventView>,
)
    ensures
        feed(PickStepView::Finished(result), events) == PickStepView::Finished(result),
        actions(PickStepView::Finished(result), events) == Seq::<PickActionView>::empty(),
{
}

proof fn unfold(flow: PickFlowView, action: PickActionView, events: Seq<PickEventView>)
    requires
        events.len() > 0,
    ensures
        feed(PickStepView::Continue { flow, action }, events) == feed(
            event_view(flow, events[0]),
            events.drop_first(),
        ),
        actions(PickStepView::Continue { flow, action }, events) == seq![action] + actions(
            event_view(flow, events[0]),
            events.drop_first(),
        ),
        events.drop_first().len() == events.len() - 1,
        forall|i: int| 0 <= i < events.len() - 1 ==> events.drop_first()[i] == events[i + 1],
{
}

/// The five outcomes of the platform decide the pick as [`pick_outcome`]
/// says; what comes after them is not used.
pub proof fn pick_of_five_events(
    chooser: PickEventView,
    grant: PickEventView,
    mime_type: AnswerView,
    display_name: AnswerView,
    thumbnail: AnswerView,
    rest: Seq<PickEventView>,
)
    ensures
        feed(
            start_view(),
            seq![
                chooser,
                grant,
                PickEventView::Answer(mime_type),
                PickEventView::Answer(display_name),
                PickEventView::Answer(thumbnail),
            ] + rest,
        ) == PickStepView::Finished(
            pick_outcome(chooser, grant, mime_type, display_name, thumbnail),
        ),
{
    let e0 = seq![
        chooser,
        grant,
        PickEventView::Answer(mime_type),
        PickEventView::Answer(display_name),
        PickEventView::Answer(thumbnail),
    ] + rest;
    let e1 = e0.drop_first();
    let e2 = e1.drop_first();
    let e3 = e2.drop_first();
    let e4 = e3.drop_first();
    let e5 = e4.drop_first();
    assert(e5 =~= rest);
    let s0 = start_view();
    unfold(s0->flow, s0->action, e0);
    let s1 = event_view(s0->flow, e0[0]);
    match s1 {
        PickStepView::Finished(result) => {
            finished_pick_stays(result, e1);
        },
        PickStepView::Continue { flow, action } => {
            unfold(flow, action, e1);
            let s2 = event_view(flow, e1[0]);
            match s2 {
                PickStepView::Finished(result) => {
                    finished_pick_stays(result, e2);
                },
                PickStepView::Continue { flow, action } => {
                    unfold(flow, action, e2);
                    let s3 = event_view(flow, e2[0]);
                    match s3 {
                        PickStepView::Finished(result) => {
                            finished_pick_stays(result, e3);
                        },
                        PickStepView::Continue { flow, action } => {
                            unfold(flow, action, e3);
                            let s4 = event_view(flow, e3[0]);
                            match s4 {
                                PickStepView::Finished(result) => {
                                    finished_pick_stays(result, e4);
                                },
                                PickStepView::Continue { flow, action } => {
                                    unfold(flow, action, e4);
                                    let s5 = event_view(flow, e4[0]);
                                    finished_pick_stays(s5->Finished_0, e5);
                                },
                            }
                        },
                    }
                },
            }
        },
    }
}

/// No metadata query is ever made of a reference before its grant is
/// durable. Whatever the events are, a query among the calls of a pick
/// stands behind the chooser and the permission request, the request was
/// for the reference that the user chose and was granted, and the query is
/// about that same reference.
pub proof fn queries_follow_the_grant(events: Seq<PickEventView>, at: int)
    requires
        0 <= at < actions(start_view(), events).len(),
        actions(start_view(), events)[at] is Ask,
    ensures
        at >= 2,
        events.len() >= 2,
        events[0] is Picked,
        events[1] == PickEventView::Grant(GrantOutcome::Granted),
        actions(start_view(), events)[1] == PickActionView::TakePermission(
            events[0]->reference,
        ),
        query_reference(actions(start_view(), events)[at]->Ask_0) == events[0]->reference,
{
    let s0 = start_view();
    let a0 = actions(s0, events);
    if events.len() == 0 {
        assert(a0 =~= seq![s0->action]);
    } else {
        unfold(s0->flow, s0->action, events);
        let e1 = events.drop_first();
        let s1 = event_view(s0->flow, events[0]);
        let a1 = actions(s1, e1);
        assert(a0 == seq![s0->action] + a1);
        match s1 {
            PickStepView::Finished(result) => {
                finished_pick_stays(result, e1);
            },
            PickStepView::Continue { flow, action } => {
                let reference = events[0]->reference;
                if e1.len() == 0 {
                    assert(a1 =~= seq![action]);
                } else {
                    unfold(flow, action, e1);
                    let e2 = e1.drop_first();
                    let s2 = event_view(flow, e1[0]);
                    let a2 = actions(s2, e2);
                    assert(a1 == seq![action] + a2);
                    match s2 {
                        PickStepView::Finished(result) => {
                            finished_pick_stays(result, e2);
                        },
                        PickStepView::Continue { flow, action } => {
                            asks_about(flow, action, e2, at - 2);
                        },
                    }
                }
            },
        }
    }
}

proof fn asks_about(
    flow: PickFlowView,
    action: PickActionView,
    events: Seq<PickEventView>,
    at: int,
)
    requires
        flow is Extracting,
        action is Ask,
        query_reference(action->Ask_0) == flow->extraction.reference(),
        0 <= at < actions(PickStepView::Continue { flow, action }, events).len(),
    ensures
        ({
            let made = actions(PickStepView::Continue { flow, action }, events)[at];
            made is Ask && query_reference(made->Ask_0) == flow->extraction.reference()
        }),
    decreases events.len(),
{
    let step = PickStepView::Continue { flow, action };
    if events.len() == 0 {
        assert(actions(step, events) =~= seq![action]);
    } else {
        unfold(flow, action, events);
        let next = event_view(flow, events[0]);
        let rest = events.drop_first();
        match next {
            PickStepView::Finished(result) => {
                finished_pick_stays(result, rest);
            },
            PickStepView::Continue { flow: next_flow, action: next_action } => {
                if at > 0 {
                    asks_about(next_flow, next_action, rest, at - 1);
                }
            },
        }
    }
}

/// A file info is never had without the grant. If a run of events ends in
/// one, then the user chose the reference it carries, the platform granted
/// the durable permission for it before any query, the type and the name
/// are the texts that the platform answered, and the serialized reference
/// is not empty.
pub proof fn file_info_needs_grant(events: Seq<PickEventView>, info: FileInfoView)
    requires
        feed(start_view(), events) == PickStepView::Finished(Ok(info)),
        events.len() > 0 && events[0] is Picked ==> is_token(events[0]->reference),
    ensures
        events.len() >= 5,
        events[0] == (PickEventView::Picked { reference: info.uri, display_path: info.path }),
        events[1] == PickEventView::Grant(GrantOutcome::Granted),
        events[2] == PickEventView::Answer(AnswerView::Text(info.file_type)),
        events[3] == PickEventView::Answer(AnswerView::Text(info.name)),
        events[4] is Answer,
        is_token(info.uri),
        actions(start_view(), events) == seq![
            PickActionView::LaunchPicker {
                initial_location: None,
                accepted_types: seq![any_type()],
            },
            PickActionView::TakePermission(info.uri),
            PickActionView::Ask(QueryView::MimeType(info.uri)),
            PickActionView::Ask(QueryView::Name(info.uri)),
            PickActionView::Ask(thumbnail_query(info.uri)),
        ],
{
    let e0 = events;
    let s0 = start_view();
    assert(e0.len() > 0);
    unfold(s0->flow, s0->action, e0);
    let e1 = e0.drop_first();
    let s1 = event_view(s0->flow, e0[0]);
    if s1 is Finished {
        finished_pick_stays(s1->Finished_0, e1);
    }
    assert(s1 is Continue);
    assert(e1.len() > 0);
    unfold(s1->flow, s1->action, e1);
    let e2 = e1.drop_first();
    let s2 = event_view(s1->flow, e1[0]);
    if s2 is Finished {
        finished_pick_stays(s2->Finished_0, e2);
    }
    assert(s2 is Continue);
    assert(e2.len() > 0);
    unfold(s2->flow, s2->action, e2);
    let e3 = e2.drop_first();
    let s3 = event_view(s2->flow, e2[0]);
    if s3 is Finished {
        finished_pick_stays(s3->Finished_0, e3);
    }
    assert(s3 is Continue);
    assert(e3.len() > 0);
    unfold(s3->flow, s3->action, e3);
    let e4 = e3.drop_first();
    let s4 = event_view(s3->flow, e3[0]);
    if s4 is Finished {
        finished_pick_stays(s4->Finished_0, e4);
    }
    assert(s4 is Continue);
    assert(e4.len() > 0);
    unfold(s4->flow, s4->action, e4);
    let e5 = e4.drop_first();
    let s5 = event_view(s4->flow, e4[0]);
    assert(s5 is Finished);
    finished_pick_stays(s5->Finished_0, e5);
    assert(e1[0] == events[1]);
    assert(e2[0] == events[2]);
    assert(e3[0] == events[3]);
    assert(e4[0] == events[4]);
    assert(actions(s5, e5) =~= Seq::<PickActionView>::empty());
    assert(actions(start_view(), events) =~= seq![
        s0->action,
        s1->action,
        s2->action,
        s3->action,
        s4->action,
    ]);
}

/// A pick ends after five events at the latest, whatever they are.
pub proof fn pick_ends_within_five_events(events: Seq<PickEventView>)
    requires
        events.len() >= 5,
    ensures
        feed(start_view(), events) is Finished,
{
    let e0 = events;
    let s0 = start_view();
    unfold(s0->flow, s0->action, e0);
    let e1 = e0.drop_first();
    let s1 = event_view(s0->flow, e0[0]);
    if s1 is Finished {
        finished_pick_stays(s1->Finished_0, e1);
    } else {
        unfold(s1->flow, s1->action, e1);
        let e2 = e1.drop_first();
        let s2 = event_view(s1->flow, e1[0]);
        if s2 is Finished {
            finished_pick_stays(s2->Finished_0, e2);
        } else {
            unfold(s2->flow, s2->action, e2);
            let e3 = e2.drop_first();
            let s3 = event_view(s2->flow, e2[0]);
            if s3 is Finished {
                finished_pick_stays(s3->Finished_0, e3);
            } else {
                unfold(s3->flow, s3->action, e3);
                let e4 = e3.drop_first();
                let s4 = event_view(s3->flow, e3[0]);
                if s4 is Finished {
                    finished_pick_stays(s4->Finished_0, e4);
                } else {
                    unfold(s4->flow, s4->action, e4);
                    let e5 = e4.drop_first();
                    let s5 = event_view(s4->flow, e4[0]);
                    finished_pick_stays(s5->Finished_0, e5);
                }
            }
        }
    }
}

} // verus!
