//! Picking a file with its metadata: the chooser, then the durable grant,
//! then the three metadata queries, in this order and no other.

use crate::error::{ExtractError, PickError};
use crate::extract::{
    answer_view, begin_view, extract_outcome, Answer, AnswerView, ExtractStep, ExtractStepView,
    Extraction, ExtractionView, Query, QueryView,
};
use crate::reference::{authorize, is_token, ContentReference, GrantOutcome};
use vstd::prelude::*;
use vstd::string::*;

verus! {

/// What a successful pick hands to the user interface.
#[derive(Debug)]
pub struct FileInfo {
    path: String,
    uri: String,
    file_type: String,
    name: String,
}

/// A [`FileInfo`] as contracts see it.
pub ghost struct FileInfoView {
    /// The document's location in a form fit for display.
    pub path: Seq<char>,
    /// The serialized content reference.
    pub uri: Seq<char>,
    /// The MIME type.
    pub file_type: Seq<char>,
    /// The display name.
    pub name: Seq<char>,
}

impl View for FileInfo {
    type V = FileInfoView;

    closed spec fn view(&self) -> FileInfoView {
        FileInfoView {
            path: self.path@,
            uri: self.uri@,
            file_type: self.file_type@,
            name: self.name@,
        }
    }
}

impl FileInfo {
    /// The serialized reference of a file info is a token: never empty.
    #[verifier::type_invariant]
    pub open spec fn well_formed(self) -> bool {
        is_token(self@.uri)
    }
}

/// The pattern that accepts a document of any type.
pub open spec fn any_type() -> Seq<char> {
    "*/*"@
}

/// The views of a list of texts.
pub open spec fn texts(list: Seq<String>) -> Seq<Seq<char>> {
    Seq::new(list.len(), |i: int| list[i]@)
}

/// One platform call of the pick flow.
#[derive(Debug)]
pub enum PickAction {
    /// Show the chooser, starting at `initial_location` if there is one,
    /// for documents whose type matches one of `accepted_types`.
    LaunchPicker { initial_location: Option<ContentReference>, accepted_types: Vec<String> },
    /// Make the grant for this reference durable.
    TakePermission(ContentReference),
    /// Ask the metadata service.
    Ask(Query),
}

/// A [`PickAction`] as contracts see it.
pub ghost enum PickActionView {
    LaunchPicker { initial_location: Option<Seq<char>>, accepted_types: Seq<Seq<char>> },
    TakePermission(Seq<char>),
    Ask(QueryView),
}

impl View for PickAction {
    type V = PickActionView;

    open spec fn view(&self) -> PickActionView {
        match *self {
            PickAction::LaunchPicker { initial_location, accepted_types } => {
                PickActionView::LaunchPicker {
                    initial_location: match initial_location {
                        Some(reference) => Some(reference@),
                        None => None,
                    },
                    accepted_types: texts(accepted_types@),
                }
            },
            PickAction::TakePermission(reference) => PickActionView::TakePermission(reference@),
            PickAction::Ask(query) => PickActionView::Ask(query@),
        }
    }
}

/// What a platform call of the pick flow came back with.
#[derive(Debug)]
pub enum PickEvent {
    /// The user chose a document.
    Picked { reference: ContentReference, display_path: String },
    /// The user closed the chooser without choosing.
    Cancelled,
    /// The chooser could not be reached.
    Unavailable,
    /// The platform's answer to the permission request.
    Grant(GrantOutcome),
    /// The platform's answer to a metadata query.
    Answer(Answer),
}

/// A [`PickEvent`] as contracts see it.
pub ghost enum PickEventView {
    Picked { reference: Seq<char>, display_path: Seq<char> },
    Cancelled,
    Unavailable,
    Grant(GrantOutcome),
    Answer(AnswerView),
}

impl View for PickEvent {
    type V = PickEventView;

    open spec fn view(&self) -> PickEventView {
        match *self {
            PickEvent::Picked { reference, display_path } => PickEventView::Picked {
                reference: reference@,
                display_path: display_path@,
            },
            PickEvent::Cancelled => PickEventView::Cancelled,
            PickEvent::Unavailable => PickEventView::Unavailable,
            PickEvent::Grant(outcome) => PickEventView::Grant(outcome),
            PickEvent::Answer(answer) => PickEventView::Answer(answer@),
        }
    }
}

/// Where a pick stands.
pub ghost enum PickFlowView {
    /// The chooser is open.
    Choosing,
    /// A document was chosen; the permission request is out.
    Authorizing { reference: Seq<char>, display_path: Seq<char> },
    /// The grant is durable; a metadata query is out.
    Extracting { display_path: Seq<char>, extraction: ExtractionView },
}

/// What one move of a pick gives: the next platform call, or the end.
pub ghost enum PickStepView {
    Continue { flow: PickFlowView, action: PickActionView },
    Finished(Result<FileInfoView, PickError>),
}

/// The view of a pick's result.
pub open spec fn result_view(result: Result<FileInfo, PickError>) -> Result<
    FileInfoView,
    PickError,
> {
    match result {
        Ok(info) => Ok(info@),
        Err(kind) => Err(kind),
    }
}

/// How a pick starts: with the chooser, at no particular location, for
/// documents of any type.
pub open spec fn start_view() -> PickStepView {
    PickStepView::Continue {
        flow: PickFlowView::Choosing,
        action: PickActionView::LaunchPicker {
            initial_location: None,
            accepted_types: seq![any_type()],
        },
    }
}

/// What the chooser gave: the reference that the user chose with its
/// display path, nothing where the user cancelled, which is no failure, or
/// `PlatformUnavailable` where the chooser could not be reached or came
/// back with anything else.
pub open spec fn chosen_view(event: PickEventView) -> Result<
    Option<(Seq<char>, Seq<char>)>,
    PickError,
> {
    match event {
        PickEventView::Picked { reference, display_path } => Ok(Some((reference, display_path))),
        PickEventView::Cancelled => Ok(None),
        _ => Err(PickError::PlatformUnavailable),
    }
}

/// Carries one move of the extractor over into the pick that runs it.
pub open spec fn extracting_view(
    display_path: Seq<char>,
    uri: Seq<char>,
    step: ExtractStepView,
) -> PickStepView {
    match step {
        ExtractStepView::Continue { extraction, query } => PickStepView::Continue {
            flow: PickFlowView::Extracting { display_path, extraction },
            action: PickActionView::Ask(query),
        },
        ExtractStepView::Finished(Ok(metadata)) => PickStepView::Finished(
            Ok(
                FileInfoView {
                    path: display_path,
                    uri,
                    file_type: metadata.mime_type,
                    name: metadata.display_name,
                },
            ),
        ),
        ExtractStepView::Finished(Err(kind)) => PickStepView::Finished(
            Err(PickError::Extraction(kind)),
        ),
    }
}

/// How a pick moves on an event. Each stage awaits one kind of event; on
/// any other the pick ends with that stage's failure. The permission
/// request follows the choice and comes before every query, and only a
/// grant lets the queries start.
pub open spec fn event_view(flow: PickFlowView, event: PickEventView) -> PickStepView {
    match flow {
        PickFlowView::Choosing => match chosen_view(event) {
            Ok(Some((reference, display_path))) => PickStepView::Continue {
                flow: PickFlowView::Authorizing { reference, display_path },
                action: PickActionView::TakePermission(reference),
            },
            Ok(None) => PickStepView::Finished(Err(PickError::NoSelection)),
            Err(kind) => PickStepView::Finished(Err(kind)),
        },
        PickFlowView::Authorizing { reference, display_path } => {
            if event == PickEventView::Grant(GrantOutcome::Granted) {
                extracting_view(display_path, reference, begin_view(reference, Some(reference)))
            } else {
                PickStepView::Finished(Err(PickError::PermissionDenied))
            }
        },
        PickFlowView::Extracting { display_path, extraction } => match event {
            PickEventView::Answer(answer) => extracting_view(
                display_path,
                extraction.reference(),
                answer_view(extraction, answer),
            ),
            _ => PickStepView::Finished(Err(PickError::Extraction(ExtractError::Unreadable))),
        },
    }
}

/// Feeds a run of events to a pick, one per platform call. Events that come
/// after the end are not looked at.
pub open spec fn feed(step: PickStepView, events: Seq<PickEventView>) -> PickStepView
    decreases events.len(),
{
    if events.len() == 0 {
        step
    } else {
        match step {
            PickStepView::Finished(_) => step,
            PickStepView::Continue { flow, action } => feed(
                event_view(flow, events[0]),
                events.drop_first(),
            ),
        }
    }
}

/// The platform calls that a pick asks for along a run of events, in order,
/// the one that is still out included.
pub open spec fn actions(step: PickStepView, events: Seq<PickEventView>) -> Seq<PickActionView>
    decreases events.len(),
{
    match step {
        PickStepView::Finished(_) => Seq::empty(),
        PickStepView::Continue { flow, action } => if events.len() == 0 {
            seq![action]
        } else {
            seq![action] + actions(event_view(flow, events[0]), events.drop_first())
        },
    }
}

/// What a pick comes to, given the chooser's outcome, the platform's answer
/// to the permission request and its answers to the three queries: the
/// chooser's failure, else `PermissionDenied` unless the grant was given,
/// else the extractor's failure, else the file info made of the chosen
/// reference, its display path, and the type and name that were read.
pub open spec fn pick_outcome(
    chooser: PickEventView,
    grant: PickEventView,
    mime_type: AnswerView,
    display_name: AnswerView,
    thumbnail: AnswerView,
) -> Result<FileInfoView, PickError> {
    match chooser {
        PickEventView::Picked { reference, display_path } => {
            if grant == PickEventView::Grant(GrantOutcome::Granted) {
                match extract_outcome(mime_type, display_name, thumbnail) {
                    Ok(metadata) => Ok(
                        FileInfoView {
                            path: display_path,
                            uri: reference,
                            file_type: metadata.mime_type,
                            name: metadata.display_name,
                        },
                    ),
                    Err(kind) => Err(PickError::Extraction(kind)),
                }
            } else {
                Err(PickError::PermissionDenied)
            }
        },
        PickEventView::Cancelled => Err(PickError::NoSelection),
        _ => Err(PickError::PlatformUnavailable),
    }
}

/// How many platform calls a pick can still ask for, the one that is out
/// included. Every event brings it down.
pub open spec fn calls_left(flow: PickFlowView) -> nat {
    match flow {
        PickFlowView::Choosing => 5,
        PickFlowView::Authorizing { .. } => 4,
        PickFlowView::Extracting { extraction, .. } => match extraction {
            ExtractionView::AwaitingMimeType { .. } => 3,
            ExtractionView::AwaitingName { .. } => 2,
            ExtractionView::AwaitingThumbnail { .. } => 1,
        },
    }
}

/// The views of a run of events.
pub open spec fn event_views(events: Seq<PickEvent>) -> Seq<PickEventView> {
    Seq::new(events.len(), |i: int| events[i]@)
}

/// True when `platform` may have come back with `event` from a call that
/// looks like `action`.
pub open spec fn came_back<F: Fn(PickAction) -> PickEvent>(
    platform: F,
    action: PickActionView,
    event: PickEvent,
) -> bool {
    exists|made: PickAction| made@ == action && call_ensures(platform, (made,), event)
}

/// True when `result` is what a pick comes to on `events`, and `events`
/// are what `platform` came back with, call by call, from the calls that
/// the pick asked for.
pub open spec fn picked_by<F: Fn(PickAction) -> PickEvent>(
    platform: F,
    events: Seq<PickEvent>,
    result: Result<FileInfoView, PickError>,
) -> bool {
    &&& 1 <= events.len() <= 5
    &&& feed(start_view(), event_views(events)) == PickStepView::Finished(result)
    &&& actions(start_view(), event_views(events)).len() == events.len()
    &&& forall|i: int|
        0 <= i < events.len() ==> came_back(
            platform,
            #[trigger] actions(start_view(), event_views(events))[i],
            events[i],
        )
}

proof fn feed_one_more(start: PickStepView, events: Seq<PickEventView>, event: PickEventView)
    requires
        feed(start, events) is Continue,
    ensures
        feed(start, events.push(event)) == event_view(feed(start, events)->flow, event),
        actions(start, events).len() == events.len() + 1,
        actions(start, events).last() == feed(start, events)->action,
        actions(start, events.push(event)) == actions(start, events) + actions(
            feed(start, events.push(event)),
            Seq::empty(),
        ),
    decreases events.len(),
{
    reveal_with_fuel(feed, 3);
    reveal_with_fuel(actions, 3);
    let longer = events.push(event);
    if events.len() == 0 {
        assert(longer.drop_first() =~= Seq::<PickEventView>::empty());
        assert(longer[0] == event);
        assert(actions(start, longer) =~= actions(start, events) + actions(
            feed(start, longer),
            Seq::empty(),
        ));
    } else {
        assert(longer.drop_first() =~= events.drop_first().push(event));
        assert(longer[0] == events[0]);
        let next = event_view(start->flow, events[0]);
        feed_one_more(next, events.drop_first(), event);
        assert(actions(start, longer) =~= actions(start, events) + actions(
            feed(start, longer),
            Seq::empty(),
        ));
    }
}

#[derive(Debug)]
enum FlowState {
    Choosing,
    Authorizing { reference: ContentReference, display_path: String },
    Extracting { display_path: String, extraction: Extraction },
}

/// A running pick. It exists only between [`PickFlow::start`] and the step
/// that finishes it.
#[derive(Debug)]
pub struct PickFlow {
    state: FlowState,
}

impl View for PickFlow {
    type V = PickFlowView;

    closed spec fn view(&self) -> PickFlowView {
        match self.state {
            FlowState::Choosing => PickFlowView::Choosing,
            FlowState::Authorizing { reference, display_path } => PickFlowView::Authorizing {
                reference: reference@,
                display_path: display_path@,
            },
            FlowState::Extracting { display_path, extraction } => PickFlowView::Extracting {
                display_path: display_path@,
                extraction: extraction@,
            },
        }
    }
}

/// What one move of a pick gives.
#[derive(Debug)]
pub enum PickStep {
    /// Make the platform call `action` and hand its outcome to `flow`.
    Continue { flow: PickFlow, action: PickAction },
    /// The pick is over.
    Finished(Result<FileInfo, PickError>),
}

impl View for PickStep {
    type V = PickStepView;

    open spec fn view(&self) -> PickStepView {
        match *self {
            PickStep::Continue { flow, action } => PickStepView::Continue {
                flow: flow@,
                action: action@,
            },
            PickStep::Finished(result) => PickStepView::Finished(result_view(result)),
        }
    }
}

/// Reads the chooser's outcome: the chosen reference with its display
/// path, `None` for a cancellation, or `PlatformUnavailable`.
pub fn chosen(event: PickEvent) -> (choice: Result<Option<(ContentReference, String)>, PickError>)
    ensures
        match choice {
            Ok(Some((reference, display_path))) => chosen_view(event@) == Ok::<
                Option<(Seq<char>, Seq<char>)>,
                PickError,
            >(Some((reference@, display_path@))),
            Ok(None) => chosen_view(event@) == Ok::<Option<(Seq<char>, Seq<char>)>, PickError>(
                None,
            ),
            Err(kind) => chosen_view(event@) == Err::<Option<(Seq<char>, Seq<char>)>, PickError>(
                kind,
            ),
        },
{
    match event {
        PickEvent::Picked { reference, display_path } => Ok(Some((reference, display_path))),
        PickEvent::Cancelled => Ok(None),
        _ => Err(PickError::PlatformUnavailable),
    }
}

fn extracting(display_path: String, reference: ContentReference, step: ExtractStep) -> (next:
    PickStep)
    ensures
        next@ == extracting_view(display_path@, reference@, step@),
{
    match step {
        ExtractStep::Continue { extraction, query } => PickStep::Continue {
            flow: PickFlow { state: FlowState::Extracting { display_path, extraction } },
            action: PickAction::Ask(query),
        },
        ExtractStep::Finished(Ok(metadata)) => PickStep::Finished(
            Ok(
                FileInfo {
                    path: display_path,
                    uri: reference.to_token(),
                    file_type: metadata.mime_type,
                    name: metadata.display_name,
                },
            ),
        ),
        ExtractStep::Finished(Err(kind)) => PickStep::Finished(Err(PickError::Extraction(kind))),
    }
}

impl PickFlow {
    /// Starts a pick: the first platform call is the chooser.
    pub fn start() -> (step: PickStep)
        ensures
            step@ == start_view(),
    {
        let mut accepted_types: Vec<String> = Vec::new();
        accepted_types.push(String::from_str("*/*"));
        proof {
            assert(texts(accepted_types@) =~= seq![any_type()]);
        }
        PickStep::Continue {
            flow: PickFlow { state: FlowState::Choosing },
            action: PickAction::LaunchPicker { initial_location: None, accepted_types },
        }
    }

    /// Takes the outcome of the platform call that is out, and says what
    /// comes next.
    pub fn step(self, event: PickEvent) -> (step: PickStep)
        ensures
            step@ == event_view(self@, event@),
    {
        match self.state {
            FlowState::Choosing => match chosen(event) {
                Ok(Some((reference, display_path))) => {
                    let action = PickAction::TakePermission(reference.clone());
                    let state = FlowState::Authorizing { reference, display_path };
                    PickStep::Continue { flow: PickFlow { state }, action }
                },
                Ok(None) => PickStep::Finished(Err(PickError::NoSelection)),
                Err(kind) => PickStep::Finished(Err(kind)),
            },
            FlowState::Authorizing { reference, display_path } => {
                let outcome = match event {
                    PickEvent::Grant(outcome) => outcome,
                    _ => GrantOutcome::Denied,
                };
                match authorize(&reference, outcome) {
                    Ok(authorization) => {
                        let begun = Extraction::begin(&reference, Some(&authorization));
                        extracting(display_path, reference, begun)
                    },
                    Err(kind) => PickStep::Finished(Err(kind)),
                }
            },
            FlowState::Extracting { display_path, extraction } => match event {
                PickEvent::Answer(answer) => {
                    let reference = extraction.reference();
                    let moved = extraction.answer(answer);
                    extracting(display_path, reference, moved)
                },
                _ => PickStep::Finished(Err(PickError::Extraction(ExtractError::Unreadable))),
            },
        }
    }
}

/// Picks a file with its metadata. The platform calls are made through
/// `platform`, one after the other as the pick asks for them: the chooser,
/// the permission request for what was chosen, then the three queries.
/// Any failure ends the pick at once, and no file info is made of a
/// reference whose grant was not given.
pub fn pick_file_with_metdata<F: Fn(PickAction) -> PickEvent>(platform: F) -> (result: Result<
    FileInfo,
    PickError,
>)
    requires
        forall|action: PickAction| call_requires(platform, (action,)),
    ensures
        exists|events: Seq<PickEvent>| picked_by(platform, events, result_view(result)),
{
    let ghost start = start_view();
    let ghost mut events: Seq<PickEvent> = Seq::empty();
    let mut step = PickFlow::start();
    proof {
        assert(event_views(events) =~= Seq::<PickEventView>::empty());
    }
    loop
        invariant
            step@ == feed(start, event_views(events)),
            start == start_view(),
            forall|action: PickAction| call_requires(platform, (action,)),
            step@ matches PickStepView::Continue { flow, .. } ==> events.len() + calls_left(flow)
                <= 5,
            events.len() <= 5,
            step@ is Finished ==> events.len() >= 1,
            actions(start, event_views(events)).len() == events.len() + (if step@ is Continue {
                1int
            } else {
                0int
            }),
            forall|i: int|
                0 <= i < events.len() ==> came_back(
                    platform,
                    #[trigger] actions(start, event_views(events))[i],
                    events[i],
                ),
        decreases
                match step@ {
                    PickStepView::Continue { flow, .. } => calls_left(flow),
                    PickStepView::Finished(_) => 0,
                },
    {
        match step {
            PickStep::Finished(result) => {
                proof {
                    assert(picked_by(platform, events, result_view(result)));
                }
                return result;
            },
            PickStep::Continue { flow, action } => {
                let ghost made = action;
                let ghost before = event_views(events);
                let event = platform(action);
                proof {
                    feed_one_more(start, before, event@);
                    assert(event_views(events.push(event)) =~= before.push(event@));
                    assert(came_back(platform, made@, event));
                    events = events.push(event);
                }
                step = flow.step(event);
                proof {
                    let made_before = actions(start, before);
                    let made_after = actions(start, event_views(events));
                    assert(made_after == made_before + actions(step@, Seq::empty()));
                    assert forall|i: int| 0 <= i < events.len() implies came_back(
                        platform,
                        #[trigger] made_after[i],
                        events[i],
                    ) by {
                        assert(made_after[i] == made_before[i]);
                        if i < events.len() - 1 {
                            assert(events[i] == events.drop_last()[i]);
                        }
                    }
                }
            },
        }
    }
}

impl FileInfo {
    /// The document's location in a form fit for display.
    pub fn path(&self) -> (path: &String)
        ensures
            path@ == self@.path,
    {
        &self.path
    }

    /// The serialized content reference, as the platform issued it.
    pub fn uri(&self) -> (uri: &String)
        ensures
            uri@ == self@.uri,
            is_token(uri@),
    {
        proof {
            use_type_invariant(self);
        }
        &self.uri
    }

    /// The MIME type.
    pub fn file_type(&self) -> (file_type: &String)
        ensures
            file_type@ == self@.file_type,
    {
        &self.file_type
    }

    /// The display name.
    pub fn name(&self) -> (name: &String)
        ensures
            name@ == self@.name,
    {
        &self.name
    }
}

} // verus!
