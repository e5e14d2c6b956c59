//! The metadata extractor: which platform query comes next for an authorized
//! reference, and what the three answers add up to.

use crate::error::ExtractError;
use crate::reference::{Authorization, ContentReference};
use vstd::prelude::*;

verus! {

/// Width and height, in pixels, that a thumbnail is rendered within.
pub const THUMBNAIL_EDGE: u32 = 200;

/// Encodings a thumbnail can be asked in.
#[derive(Clone, Copy, Debug, PartialEq, Eq, Structural)]
pub enum ImageFormat {
    Jpeg,
    Png,
}

/// One request to the platform's metadata service.
#[derive(Debug)]
pub enum Query {
    /// The MIME type of the document.
    MimeType(ContentReference),
    /// The display name of the document.
    Name(ContentReference),
    /// A rendering of the document that fits `width` by `height`.
    Thumbnail { reference: ContentReference, width: u32, height: u32, format: ImageFormat },
}

/// A [`Query`] as contracts see it.
pub ghost enum QueryView {
    MimeType(Seq<char>),
    Name(Seq<char>),
    Thumbnail { reference: Seq<char>, width: u32, height: u32, format: ImageFormat },
}

impl View for Query {
    type V = QueryView;

    open spec fn view(&self) -> QueryView {
        match *self {
            Query::MimeType(reference) => QueryView::MimeType(reference@),
            Query::Name(reference) => QueryView::Name(reference@),
            Query::Thumbnail { reference, width, height, format } => QueryView::Thumbnail {
                reference: reference@,
                width,
                height,
                format,
            },
        }
    }
}

/// What the platform gave back for one [`Query`].
#[derive(Debug)]
pub enum Answer {
    /// A text value.
    Text(String),
    /// Encoded image bytes.
    Image(Vec<u8>),
    /// The reference names no document.
    InvalidReference,
    /// The query failed for this value alone.
    Failed,
}

/// An [`Answer`] as contracts see it.
pub ghost enum AnswerView {
    Text(Seq<char>),
    Image(Seq<u8>),
    InvalidReference,
    Failed,
}

impl View for Answer {
    type V = AnswerView;

    open spec fn view(&self) -> AnswerView {
        match *self {
            Answer::Text(text) => AnswerView::Text(text@),
            Answer::Image(bytes) => AnswerView::Image(bytes@),
            Answer::InvalidReference => AnswerView::InvalidReference,
            Answer::Failed => AnswerView::Failed,
        }
    }
}

impl AnswerView {
    /// The text of this answer, if it is one. Where a text is due, any
    /// other answer stands for a query that failed.
    pub open spec fn text(self) -> Option<Seq<char>> {
        match self {
            AnswerView::Text(text) => Some(text),
            _ => None,
        }
    }

    /// The image of this answer, if it is one. Where an image is due, any
    /// other answer stands for a rendering that failed.
    pub open spec fn image(self) -> Option<Seq<u8>> {
        match self {
            AnswerView::Image(bytes) => Some(bytes),
            _ => None,
        }
    }
}

/// What is known of a document once extraction succeeded.
#[derive(Debug)]
pub struct Metadata {
    pub mime_type: String,
    pub display_name: String,
    /// Absent where the platform could not render one.
    pub thumbnail: Option<Vec<u8>>,
}

/// A [`Metadata`] as contracts see it.
pub ghost struct MetadataView {
    pub mime_type: Seq<char>,
    pub display_name: Seq<char>,
    pub thumbnail: Option<Seq<u8>>,
}

impl View for Metadata {
    type V = MetadataView;

    open spec fn view(&self) -> MetadataView {
        MetadataView {
            mime_type: self.mime_type@,
            display_name: self.display_name@,
            thumbnail: match self.thumbnail {
                Some(bytes) => Some(bytes@),
                None => None,
            },
        }
    }
}

/// The view of an optional text.
pub open spec fn text_view(text: Option<String>) -> Option<Seq<char>> {
    match text {
        Some(t) => Some(t@),
        None => None,
    }
}

/// The view of an optional grant: the token it covers.
pub open spec fn grant_view(authorization: Option<&Authorization>) -> Option<Seq<char>> {
    match authorization {
        Some(a) => Some(a@),
        None => None,
    }
}

/// The view of an extraction's result.
pub open spec fn outcome_view(outcome: Result<Metadata, ExtractError>) -> Result<
    MetadataView,
    ExtractError,
> {
    match outcome {
        Ok(metadata) => Ok(metadata@),
        Err(kind) => Err(kind),
    }
}

/// Where an extraction stands: the query whose answer is awaited, and the
/// texts gathered so far. A text is absent where its query failed.
pub ghost enum ExtractionView {
    AwaitingMimeType { reference: Seq<char> },
    AwaitingName { reference: Seq<char>, mime_type: Option<Seq<char>> },
    AwaitingThumbnail {
        reference: Seq<char>,
        mime_type: Option<Seq<char>>,
        display_name: Option<Seq<char>>,
    },
}

/// What one move of an extraction gives: the next query, or the end.
pub ghost enum ExtractStepView {
    Continue { extraction: ExtractionView, query: QueryView },
    Finished(Result<MetadataView, ExtractError>),
}

/// The thumbnail query for `reference`: a fixed size and encoding.
pub open spec fn thumbnail_query(reference: Seq<char>) -> QueryView {
    QueryView::Thumbnail {
        reference,
        width: THUMBNAIL_EDGE,
        height: THUMBNAIL_EDGE,
        format: ImageFormat::Jpeg,
    }
}

/// How an extraction starts. Without the grant for this very reference it
/// ends at once, and no query is made.
pub open spec fn begin_view(
    reference: Seq<char>,
    authorization: Option<Seq<char>>,
) -> ExtractStepView {
    if authorization == Some(reference) {
        ExtractStepView::Continue {
            extraction: ExtractionView::AwaitingMimeType { reference },
            query: QueryView::MimeType(reference),
        }
    } else {
        ExtractStepView::Finished(Err(ExtractError::Unreadable))
    }
}

/// What the three texts and the image add up to once every query was made.
pub open spec fn assemble(
    mime_type: Option<Seq<char>>,
    display_name: Option<Seq<char>>,
    thumbnail: Option<Seq<u8>>,
) -> Result<MetadataView, ExtractError> {
    if mime_type is Some && display_name is Some {
        Ok(MetadataView { mime_type: mime_type->0, display_name: display_name->0, thumbnail })
    } else {
        Err(ExtractError::Unreadable)
    }
}

/// How an extraction moves on an answer. An invalid reference ends it at
/// once. Any other answer is recorded and the next query follows, whether
/// or not this one failed.
pub open spec fn answer_view(extraction: ExtractionView, answer: AnswerView) -> ExtractStepView {
    if answer is InvalidReference {
        ExtractStepView::Finished(Err(ExtractError::NotFound))
    } else {
        match extraction {
            ExtractionView::AwaitingMimeType { reference } => ExtractStepView::Continue {
                extraction: ExtractionView::AwaitingName { reference, mime_type: answer.text() },
                query: QueryView::Name(reference),
            },
            ExtractionView::AwaitingName { reference, mime_type } => ExtractStepView::Continue {
                extraction: ExtractionView::AwaitingThumbnail {
                    reference,
                    mime_type,
                    display_name: answer.text(),
                },
                query: thumbnail_query(reference),
            },
            ExtractionView::AwaitingThumbnail { reference, mime_type, display_name } => {
                ExtractStepView::Finished(assemble(mime_type, display_name, answer.image()))
            },
        }
    }
}

/// Feeds a run of answers to an extraction, one per query. Answers that come
/// after the end are not looked at.
pub open spec fn feed(step: ExtractStepView, answers: Seq<AnswerView>) -> ExtractStepView
    decreases answers.len(),
{
    if answers.len() == 0 {
        step
    } else {
        match step {
            ExtractStepView::Finished(_) => step,
            ExtractStepView::Continue { extraction, query } => feed(
                answer_view(extraction, answers[0]),
                answers.drop_first(),
            ),
        }
    }
}

/// What extraction of an authorized reference comes to, given the
/// platform's answers to the three queries: `NotFound` if one of them tells
/// of an invalid reference, else `Unreadable` if the type or the name is no
/// text, and otherwise both texts with the image, or with none where the
/// thumbnail answer is no image.
pub open spec fn extract_outcome(
    mime_type: AnswerView,
    display_name: AnswerView,
    thumbnail: AnswerView,
) -> Result<MetadataView, ExtractError> {
    if mime_type is InvalidReference || display_name is InvalidReference
        || thumbnail is InvalidReference {
        Err(ExtractError::NotFound)
    } else {
        assemble(mime_type.text(), display_name.text(), thumbnail.image())
    }
}

/// The queries that an extraction asks along a run of answers, in order,
/// the one that is still out included.
pub open spec fn queries(step: ExtractStepView, answers: Seq<AnswerView>) -> Seq<QueryView>
    decreases answers.len(),
{
    match step {
        ExtractStepView::Finished(_) => Seq::empty(),
        ExtractStepView::Continue { extraction, query } => if answers.len() == 0 {
            seq![query]
        } else {
            seq![query] + queries(answer_view(extraction, answers[0]), answers.drop_first())
        },
    }
}

/// How many queries an extraction can still ask, the one that is out
/// included. Every answer brings it down.
pub open spec fn queries_left(extraction: ExtractionView) -> nat {
    match extraction {
        ExtractionView::AwaitingMimeType { .. } => 3,
        ExtractionView::AwaitingName { .. } => 2,
        ExtractionView::AwaitingThumbnail { .. } => 1,
    }
}

/// The views of a run of answers.
pub open spec fn answer_views(answers: Seq<Answer>) -> Seq<AnswerView> {
    Seq::new(answers.len(), |i: int| answers[i]@)
}

/// True when `platform` may have given `answer` to a query that looks like
/// `query`.
pub open spec fn answered<F: Fn(Query) -> Answer>(
    platform: F,
    query: QueryView,
    answer: Answer,
) -> bool {
    exists|made: Query| made@ == query && call_ensures(platform, (made,), answer)
}

/// True when `outcome` is what the extraction that starts with `start`
/// comes to on `answers`, and `answers` are what `platform` gave, query by
/// query, to the queries that the extraction asked.
pub open spec fn extracted_by<F: Fn(Query) -> Answer>(
    platform: F,
    start: ExtractStepView,
    answers: Seq<Answer>,
    outcome: Result<MetadataView, ExtractError>,
) -> bool {
    &&& answers.len() <= 3
    &&& feed(start, answer_views(answers)) == ExtractStepView::Finished(outcome)
    &&& queries(start, answer_views(answers)).len() == answers.len()
    &&& forall|i: int|
        0 <= i < answers.len() ==> answered(
            platform,
            #[trigger] queries(start, answer_views(answers))[i],
            answers[i],
        )
}

proof fn feed_one_more(start: ExtractStepView, answers: Seq<AnswerView>, answer: AnswerView)
    requires
        feed(start, answers) is Continue,
    ensures
        feed(start, answers.push(answer)) == answer_view(feed(start, answers)->extraction, answer),
        queries(start, answers).len() == answers.len() + 1,
        queries(start, answers).last() == feed(start, answers)->query,
        queries(start, answers.push(answer)) == queries(start, answers) + queries(
            feed(start, answers.push(answer)),
            Seq::empty(),
        ),
    decreases answers.len(),
{
    reveal_with_fuel(feed, 3);
    reveal_with_fuel(queries, 3);
    let longer = answers.push(answer);
    if answers.len() == 0 {
        assert(longer.drop_first() =~= Seq::<AnswerView>::empty());
        assert(longer[0] == answer);
        assert(queries(start, longer) =~= queries(start, answers) + queries(
            feed(start, longer),
            Seq::empty(),
        ));
    } else {
        assert(longer.drop_first() =~= answers.drop_first().push(answer));
        assert(longer[0] == answers[0]);
        let next = answer_view(start->extraction, answers[0]);
        feed_one_more(next, answers.drop_first(), answer);
        assert(queries(start, longer) =~= queries(start, answers) + queries(
            feed(start, longer),
            Seq::empty(),
        ));
    }
}

#[derive(Debug)]
enum Stage {
    MimeType,
    Name,
    Thumbnail,
}

/// A running extraction for one reference. It exists only between
/// [`Extraction::begin`] and the step that finishes it.
#[derive(Debug)]
pub struct Extraction {
    reference: ContentReference,
    stage: Stage,
    mime_type: Option<String>,
    display_name: Option<String>,
}

impl View for Extraction {
    type V = ExtractionView;

    closed spec fn view(&self) -> ExtractionView {
        match self.stage {
            Stage::MimeType => ExtractionView::AwaitingMimeType { reference: self.reference@ },
            Stage::Name => ExtractionView::AwaitingName {
                reference: self.reference@,
                mime_type: text_view(self.mime_type),
            },
            Stage::Thumbnail => ExtractionView::AwaitingThumbnail {
                reference: self.reference@,
                mime_type: text_view(self.mime_type),
                display_name: text_view(self.display_name),
            },
        }
    }
}

/// What one move of an extraction gives: the next query to make, or the end.
#[derive(Debug)]
pub enum ExtractStep {
    Continue { extraction: Extraction, query: Query },
    Finished(Result<Metadata, ExtractError>),
}

impl View for ExtractStep {
    type V = ExtractStepView;

    open spec fn view(&self) -> ExtractStepView {
        match *self {
            ExtractStep::Continue { extraction, query } => ExtractStepView::Continue {
                extraction: extraction@,
                query: query@,
            },
            ExtractStep::Finished(outcome) => ExtractStepView::Finished(outcome_view(outcome)),
        }
    }
}

impl Extraction {
    /// Starts the extraction for `reference`. It asks for the MIME type
    /// first, and only where `authorization` is the grant for `reference`.
    pub fn begin(reference: &ContentReference, authorization: Option<&Authorization>) -> (step:
        ExtractStep)
        ensures
            step@ == begin_view(reference@, grant_view(authorization)),
    {
        let covered = match authorization {
            Some(grant) => grant.covers(reference),
            None => false,
        };
        if covered {
            ExtractStep::Continue {
                extraction: Extraction {
                    reference: reference.clone(),
                    stage: Stage::MimeType,
                    mime_type: None,
                    display_name: None,
                },
                query: Query::MimeType(reference.clone()),
            }
        } else {
            ExtractStep::Finished(Err(ExtractError::Unreadable))
        }
    }

    /// The reference this extraction reads.
    pub fn reference(&self) -> (reference: ContentReference)
        ensures
            reference@ == self@.reference(),
    {
        self.reference.clone()
    }

    /// Takes the platform's answer to the query that is out, and says what
    /// comes next.
    pub fn answer(self, answer: Answer) -> (step: ExtractStep)
        ensures
            step@ == answer_view(self@, answer@),
    {
        let text = match answer {
            Answer::InvalidReference => {
                return ExtractStep::Finished(Err(ExtractError::NotFound));
            },
            Answer::Text(text) => (Some(text), None),
            Answer::Image(bytes) => (None, Some(bytes)),
            Answer::Failed => (None, None),
        };
        let (text, image) = text;
        match self.stage {
            Stage::MimeType => {
                let query = Query::Name(self.reference.clone());
                ExtractStep::Continue {
                    extraction: Extraction {
                        reference: self.reference,
                        stage: Stage::Name,
                        mime_type: text,
                        display_name: None,
                    },
                    query,
                }
            },
            Stage::Name => {
                let query = Query::Thumbnail {
                    reference: self.reference.clone(),
                    width: THUMBNAIL_EDGE,
                    height: THUMBNAIL_EDGE,
                    format: ImageFormat::Jpeg,
                };
                ExtractStep::Continue {
                    extraction: Extraction {
                        reference: self.reference,
                        stage: Stage::Thumbnail,
                        mime_type: self.mime_type,
                        display_name: text,
                    },
                    query,
                }
            },
            Stage::Thumbnail => {
                match (self.mime_type, self.display_name) {
                    (Some(mime_type), Some(display_name)) => ExtractStep::Finished(
                        Ok(Metadata { mime_type, display_name, thumbnail: image }),
                    ),
                    _ => ExtractStep::Finished(Err(ExtractError::Unreadable)),
                }
            },
        }
    }
}

/// Extracts the metadata of `reference`. The queries are made through
/// `platform`, one after the other: the type, the name, the thumbnail.
/// Without the grant for `reference` nothing is asked and the extraction
/// fails with `Unreadable`.
pub fn extract<F: Fn(Query) -> Answer>(
    reference: &ContentReference,
    authorization: Option<&Authorization>,
    platform: F,
) -> (outcome: Result<Metadata, ExtractError>)
    requires
        grant_view(authorization) == Some(reference@) ==> forall|query: Query|
            call_requires(platform, (query,)),
    ensures
        exists|answers: Seq<Answer>|
            extracted_by(
                platform,
                begin_view(reference@, grant_view(authorization)),
                answers,
                outcome_view(outcome),
            ),
        grant_view(authorization) != Some(reference@) ==> outcome_view(outcome) == Err::<
            MetadataView,
            ExtractError,
        >(ExtractError::Unreadable),
{
    let ghost start = begin_view(reference@, grant_view(authorization));
    let ghost mut answers: Seq<Answer> = Seq::empty();
    let mut step = Extraction::begin(reference, authorization);
    proof {
        assert(answer_views(answers) =~= Seq::<AnswerView>::empty());
    }
    loop
        invariant
            step@ == feed(start, answer_views(answers)),
            start == begin_view(reference@, grant_view(authorization)),
            step@ is Continue ==> forall|query: Query| call_requires(platform, (query,)),
            step@ matches ExtractStepView::Continue { extraction, .. } ==> answers.len()
                + queries_left(extraction) <= 3,
            answers.len() <= 3,
            queries(start, answer_views(answers)).len() == answers.len() + (if step@ is Continue {
                1int
            } else {
                0int
            }),
            forall|i: int|
                0 <= i < answers.len() ==> answered(
                    platform,
                    #[trigger] queries(start, answer_views(answers))[i],
                    answers[i],
                ),
        decreases
                match step@ {
                    ExtractStepView::Continue { extraction, .. } => queries_left(extraction),
                    ExtractStepView::Finished(_) => 0,
                },
    {
        match step {
            ExtractStep::Finished(outcome) => {
                proof {
                    assert(extracted_by(platform, start, answers, outcome_view(outcome)));
                    if grant_view(authorization) != Some(reference@) {
                        finished_extraction_stays(
                            Err(ExtractError::Unreadable),
                            answer_views(answers),
                        );
                    }
                }
                return outcome;
            },
            ExtractStep::Continue { extraction, query } => {
                let ghost made = query;
                let ghost before = answer_views(answers);
                let answer = platform(query);
                proof {
                    feed_one_more(start, before, answer@);
                    assert(answer_views(answers.push(answer)) =~= before.push(answer@));
                    assert(answered(platform, made@, answer));
                    answers = answers.push(answer);
                }
                step = extraction.answer(answer);
                proof {
                    let made_before = queries(start, before);
                    let made_after = queries(start, answer_views(answers));
                    assert(made_after == made_before + queries(step@, Seq::empty()));
                    assert forall|i: int| 0 <= i < answers.len() implies answered(
                        platform,
                        #[trigger] made_after[i],
                        answers[i],
                    ) by {
                        assert(made_after[i] == made_before[i]);
                        if i < answers.len() - 1 {
                            assert(answers[i] == answers.drop_last()[i]);
                        }
                    }
                }
            },
        }
    }
}

impl ExtractionView {
    /// The reference that the extraction reads.
    pub open spec fn reference(self) -> Seq<char> {
        match self {
            ExtractionView::AwaitingMimeType { reference } => reference,
            ExtractionView::AwaitingName { reference, .. } => reference,
            ExtractionView::AwaitingThumbnail { reference, .. } => reference,
        }
    }
}

/// An extraction that has ended stays ended: further answers change nothing.
pub proof fn finished_extraction_stays(
    outcome: Result<MetadataView, ExtractError>,
    answers: Seq<AnswerView>,
)
    ensures
        feed(ExtractStepView::Finished(outcome), answers) == ExtractStepView::Finished(outcome),
{
}

/// Extraction of a reference without its grant fails whatever the platform
/// would have answered, with `Unreadable`, and never yields metadata.
pub proof fn extraction_without_grant_fails(
    reference: Seq<char>,
    authorization: Option<Seq<char>>,
    answers: Seq<AnswerView>,
)
    requires
        authorization != Some(reference),
    ensures
        feed(begin_view(reference, authorization), answers) == ExtractStepView::Finished(
            Err(ExtractError::Unreadable),
        ),
{
    finished_extraction_stays(Err(ExtractError::Unreadable), answers);
}

/// With the grant, the three answers decide the result as
/// [`extract_outcome`] says, and answers beyond the third are not used.
pub proof fn extraction_of_three_answers(
    reference: Seq<char>,
    mime_type: AnswerView,
    display_name: AnswerView,
    thumbnail: AnswerView,
    rest: Seq<AnswerView>,
)
    ensures
        feed(
            begin_view(reference, Some(reference)),
            seq![mime_type, display_name, thumbnail] + rest,
        ) == ExtractStepView::Finished(extract_outcome(mime_type, display_name, thumbnail)),
{
    let all = seq![mime_type, display_name, thumbnail] + rest;
    let after_first = seq![display_name, thumbnail] + rest;
    let after_second = seq![thumbnail] + rest;
    assert(all.drop_first() =~= after_first);
    assert(after_first.drop_first() =~= after_second);
    assert(after_second.drop_first() =~= rest);
    assert(all[0] == mime_type);
    assert(after_first[0] == display_name);
    assert(after_second[0] == thumbnail);
    let start = ExtractionView::AwaitingMimeType { reference };
    let first = answer_view(start, mime_type);
    assert(feed(begin_view(reference, Some(reference)), all) == feed(first, after_first));
    if mime_type is InvalidReference {
        finished_extraction_stays(Err(ExtractError::NotFound), after_first);
    } else {
        let second = answer_view(first->extraction, display_name);
        assert(feed(first, after_first) == feed(second, after_second));
        if display_name is InvalidReference {
            finished_extraction_stays(Err(ExtractError::NotFound), after_second);
        } else {
            let third = answer_view(second->extraction, thumbnail);
            assert(feed(second, after_second) == feed(third, rest));
            finished_extraction_stays(third->Finished_0, rest);
        }
    }
}

/// A query that fails does not keep the later ones from being made: as long
/// as no answer tells of an invalid reference, the name is asked after the
/// type and the thumbnail after the name, each of the same reference.
pub proof fn failed_query_does_not_stop_the_rest(
    reference: Seq<char>,
    mime_type: AnswerView,
    display_name: AnswerView,
)
    requires
        !(mime_type is InvalidReference),
        !(display_name is InvalidReference),
    ensures
        begin_view(reference, Some(reference)) matches ExtractStepView::Continue { query, .. }
            && query == QueryView::MimeType(reference),
        feed(begin_view(reference, Some(reference)), seq![mime_type])
            matches ExtractStepView::Continue { query, .. } && query == QueryView::Name(reference),
        feed(begin_view(reference, Some(reference)), seq![mime_type, display_name])
            matches ExtractStepView::Continue { query, .. } && query == thumbnail_query(reference),
{
    let one = seq![mime_type];
    let two = seq![mime_type, display_name];
    assert(one.drop_first() =~= Seq::<AnswerView>::empty());
    assert(two.drop_first() =~= seq![display_name]);
    assert(seq![display_name].drop_first() =~= Seq::<AnswerView>::empty());
    let start = ExtractionView::AwaitingMimeType { reference };
    let first = answer_view(start, mime_type);
    assert(feed(begin_view(reference, Some(reference)), one) == feed(first, one.drop_first()));
    assert(feed(begin_view(reference, Some(reference)), two) == feed(first, two.drop_first()));
    let second = answer_view(first->extraction, display_name);
    assert(feed(first, seq![display_name]) == feed(
        second,
        seq![display_name].drop_first(),
    ));
}

/// A thumbnail that cannot be rendered costs the thumbnail and nothing else.
pub proof fn thumbnail_failure_degrades(mime_type: Seq<char>, display_name: Seq<char>)
    ensures
        extract_outcome(
            AnswerView::Text(mime_type),
            AnswerView::Text(display_name),
            AnswerView::Failed,
        ) == Ok::<MetadataView, ExtractError>(
            MetadataView { mime_type, display_name, thumbnail: None },
        ),
{
}

} // verus!
