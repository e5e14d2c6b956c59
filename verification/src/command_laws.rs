//! What ties the display-name command to the pick.

use crate::bridge::{enter_view, WalkStepView};
use crate::bridge_laws::{drive, walk_resolves_what_the_cursor_holds};
use crate::command::{display_name_view, query_for, Platform};
use crate::error::DisplayNameError;
use crate::extract::AnswerView;
use crate::files::{pick_outcome, PickEventView};
use crate::reference::{is_token, GrantOutcome};
use vstd::prelude::*;

verus! {

/// The serialized reference of a file info, handed back to the
/// display-name command, leads to a query for the very reference that the
/// user picked; and where the cursor's display-name column holds the name
/// that the metadata service answered, the command returns the name that
/// the file info carries.
pub proof fn display_name_round_trip(
    reference: Seq<char>,
    display_path: Seq<char>,
    mime_type: AnswerView,
    name: Seq<char>,
    thumbnail: AnswerView,
    index: i32,
)
    requires
        is_token(reference),
        index >= 0,
        pick_outcome(
            PickEventView::Picked { reference, display_path },
            PickEventView::Grant(GrantOutcome::Granted),
            mime_type,
            AnswerView::Text(name),
            thumbnail,
        ) is Ok,
    ensures
        ({
            let info = pick_outcome(
                PickEventView::Picked { reference, display_path },
                PickEventView::Grant(GrantOutcome::Granted),
                mime_type,
                AnswerView::Text(name),
                thumbnail,
            )->Ok_0;
            &&& info.uri == reference
            &&& info.name == name
            &&& query_for(Platform::Android, info.uri) == Ok::<Seq<char>, DisplayNameError>(
                reference,
            )
            &&& drive(enter_view(reference), true, true, index, Some(name), 5)
                == WalkStepView::Delivered(Ok(info.name))
            &&& display_name_view(Some(Ok(info.name))) == Ok::<Seq<char>, DisplayNameError>(
                info.name,
            )
        }),
{
    walk_resolves_what_the_cursor_holds(reference, true, true, index, Some(name));
}

/// On a platform without content references the command fails with
/// `UnsupportedPlatform` for every input, and issues no query.
pub proof fn unsupported_platform_issues_nothing(uri: Seq<char>)
    ensures
        query_for(Platform::Other, uri) == Err::<Seq<char>, DisplayNameError>(
            DisplayNameError::UnsupportedPlatform,
        ),
{
}

} // verus!
