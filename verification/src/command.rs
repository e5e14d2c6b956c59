//! The commands that the user interface invokes besides the pick: the
//! display name of a reference, a greeting, and a loading quote.

use crate::bridge::{delivery_view, receive_view, PendingQuery};
use crate::error::{BridgeError, DisplayNameError};
use crate::reference::{is_token, ContentReference};
use vstd::prelude::*;
use vstd::string::*;

verus! {

/// The kinds of platform that the application runs on.
#[derive(Clone, Copy, Debug, PartialEq, Eq, Structural)]
pub enum Platform {
    /// Storage is reached through content references.
    Android,
    /// Any platform without that model.
    Other,
}

/// The reference that the display-name command queries, or why it makes no
/// query at all: the platform has no content references, or `uri` is not
/// the token of one.
pub open spec fn query_for(platform: Platform, uri: Seq<char>) -> Result<
    Seq<char>,
    DisplayNameError,
> {
    if platform != Platform::Android {
        Err(DisplayNameError::UnsupportedPlatform)
    } else if !is_token(uri) {
        Err(DisplayNameError::BridgeFailure(BridgeError::NoCursor))
    } else {
        Ok(uri)
    }
}

/// What the command returns once the bridge is through: the name that was
/// delivered, or the bridge's failure.
pub open spec fn display_name_view(received: Option<Result<Seq<char>, BridgeError>>) -> Result<
    Seq<char>,
    DisplayNameError,
> {
    match receive_view(received) {
        Ok(name) => Ok(name),
        Err(kind) => Err(DisplayNameError::BridgeFailure(kind)),
    }
}

/// The view of what a blocking receive gave.
pub open spec fn received_view(received: Option<Result<String, BridgeError>>) -> Option<
    Result<Seq<char>, BridgeError>,
> {
    match received {
        Some(sent) => Some(delivery_view(sent)),
        None => None,
    }
}

/// The view of the command's result.
pub open spec fn name_view(result: Result<String, DisplayNameError>) -> Result<
    Seq<char>,
    DisplayNameError,
> {
    match result {
        Ok(name) => Ok(name@),
        Err(kind) => Err(kind),
    }
}

/// Decides whether the display-name command issues a query, and for which
/// reference. `uri` is the serialized token, taken as it is.
pub fn issue_display_name_query(platform: Platform, uri: String) -> (issued: Result<
    PendingQuery,
    DisplayNameError,
>)
    ensures
        match issued {
            Ok(pending) => query_for(platform, uri@) == Ok::<Seq<char>, DisplayNameError>(
                pending@,
            ),
            Err(kind) => query_for(platform, uri@) == Err::<Seq<char>, DisplayNameError>(kind),
        },
{
    match platform {
        Platform::Other => Err(DisplayNameError::UnsupportedPlatform),
        Platform::Android => match ContentReference::from_token(uri) {
            Some(reference) => Ok(PendingQuery::issue(reference)),
            None => Err(DisplayNameError::BridgeFailure(BridgeError::NoCursor)),
        },
    }
}

/// Turns what the worker's blocking receive gave into the command's result.
pub fn display_name_of(received: Option<Result<String, BridgeError>>) -> (result: Result<
    String,
    DisplayNameError,
>)
    ensures
        name_view(result) == display_name_view(received_view(received)),
{
    match received {
        Some(Ok(name)) => Ok(name),
        Some(Err(kind)) => Err(DisplayNameError::BridgeFailure(kind)),
        None => Err(DisplayNameError::BridgeFailure(BridgeError::ChannelClosed)),
    }
}

/// The display name of the document that `uri` refers to. `bridge`
/// schedules the callback for the query it is given and blocks until the
/// one outcome arrives or the channel closes. It is called once, and only
/// where a query is issued: on a platform without content references the
/// command fails before anything is scheduled.
pub fn get_display_name_from_uri<F: FnOnce(PendingQuery) -> Option<Result<String, BridgeError>>>(
    platform: Platform,
    uri: String,
    bridge: F,
) -> (result: Result<String, DisplayNameError>)
    requires
        query_for(platform, uri@) is Ok ==> forall|pending: PendingQuery|
            pending@ == uri@ ==> call_requires(bridge, (pending,)),
    ensures
        match query_for(platform, uri@) {
            Err(kind) => result == Err::<String, DisplayNameError>(kind),
            Ok(reference) => exists|pending: PendingQuery, received|
                pending@ == reference && #[trigger] call_ensures(bridge, (pending,), received)
                    && name_view(result) == display_name_view(received_view(received)),
        },
{
    match issue_display_name_query(platform, uri) {
        Err(kind) => Err(kind),
        Ok(pending) => {
            let received = bridge(pending);
            display_name_of(received)
        },
    }
}

/// The words of the greeting before and after the name.
pub open spec fn greeting(name: Seq<char>) -> Seq<char> {
    "Hello, "@ + name + "! You've been greeted from Rust!"@
}

/// Greets `name`.
pub fn greet(name: &str) -> (text: String)
    ensures
        text@ == greeting(name@),
{
    String::from_str("Hello, ").concat(name).concat("! You've been greeted from Rust!")
}

/// A line to show while the application loads, and the book it is from.
#[derive(Debug)]
pub struct LoadingText {
    pub book: String,
    pub quote: String,
}

/// What is shown where there is no quote to pick.
pub open spec fn fallback_quote() -> Seq<char> {
    "Loading..."@
}

/// The quote at `index`, or the fallback where the list has no such entry.
pub open spec fn quote_at(quotes: Seq<LoadingText>, index: int) -> Seq<char> {
    if 0 <= index < quotes.len() {
        quotes[index].quote@
    } else {
        fallback_quote()
    }
}

/// Picks the quote at `index` of `quotes`.
pub fn loading_quote_at(quotes: &Vec<LoadingText>, index: usize) -> (text: String)
    ensures
        text@ == quote_at(quotes@, index as int),
{
    if index < quotes.len() {
        quotes[index].quote.clone()
    } else {
        String::from_str("Loading...")
    }
}

/// `rand::Rng::gen_range` on the thread's generator, for the range from
/// zero up to and without `bound`. The range must not be empty. All that
/// is claimed of the result is that it lies in the range.
#[verifier::external_body]
fn random_below(bound: usize) -> (index: usize)
    requires
        bound > 0,
    ensures
        index < bound,
{
    rand::Rng::gen_range(&mut rand::thread_rng(), 0..bound)
}

/// A quote of the list, chosen at random, or the fallback where the list
/// is empty. It never fails.
pub fn get_random_loading_quote(quotes: &Vec<LoadingText>) -> (picked: Result<String, String>)
    ensures
        picked is Ok,
        quotes@.len() == 0 ==> picked->Ok_0@ == fallback_quote(),
        quotes@.len() > 0 ==> exists|index: int|
            0 <= index < quotes@.len() && picked->Ok_0@ == #[trigger] quotes@[index].quote@,
{
    if quotes.len() > 0 {
        let index = random_below(quotes.len());
        let text = loading_quote_at(quotes, index);
        proof {
            assert(text@ == quotes@[index as int].quote@);
        }
        Ok(text)
    } else {
        Ok(String::from_str("Loading..."))
    }
}

} // verus!
