//! What the transport delivers in answer to a route query, and its narrowing
//! to route records.

use vstd::prelude::*;
use crate::message::RouteMessage;

verus! {

/// One message as the transport delivers it, of whatever kind.
#[derive(Debug, Clone, PartialEq, Eq)]
pub enum RouteReply {
    /// A "new route" message, and the route that it reports.
    NewRoute(RouteMessage),
    /// An error notification of the kernel, with its code.
    Error(i32),
    /// A message of any other kind, by its netlink message type.
    Other(u16),
}

/// Why a route query gave no route record.
#[derive(Debug, Clone, PartialEq, Eq)]
pub enum Error {
    /// The transport did not take the request: no reply is to be expected.
    RequestFailed,
    /// A reply came that is not a "new route" message: the reply itself.
    UnexpectedMessage(RouteReply),
}

/// One element of the answer to a query: a route record or a typed error.
pub type RouteResult = Result<RouteMessage, Error>;

/// The narrowing of one reply: the route of a "new route" message, and for
/// any other reply the error that holds it.
pub open spec fn narrow(reply: RouteReply) -> RouteResult {
    match reply {
        RouteReply::NewRoute(message) => Ok(message),
        _ => Err(Error::UnexpectedMessage(reply)),
    }
}

/// The narrowing of a sequence of replies: one element for each reply, in
/// the same order.
pub open spec fn narrow_all(replies: Seq<RouteReply>) -> Seq<RouteResult> {
    replies.map_values(|reply: RouteReply| narrow(reply))
}

/// How many replies of a sequence are "new route" messages.
pub open spec fn count_routes(replies: Seq<RouteReply>) -> nat
    decreases replies.len(),
{
    if replies.len() == 0 {
        0
    } else {
        count_routes(replies.drop_last()) + if replies.last() is NewRoute {
            1nat
        } else {
            0nat
        }
    }
}

/// How many elements of an answer are route records.
pub open spec fn count_records(results: Seq<RouteResult>) -> nat
    decreases results.len(),
{
    if results.len() == 0 {
        0
    } else {
        count_records(results.drop_last()) + if results.last() is Ok {
            1nat
        } else {
            0nat
        }
    }
}

/// Narrowing keeps every reply at its place: the answer is as long as the
/// sequence of replies, a "new route" message gives its route at the same
/// index, and any other reply gives there the error that holds it. So the
/// answer has as many route records as there were "new route" messages.
pub proof fn lemma_narrow_all_keeps_places(replies: Seq<RouteReply>)
    ensures
        narrow_all(replies).len() == replies.len(),
        forall|i: int|
            0 <= i < replies.len() ==> (#[trigger] replies[i] matches RouteReply::NewRoute(route)
                ==> narrow_all(replies)[i] == Ok::<RouteMessage, Error>(route)),
        forall|i: int|
            0 <= i < replies.len() && !(#[trigger] replies[i] is NewRoute) ==> narrow_all(
                replies,
            )[i] == Err::<RouteMessage, Error>(Error::UnexpectedMessage(replies[i])),
        count_records(narrow_all(replies)) == count_routes(replies),
    decreases replies.len(),
{
    if replies.len() > 0 {
        lemma_narrow_all_keeps_places(replies.drop_last());
        assert(narrow_all(replies).drop_last() =~= narrow_all(replies.drop_last()));
    }
}

/// Narrows one reply to the route that it reports, or to the error that says
/// what came instead.
pub fn try_route(reply: RouteReply) -> (result: RouteResult)
    ensures
        result == narrow(reply),
{
    match reply {
        RouteReply::NewRoute(message) => Ok(message),
        other => Err(Error::UnexpectedMessage(other)),
    }
}

/// Narrows every reply of a sequence, each at its place: a reply that is no
/// route gives one error and does not end the sequence.
pub fn route_results(replies: Vec<RouteReply>) -> (results: Vec<RouteResult>)
    ensures
        results.len() == replies.len(),
        forall|i: int| 0 <= i < replies.len() ==> #[trigger] results[i] == narrow(replies[i]),
        results@ == narrow_all(replies@),
{
    let mut results: Vec<RouteResult> = Vec::new();
    for reply in it: replies.into_iter()
        invariant
            results.len() == it.index(),
            forall|j: int| 0 <= j < results.len() ==> #[trigger] results[j] == narrow(it.seq()[j]),
    {
        results.push(try_route(reply));
    }
    assert(results@ =~= narrow_all(replies@));
    results
}

/// The answer to a query, from what the transport gave back for its request:
/// the narrowed replies where it took the request, and where it did not, its
/// error as the one element.
pub fn request_results(outcome: Result<Vec<RouteReply>, Error>) -> (results: Vec<RouteResult>)
    ensures
        outcome matches Ok(replies) ==> results@ == narrow_all(replies@),
        outcome matches Err(error) ==> results@ == seq![Err::<RouteMessage, Error>(error)],
{
    match outcome {
        Ok(replies) => route_results(replies),
        Err(error) => {
            let mut results: Vec<RouteResult> = Vec::new();
            results.push(Err(error));
            assert(results@ =~= seq![Err::<RouteMessage, Error>(error)]);
            results
        },
    }
}

} // verus!
