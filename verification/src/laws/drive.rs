//! One call of the conformance client, step by step.

use super::status::number_of;
use super::{absent_text_is_none, carried_text_is_read, carries, lacks, lower_case};
use crate::binary::base64_unpadded;
use crate::conformance::client::CancelTiming;
use crate::conformance::drive::{
    details_bytes, rpc_error, ClientResponseResult, Drive, DriveAction, DrivePhase, Received,
};
use crate::conformance::{any_views, payload_views, Any, Error};
use crate::status::Status;
use crate::text::decimal_string;
use trillium_http::Headers;
use vstd::prelude::*;

verus! {

/// Whether a call goes on by sending the request at `next`, or by ending its requests
/// where they are all sent; in place of ending them it is cancelled, where that is when
/// it is to be.
pub open spec fn goes_on(
    action: DriveAction,
    next: nat,
    total: nat,
    delay: u32,
    cancel: Option<CancelTiming>,
) -> bool {
    if next < total {
        action matches DriveAction::Send { index, delay_ms } && index == next && delay_ms == delay
    } else if cancel == Some(CancelTiming::BeforeCloseSend) {
        action is Cancel
    } else {
        action is CloseSend
    }
}

/// A call starts with its first request, and has seen nothing.
pub proof fn calls_start(
    total: usize,
    delay: u32,
    full_duplex: bool,
    single: bool,
    cancel: Option<CancelTiming>,
    d: Drive,
    action: DriveAction,
)
    requires
        call_ensures(Drive::new, (total, delay, full_duplex, single, cancel), d),
        call_ensures(Drive::action, (&d,), action),
    ensures
        goes_on(action, 0, total as nat, delay, cancel),
        d@.next == 0 && d@.total == total,
        d@.payloads.len() == 0,
        d@.error is None,
        d@.num_unsent == 0,
        d@.full_duplex == full_duplex && d@.single_response == single,
        d@.request_delay_ms == delay && d@.cancel == cancel,
{
}

/// Whether a step keeps what a call was asked for and has seen.
pub open spec fn keeps_course(before: Drive, after: Drive) -> bool {
    &&& after@.total == before@.total
    &&& after@.request_delay_ms == before@.request_delay_ms
    &&& after@.full_duplex == before@.full_duplex
    &&& after@.single_response == before@.single_response
    &&& after@.cancel == before@.cancel
}

/// A request that was sent is followed by its response in full duplex, and otherwise by
/// the next request or the end of the requests. One that could not be sent ends the
/// call: it and all behind it are unsent, and its error is reported.
pub proof fn requests_are_sent(
    d: &mut Drive,
    result: Result<(), Error>,
    after: Drive,
    action: DriveAction,
)
    requires
        call_ensures(Drive::sent, (d, result), ()),
        old(d)@.total <= usize::MAX,
        after == *final(d),
        call_ensures(Drive::action, (&after,), action),
    ensures
        keeps_course(*old(d), after),
        after@.payloads == old(d)@.payloads,
        result is Ok ==> {
            &&& after@.next == old(d)@.next + 1
            &&& after@.error == old(d)@.error && after@.num_unsent == old(d)@.num_unsent
            &&& old(d)@.full_duplex ==> action is Recv
            &&& !old(d)@.full_duplex ==> goes_on(
                action,
                old(d)@.next + 1,
                old(d)@.total,
                old(d)@.request_delay_ms,
                old(d)@.cancel,
            )
        },
        result matches Err(e) ==> {
            &&& action is Finish
            &&& after@.error == Some(e@)
            &&& 0 <= old(d)@.total - old(d)@.next < 0x8000_0000 ==> after@.num_unsent
                == old(d)@.total - old(d)@.next
        },
{
}

/// A response is kept, an empty one where it has no payload, and the call goes on; it is
/// to be cancelled exactly where so many responses were asked for and have come.
pub proof fn responses_are_kept(
    d: &mut Drive,
    payload: Option<crate::conformance::ConformancePayload>,
    after: Drive,
    action: DriveAction,
    r: bool,
)
    requires
        call_ensures(Drive::received, (d, Received::Message(payload)), r),
        old(d)@.total <= usize::MAX,
        after == *final(d),
        call_ensures(Drive::action, (&after,), action),
        old(d)@.phase == DrivePhase::Answering || old(d)@.phase == DrivePhase::Draining,
    ensures
        keeps_course(*old(d), after),
        after@.next == old(d)@.next,
        after@.error == old(d)@.error,
        after@.payloads.len() == old(d)@.payloads.len() + 1,
        after@.payloads.drop_last() == old(d)@.payloads,
        payload matches Some(p) ==> after@.payloads.last() == p@,
        payload is None ==> after@.payloads.last().data.len() == 0
            && after@.payloads.last().request_info is None,
        after@.payloads.len() < 0x1_0000_0000 ==> (r <==> old(d)@.cancel == Some(
            CancelTiming::AfterNumResponses(after@.payloads.len() as u32),
        )),
        old(d)@.phase == DrivePhase::Answering ==> goes_on(
            action,
            old(d)@.next,
            old(d)@.total,
            old(d)@.request_delay_ms,
            old(d)@.cancel,
        ),
        old(d)@.phase == DrivePhase::Draining ==> action is Recv,
{
    assert(after@.payloads.drop_last() =~= old(d)@.payloads);
}

/// The end of the responses ends the call, and so does an error, which is reported.
pub proof fn calls_end(
    d: &mut Drive,
    item: Received,
    after: Drive,
    action: DriveAction,
    r: bool,
)
    requires
        call_ensures(Drive::received, (d, item), r),
        after == *final(d),
        call_ensures(Drive::action, (&after,), action),
        item is End || item is Failed,
    ensures
        keeps_course(*old(d), after),
        action is Finish,
        !r,
        after@.payloads == old(d)@.payloads,
        after@.num_unsent == old(d)@.num_unsent,
        item is End ==> after@.error == old(d)@.error,
        item matches Received::Failed(e) ==> after@.error == Some(e@),
{
}

/// Behind the end of the requests a call is cancelled after its delay, where that is
/// asked for, and otherwise receives what is left.
pub proof fn requests_are_ended(d: &mut Drive, after: Drive, action: DriveAction)
    requires
        call_ensures(Drive::closed, (d,), ()),
        after == *final(d),
        call_ensures(Drive::action, (&after,), action),
    ensures
        keeps_course(*old(d), after),
        after@.payloads == old(d)@.payloads && after@.error == old(d)@.error,
        old(d)@.cancel matches Some(CancelTiming::AfterCloseSendMs(ms)) ==> action
            == (DriveAction::CancelAfter { delay_ms: ms, wait: old(d)@.single_response }),
        !(old(d)@.cancel is Some && old(d)@.cancel->0 is AfterCloseSendMs) ==> action is Recv,
{
}

/// Behind the cancellation a call receives what is left.
pub proof fn cancellations_are_timed(d: &mut Drive, after: Drive, action: DriveAction)
    requires
        call_ensures(Drive::timed, (d,), ()),
        after == *final(d),
        call_ensures(Drive::action, (&after,), action),
    ensures
        keeps_course(*old(d), after),
        after@.payloads == old(d)@.payloads && after@.error == old(d)@.error,
        action is Recv,
{
}

/// A call that ended well where one response is asked for has exactly one; any other
/// number is reported as unimplemented, with no response. Otherwise what was seen is
/// reported as it is.
pub proof fn calls_are_reported(
    d: Drive,
    headers: Option<&Headers>,
    trailers: Option<&Headers>,
    n: u128,
    count: String,
    r: ClientResponseResult,
)
    requires
        call_ensures(Drive::finish, (d, headers, trailers), r),
        n == d@.payloads.len(),
        call_ensures(decimal_string, (n,), count),
    ensures
        r.num_unsent_requests == d@.num_unsent,
        d@.error matches Some(e) ==> (r.error matches Some(f) && f@ == e) && payload_views(
            r.payloads@,
        ) == d@.payloads,
        d@.error is None && (!d@.single_response || d@.payloads.len() == 1) ==> r.error is None
            && payload_views(r.payloads@) == d@.payloads,
        d@.error is None && d@.single_response && d@.payloads.len() != 1 ==> r.payloads@.len()
            == 0 && (r.error matches Some(f) && f.code == 12 && f.details@.len() == 0 && (
        f.message matches Some(m) && m@ == "expected exactly one response message, got "@
            + count@)),
{
    if let Some(f) = r.error {
        assert(f@.code == f.code);
        assert(f@.details == any_views(f.details@));
        assert(f@.details.len() == f.details@.len());
        assert(f@.message == crate::text::optional_text(f.message));
    }
}

/// A status is reported by the number of its code, its message and its details.
pub proof fn statuses_are_reported(
    status: &Status,
    details: Vec<Any>,
    number: nat,
    name: Seq<char>,
    r: Error,
)
    requires
        call_ensures(rpc_error, (status, details), r),
        super::status::numbered(status.code, number, name),
    ensures
        r.code == number,
        r.message matches Some(m) && m@ == status.message@,
        any_views(r.details@) == any_views(details@),
{
    number_of(status.code);
    assert(r@.code == r.code && r@.details == any_views(r.details@) && r@.message
        == crate::text::optional_text(r.message));
    assert(status@.code == status.code && status@.message == status.message@);
}

/// Details are read from the trailers that carry them, and from no others.
pub proof fn details_are_read(trailers: &Headers, encoded: Seq<u8>, r: Option<Vec<u8>>)
    requires
        call_ensures(details_bytes, (trailers,), r),
    ensures
        carries(*trailers, "grpc-status-details-bin"@, base64_unpadded(encoded)) ==> (
        r matches Some(b) && b@ == encoded),
        lacks(*trailers, "grpc-status-details-bin"@) ==> r is None,
{
    let name = "grpc-status-details-bin"@;
    reveal_strlit("grpc-status-details-bin");
    assert(lower_case(name));
    if carries(*trailers, name, base64_unpadded(encoded)) {
        carried_text_is_read(*trailers, name, base64_unpadded(encoded));
        crate::binary::base64_unpadded_round_trip(encoded);
    }
    if lacks(*trailers, name) {
        absent_text_is_none(*trailers, name);
    }
}

} // verus!
