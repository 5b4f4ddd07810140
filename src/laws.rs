//! Properties that relate several operations of the library, stated over
//! the same spec functions that the operations' own contracts use.

use vstd::prelude::*;

use crate::port::{action_for, next_state, PortSupervisor, ServerStatus, SupervisorAction, SupervisorEvent};
use crate::profile::{response_for, ResponseConfig};
use crate::record::RequestRecord;

verus! {

/// The log after `arrivals` were appended one at a time, in the order in
/// which the lock admitted them; each step is what `RequestLog::append` does.
pub open spec fn after_appends(start: Seq<RequestRecord>, arrivals: Seq<RequestRecord>) -> Seq<RequestRecord>
    decreases arrivals.len(),
{
    if arrivals.len() == 0 {
        start
    } else {
        after_appends(start, arrivals.drop_last()).push(arrivals.last())
    }
}

/// No request is lost or duplicated: however `N` completing requests
/// interleave, once all are appended the log holds what it held before
/// followed by exactly those `N` records, in lock order.
pub proof fn law_appends_keep_every_record(start: Seq<RequestRecord>, arrivals: Seq<RequestRecord>)
    ensures
        after_appends(start, arrivals) == start + arrivals,
        after_appends(start, arrivals).len() == start.len() + arrivals.len(),
        after_appends(Seq::empty(), arrivals).len() == arrivals.len(),
    decreases arrivals.len(),
{
    if arrivals.len() > 0 {
        law_appends_keep_every_record(start, arrivals.drop_last());
        law_appends_keep_every_record(Seq::empty(), arrivals.drop_last());
        assert(start + arrivals =~= (start + arrivals.drop_last()).push(arrivals.last()));
    } else {
        assert(start + arrivals =~= start);
    }
    assert(Seq::<RequestRecord>::empty() + arrivals =~= arrivals);
}

/// A clear and an append that race are each applied whole: with the clear
/// admitted first the log is just the new record; with the append first it
/// is every prior record and then the new one, until the clear empties it.
/// In every outcome each record is the new one or an untouched prior one.
pub proof fn law_clear_and_append_never_tear(prior: Seq<RequestRecord>, rec: RequestRecord)
    ensures
        Seq::<RequestRecord>::empty().push(rec) == seq![rec],
        prior.push(rec).len() == prior.len() + 1,
        prior.push(rec).subrange(0, prior.len() as int) == prior,
        prior.push(rec).last() == rec,
        forall|i: int| 0 <= i < prior.len() + 1 ==> (prior.push(rec)[i] == rec || prior.contains(
            #[trigger] prior.push(rec)[i],
        )),
{
    assert(Seq::<RequestRecord>::empty().push(rec) =~= seq![rec]);
    assert(prior.push(rec).subrange(0, prior.len() as int) =~= prior);
    assert forall|i: int| 0 <= i < prior.len() + 1 implies (prior.push(rec)[i] == rec || prior.contains(
        #[trigger] prior.push(rec)[i],
    )) by {
        if i < prior.len() {
            assert(prior[i] == prior.push(rec)[i]);
        }
    }
}

/// Reading the profile twice with no update in between gives the same
/// pair: the result of `ResponseConfig::read` is fixed by the profile.
pub proof fn law_read_is_stable(c: ResponseConfig, first: (u16, Seq<char>), second: (u16, Seq<char>))
    requires
        first == c.profile(),
        second == c.profile(),
    ensures
        first == second,
{
}

/// A request completing under a valid profile is answered with exactly
/// the stored status and body.
pub proof fn law_configured_response_is_sent(c: ResponseConfig)
    requires
        c.wf(),
    ensures
        response_for(c.status_code, c.response_body@) == c.profile(),
{
}

/// A rebind to a port whose bind fails leaves the last working port as it
/// was, reports the error and waits for the operator; a later rebind to a
/// port that binds makes that port the last working one and listens on it.
pub proof fn law_failed_rebind_then_recovery(s: PortSupervisor, busy: u16, detail: String, free: u16)
    requires
        busy != 0,
        free != 0,
    ensures
        ({
            let a = next_state(s, SupervisorEvent::PortRequested(busy));
            let b = next_state(a, SupervisorEvent::BindFailed(detail));
            let c = next_state(b, SupervisorEvent::PortRequested(free));
            let d = next_state(c, SupervisorEvent::BindSucceeded);
            &&& a.status is Starting
            &&& b.last_working_port == s.last_working_port
            &&& b.status == ServerStatus::Error(detail)
            &&& action_for(b.status, b.current_port) == SupervisorAction::WaitForPort
            &&& c.last_working_port == s.last_working_port
            &&& d.last_working_port == free
            &&& d.current_port == free
            &&& d.status == ServerStatus::Listening(free)
        }),
{
}

} // verus!
