//! Whole courses of a command: what was done for a request so far, and what comes next.
use vstd::prelude::*;
use crate::effects::{Action, Event, Next};
use crate::json::JsonV;
use crate::protocol::Request;

verus! {

/// A command as a machine: how it takes a request up, and what follows an outcome.
pub trait Machine: Sized {
    spec fn takes_up(req: Request, n: Next<Self>) -> bool;

    spec fn leads(self, ev: Event, n: Next<Self>) -> bool;
}

/// Whether the command, asked for by `req`, has done what `log` tells, each action with its
/// outcome, and does `n` next.
pub open spec fn reaches<M: Machine>(
    req: Request,
    log: Seq<(Action, Event)>,
    n: Next<M>,
) -> bool
    decreases log.len(),
{
    if log.len() == 0 {
        M::takes_up(req, n)
    } else {
        &&& log.last().0.answered_by(log.last().1)
        &&& exists|s: M| #[trigger]
            s.leads(log.last().1, n) && reaches(
                req,
                log.drop_last(),
                Next::Act(s, log.last().0),
            )
    }
}

/// Whether the action was done and went that way.
pub open spec fn had(log: Seq<(Action, Event)>, action: Action, ev: Event) -> bool {
    log.contains((action, ev))
}

/// Whether the last thing that was done is this.
pub open spec fn just(log: Seq<(Action, Event)>, action: Action, ev: Event) -> bool {
    log.len() > 0 && log.last() == (action, ev)
}

/// The state in which the last outcome found the command.
pub proof fn before_last<M: Machine>(
    req: Request,
    log: Seq<(Action, Event)>,
    n: Next<M>,
) -> (s: M)
    requires
        reaches(req, log, n),
        log.len() > 0,
    ensures
        reaches(req, log.drop_last(), Next::Act(s, log.last().0)),
        s.leads(log.last().1, n),
        log.last().0.answered_by(log.last().1),
{
    choose|s: M| #[trigger]
        s.leads(log.last().1, n) && reaches(req, log.drop_last(), Next::Act(s, log.last().0))
}

/// What was done stays done, and the last thing is among what was done.
pub proof fn had_more(log: Seq<(Action, Event)>)
    requires
        log.len() > 0,
    ensures
        had(log, log.last().0, log.last().1),
        forall|a: Action, e: Event|
            #![trigger had(log.drop_last(), a, e)]
            #![trigger had(log, a, e)]
            had(log.drop_last(), a, e) ==> had(log, a, e),
        log.last().1 matches Event::Done(Ok(_)) ==> log.last().1 == Event::Done(Ok(())),
{
    match log.last().1 {
        Event::Done(Ok(u)) => {
            assert(u == ());
        },
        _ => {},
    }
    assert(log[log.len() - 1] == log.last());
    assert forall|a: Action, e: Event|
        #![trigger had(log.drop_last(), a, e)]
        #![trigger had(log, a, e)]
        had(log.drop_last(), a, e) implies had(log, a, e) by {
        let i = choose|i: int| 0 <= i < log.drop_last().len() && log.drop_last()[i] == (a, e);
        assert(log[i] == (a, e));
    }
}

/// A member of an object that got one more.
pub broadcast proof fn field_of_with(object: JsonV, key: Seq<char>, value: JsonV, other: Seq<char>)
    ensures
        #[trigger] object.with(key, value).field(other) == if object is Obj {
            match object.field(other) {
                Some(v) => Some(v),
                None => if other == key {
                    Some(value)
                } else {
                    None
                },
            }
        } else {
            None
        },
{
    if object is Obj {
        crate::json::with_member(object->Obj_0, key, value, other);
    }
}

} // verus!
