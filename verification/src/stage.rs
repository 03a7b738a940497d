//! Stages and their composition: the contract that every extension unit
//! meets at a stage, and the chain that threads a request through the units
//! of one stage in registration order.

use std::ops::ControlFlow;
use vstd::prelude::*;

verus! {

/// An extension unit at one stage, with requests `Req` and responses `Resp`.
///
/// On the way in a unit either answers the request itself, and nothing
/// further in is reached, or hands on a request. On the way out it may change
/// the response that comes back from further in.
pub trait StageUnit<Req, Resp> {
    /// The flows that the unit may give for a request.
    spec fn request_flow(&self, request: Req, flow: ControlFlow<Resp, Req>) -> bool;

    /// The responses that the unit may make of one that comes back.
    spec fn response_flow(&self, inner: Resp, outer: Resp) -> bool;

    /// Takes a request on its way in.
    fn on_request(&self, request: Req) -> (flow: ControlFlow<Resp, Req>)
        ensures
            self.request_flow(request, flow),
    ;

    /// Takes a response on its way out.
    fn on_response(&self, response: Resp) -> (outer: Resp)
        ensures
            self.response_flow(response, outer),
    ;
}

/// Where the way in ended.
#[derive(Debug, PartialEq, Eq)]
pub enum Descent<Req, Resp> {
    /// Every unit handed the request on: this one is for the base handler.
    Reached(Req),
    /// The unit at position `depth` answered; the units after it and the base
    /// handler were not reached.
    Answered { depth: usize, response: Resp },
}

/// The way in from unit `from`: the units are asked in registration order
/// until one answers or none is left.
pub open spec fn descends<Req, Resp, U: StageUnit<Req, Resp>>(
    units: Seq<U>,
    from: int,
    request: Req,
    descent: Descent<Req, Resp>,
) -> bool
    decreases units.len() - from,
{
    if from < 0 || from >= units.len() {
        descent == Descent::<Req, Resp>::Reached(request)
    } else {
        exists|flow: ControlFlow<Resp, Req>| #[trigger]
            units[from].request_flow(request, flow) && match flow {
                ControlFlow::Break(response) => descent == (Descent::<Req, Resp>::Answered {
                    depth: from as usize,
                    response,
                }),
                ControlFlow::Continue(next) => descends(units, from + 1, next, descent),
            }
    }
}

/// The way out through the units at positions `upto - 1` down to `from`, in
/// that order: the reverse of registration order.
pub open spec fn ascends<Req, Resp, U: StageUnit<Req, Resp>>(
    units: Seq<U>,
    from: int,
    upto: int,
    inner: Resp,
    outer: Resp,
) -> bool
    decreases upto - from,
{
    if from < 0 || upto > units.len() || from >= upto {
        outer == inner
    } else {
        exists|middle: Resp|
            ascends::<Req, Resp, U>(units, from + 1, upto, inner, middle)
                && #[trigger] units[from].response_flow(middle, outer)
    }
}

/// What the composed handler may answer from unit `from` on: that unit wraps
/// everything after it, and the base handler stands behind the last unit.
pub open spec fn handled<Req, Resp, U: StageUnit<Req, Resp>>(
    units: Seq<U>,
    from: int,
    request: Req,
    base: spec_fn(Req, Resp) -> bool,
    response: Resp,
) -> bool
    decreases units.len() - from,
{
    if from < 0 || from >= units.len() {
        base(request, response)
    } else {
        exists|flow: ControlFlow<Resp, Req>| #[trigger]
            units[from].request_flow(request, flow) && match flow {
                ControlFlow::Break(answer) => response == answer,
                ControlFlow::Continue(next) => exists|inner: Resp|
                    handled(units, from + 1, next, base, inner)
                        && #[trigger] units[from].response_flow(inner, response),
            }
    }
}

/// Leads a request in through the units in registration order. The first
/// unit decides first.
pub fn descend<Req, Resp, U: StageUnit<Req, Resp>>(units: &Vec<U>, request: Req) -> (descent:
    Descent<Req, Resp>)
    ensures
        descends(units@, 0, request, descent),
        descent matches Descent::Answered { depth, .. } ==> depth < units.len(),
{
    let mut i: usize = 0;
    let mut current = request;
    while i < units.len()
        invariant
            i <= units.len(),
            forall|d: Descent<Req, Resp>| #[trigger]
                descends(units@, i as int, current, d) ==> descends(units@, 0, request, d),
        decreases units.len() - i,
    {
        let ghost arrived = current;
        let flow = units[i].on_request(current);
        match flow {
            ControlFlow::Break(response) => {
                let descent = Descent::Answered { depth: i, response };
                assert(descends(units@, i as int, arrived, descent));
                return descent;
            },
            ControlFlow::Continue(next) => {
                assert forall|d: Descent<Req, Resp>| #[trigger]
                    descends(units@, i + 1, next, d) implies descends(units@, 0, request, d) by {
                    assert(descends(units@, i as int, arrived, d));
                }
                current = next;
            },
        }
        i += 1;
    }
    let descent = Descent::Reached(current);
    assert(descends(units@, i as int, current, descent));
    descent
}

/// Leads a response out through the first `depth` units, last of them first.
pub fn ascend<Req, Resp, U: StageUnit<Req, Resp>>(units: &Vec<U>, depth: usize, response: Resp) -> (outer:
    Resp)
    requires
        depth <= units.len(),
    ensures
        ascends::<Req, Resp, U>(units@, 0, depth as int, response, outer),
{
    let mut k: usize = depth;
    let mut current = response;
    while k > 0
        invariant
            k <= depth <= units.len(),
            ascends::<Req, Resp, U>(units@, k as int, depth as int, response, current),
        decreases k,
    {
        k -= 1;
        let ghost middle = current;
        current = units[k].on_response(current);
        assert(units@[k as int].response_flow(middle, current));
    }
    current
}

/// The two ways together make the nested call: a way in from unit `from`,
/// the base handler where the way in reached it, and the way out through the
/// units that handed the request on give an answer of the composed handler.
pub proof fn two_ways_make_the_nested_call<Req, Resp, U: StageUnit<Req, Resp>>(
    units: Seq<U>,
    from: int,
    request: Req,
    base: spec_fn(Req, Resp) -> bool,
    descent: Descent<Req, Resp>,
    inner: Resp,
    response: Resp,
)
    requires
        0 <= from <= units.len() <= usize::MAX,
        descends(units, from, request, descent),
        match descent {
            Descent::Reached(last) => base(last, inner) && ascends::<Req, Resp, U>(
                units,
                from,
                units.len() as int,
                inner,
                response,
            ),
            Descent::Answered { depth, response: answer } => inner == answer && ascends::<
                Req,
                Resp,
                U,
            >(units, from, depth as int, inner, response),
        },
    ensures
        handled(units, from, request, base, response),
    decreases units.len() - from,
{
    if from < units.len() {
        let flow = choose|flow: ControlFlow<Resp, Req>| #[trigger]
            units[from].request_flow(request, flow) && match flow {
                ControlFlow::Break(answer) => descent == (Descent::<Req, Resp>::Answered {
                    depth: from as usize,
                    response: answer,
                }),
                ControlFlow::Continue(next) => descends(units, from + 1, next, descent),
            };
        match flow {
            ControlFlow::Break(_) => {},
            ControlFlow::Continue(next) => {
                descent_goes_deeper(units, from + 1, next, descent);
                let upto = match descent {
                    Descent::Reached(_) => units.len() as int,
                    Descent::Answered { depth, .. } => depth as int,
                };
                let middle = choose|middle: Resp|
                    ascends::<Req, Resp, U>(units, from + 1, upto, inner, middle)
                        && #[trigger] units[from].response_flow(middle, response);
                two_ways_make_the_nested_call(units, from + 1, next, base, descent, inner, middle);
            },
        }
    }
}

/// A way in that starts at unit `from` is answered at `from` or later.
pub proof fn descent_goes_deeper<Req, Resp, U: StageUnit<Req, Resp>>(
    units: Seq<U>,
    from: int,
    request: Req,
    descent: Descent<Req, Resp>,
)
    requires
        0 <= from <= units.len() <= usize::MAX,
        descends(units, from, request, descent),
    ensures
        descent matches Descent::Answered { depth, .. } ==> from <= depth < units.len(),
    decreases units.len() - from,
{
    if from < units.len() {
        let flow = choose|flow: ControlFlow<Resp, Req>| #[trigger]
            units[from].request_flow(request, flow) && match flow {
                ControlFlow::Break(answer) => descent == (Descent::<Req, Resp>::Answered {
                    depth: from as usize,
                    response: answer,
                }),
                ControlFlow::Continue(next) => descends(units, from + 1, next, descent),
            };
        match flow {
            ControlFlow::Break(_) => {},
            ControlFlow::Continue(next) => {
                descent_goes_deeper(units, from + 1, next, descent);
            },
        }
    }
}

/// The relation between the requests and the responses of a base handler
/// that is a function value.
pub open spec fn answers<Req, Resp, F: Fn(Req) -> Resp>(base: F) -> spec_fn(Req, Resp) -> bool {
    |request: Req, response: Resp| call_ensures(base, (request,), response)
}

/// The composed handler of a stage: the units wrap the base handler, the
/// first of them outermost. A unit that answers keeps the request from the
/// units after it and from the base handler; every unit that handed the
/// request on sees the response on its way out, in reverse order.
pub fn call<Req, Resp, U: StageUnit<Req, Resp>, F: Fn(Req) -> Resp>(
    units: &Vec<U>,
    base: &F,
    request: Req,
) -> (response: Resp)
    requires
        forall|r: Req| call_requires(*base, (r,)),
    ensures
        handled(units@, 0, request, answers(*base), response),
{
    let descent = descend(units, request);
    match descent {
        Descent::Reached(last) => {
            let inner = base(last);
            let response = ascend(units, units.len(), inner);
            proof {
                two_ways_make_the_nested_call(
                    units@,
                    0,
                    request,
                    answers(*base),
                    descent,
                    inner,
                    response,
                );
            }
            response
        },
        Descent::Answered { depth, response: answer } => {
            let response = ascend(units, depth, answer);
            proof {
                two_ways_make_the_nested_call(
                    units@,
                    0,
                    request,
                    answers(*base),
                    descent,
                    answer,
                    response,
                );
            }
            response
        },
    }
}

/// Without units the composed handler is the base handler.
pub proof fn empty_chain_is_the_base<Req, Resp, U: StageUnit<Req, Resp>>(
    request: Req,
    base: spec_fn(Req, Resp) -> bool,
    response: Resp,
)
    ensures
        handled(Seq::<U>::empty(), 0, request, base, response) <==> base(request, response),
{
}

/// A unit that answers decides alone: its answer is an answer of the chain
/// from it on, whatever the later units and the base handler are.
pub proof fn short_circuit_skips_the_rest<Req, Resp, U: StageUnit<Req, Resp>>(
    units: Seq<U>,
    from: int,
    request: Req,
    base: spec_fn(Req, Resp) -> bool,
    answer: Resp,
)
    requires
        0 <= from < units.len(),
        units[from].request_flow(request, ControlFlow::Break(answer)),
    ensures
        handled(units, from, request, base, answer),
{
}

} // verus!
