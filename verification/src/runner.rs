//! The batch runner: the state machine that drives targets through the
//! client and normalizer to the sink, one at a time, and its failure policy.
//!
//! The first failing step aborts the whole batch; units already handed to the
//! sink for earlier targets stay written. The caller owns the transport and
//! the sink: it asks for the next request, performs it, hands the body back,
//! and writes the units it receives.

use vstd::pervasive::unreached;
use vstd::prelude::*;

use crate::errors::ErrorKind;
use crate::normalize::normalize_blacklist;
use crate::normalize::normalize_block;
use crate::normalize::normalize_plaintext;
use crate::normalize::normalize_single;
use crate::normalize::spec_envelope_data;
use crate::normalize::spec_normalize_blacklist;
use crate::normalize::spec_normalize_block;
use crate::normalize::spec_normalize_single;
use crate::normalize::unit_views;
use crate::normalize::units_match;
use crate::request::blacklist_params;
use crate::request::blacklist_query;
use crate::request::check_block_params;
use crate::request::check_block_query;
use crate::request::check_ip_params;
use crate::request::check_ip_query;
use crate::request::Endpoint;
use crate::request::IpVersion;
use crate::request::QueryPlan;

verus! {

/// One CLI operation, with the per-operation parameters it carries.
#[derive(Clone, Copy, Debug, PartialEq, Eq, Structural)]
pub enum Operation {
    Check { max_age: u16, verbose: bool },
    CheckBlock { max_age: u16 },
    Blacklist { min_confidence: u8, limit: u32, plain: bool, ip_version: Option<IpVersion> },
}

/// Where a run stands.
#[derive(Clone, Copy, Debug, PartialEq, Eq, Structural)]
pub enum Phase {
    Running,
    Completed,
    Aborted,
}

impl Operation {
    /// Whether the operation consumes a target source (one request per line)
    /// rather than issuing a single fetch.
    pub open spec fn is_batch(self) -> bool {
        match self {
            Operation::Blacklist { .. } => false,
            _ => true,
        }
    }

    /// The endpoint the operation addresses.
    pub open spec fn spec_endpoint(self) -> Endpoint {
        match self {
            Operation::Check { .. } => Endpoint::CheckIp,
            Operation::CheckBlock { .. } => Endpoint::CheckBlock,
            Operation::Blacklist { .. } => Endpoint::Blacklist,
        }
    }

    /// The query parameters for one request; batch operations fill the
    /// target in, the blacklist fetch ignores it.
    pub open spec fn spec_params(self, target: Seq<char>) -> Seq<(Seq<char>, Seq<char>)> {
        match self {
            Operation::Check { max_age, verbose } => check_ip_params(target, max_age, verbose),
            Operation::CheckBlock { max_age } => check_block_params(target, max_age),
            Operation::Blacklist { min_confidence, limit, plain, ip_version } => blacklist_params(
                min_confidence,
                limit,
                plain,
                ip_version,
            ),
        }
    }

    /// What normalizing one body yields under this operation.
    pub open spec fn spec_normalize(self, body: Seq<char>) -> Result<Seq<Seq<char>>, ErrorKind> {
        match self {
            Operation::Check { .. } => spec_normalize_single(body),
            Operation::CheckBlock { .. } => spec_normalize_block(body),
            Operation::Blacklist { plain, .. } => if plain {
                Result::Ok(seq![body])
            } else {
                spec_normalize_blacklist(body)
            },
        }
    }
}

/// The output of a whole batch over a sequence of response bodies: the units
/// written before the first normalization failure, and that failure if one
/// arose. Units keep input order, and within one body the service's order.
pub open spec fn spec_batch(op: Operation, bodies: Seq<Seq<char>>) -> (
    Seq<Seq<char>>,
    Option<ErrorKind>,
)
    decreases bodies.len(),
{
    if bodies.len() == 0 {
        (Seq::<Seq<char>>::empty(), Option::<ErrorKind>::None)
    } else {
        match op.spec_normalize(bodies[0]) {
            Result::Err(e) => (Seq::<Seq<char>>::empty(), Option::Some(e)),
            Result::Ok(units) => {
                let rest = spec_batch(op, bodies.drop_first());
                (units + rest.0, rest.1)
            },
        }
    }
}

/// Extending an error-free batch by one more body appends that body's units,
/// or ends the batch with that body's failure.
pub proof fn lemma_batch_snoc(op: Operation, bodies: Seq<Seq<char>>, body: Seq<char>)
    requires
        spec_batch(op, bodies).1 is None,
    ensures
        op.spec_normalize(body) matches Ok(units) ==> spec_batch(op, bodies.push(body)).0
            == spec_batch(op, bodies).0 + units && spec_batch(op, bodies.push(body)).1 is None,
        op.spec_normalize(body) matches Err(e) ==> spec_batch(op, bodies.push(body)).0
            == spec_batch(op, bodies).0 && spec_batch(op, bodies.push(body)).1 == Option::Some(e),
    decreases bodies.len(),
{
    let pushed = bodies.push(body);
    if bodies.len() == 0 {
        assert(pushed[0] == body);
        assert(pushed.drop_first() =~= bodies);
        assert(bodies =~= Seq::<Seq<char>>::empty());
        match op.spec_normalize(body) {
            Result::Ok(units) => {
                assert(spec_batch(op, pushed).0 =~= spec_batch(op, bodies).0 + units);
            },
            Result::Err(_) => {
                assert(spec_batch(op, pushed).0 =~= spec_batch(op, bodies).0);
            },
        }
    } else {
        assert(pushed[0] == bodies[0]);
        assert(pushed.drop_first() =~= bodies.drop_first().push(body));
        lemma_batch_snoc(op, bodies.drop_first(), body);
        match op.spec_normalize(body) {
            Result::Ok(units) => {
                assert(spec_batch(op, pushed).0 =~= spec_batch(op, bodies).0 + units);
            },
            Result::Err(_) => {
                assert(spec_batch(op, pushed).0 =~= spec_batch(op, bodies).0);
            },
        }
    }
}

/// The batch runner. The ghost fields record the run so far: every body a
/// response handed in, and every unit handed out, in order.
pub struct Runner {
    pub op: Operation,
    pub phase: Phase,
    /// The failure that ended the run, once one has.
    pub error: Option<ErrorKind>,
    /// All output units handed to the caller so far, in order.
    pub emitted: Ghost<Seq<Seq<char>>>,
    /// All response bodies accepted so far, in order.
    pub bodies: Ghost<Seq<Seq<char>>>,
}

impl Runner {
    /// The run's invariant: while it has not aborted, what was emitted is
    /// exactly the batch output of the bodies seen, with no failure; for a
    /// single-IP run that is one unit per body. An aborted run records its
    /// failure.
    pub open spec fn wf(self) -> bool {
        &&& (self.phase is Running || self.phase is Completed ==> {
            &&& self.error is None
            &&& spec_batch(self.op, self.bodies@) == (self.emitted@, Option::<ErrorKind>::None)
        })
        &&& (self.phase is Aborted ==> self.error is Some)
        &&& (self.op matches Operation::Check { .. } && !(self.phase is Aborted)
            ==> self.emitted@.len() == self.bodies@.len())
    }

    /// Starts a run in the `Running` phase with nothing seen or emitted.
    pub fn new(op: Operation) -> (r: Runner)
        ensures
            r.wf(),
            r.op == op,
            r.phase is Running,
            r.error is None,
            r.emitted@ == Seq::<Seq<char>>::empty(),
            r.bodies@ == Seq::<Seq<char>>::empty(),
    {
        Runner {
            op,
            phase: Phase::Running,
            error: Option::None,
            emitted: Ghost(Seq::empty()),
            bodies: Ghost(Seq::empty()),
        }
    }

    /// The request to issue for the next target of a batch operation.
    pub fn target_request(&self, target: &str) -> (q: QueryPlan)
        requires
            self.phase is Running,
            self.op.is_batch(),
        ensures
            q.endpoint == self.op.spec_endpoint(),
            q.params_view() == self.op.spec_params(target@),
    {
        match &self.op {
            Operation::Check { max_age, verbose } => check_ip_query(target, *max_age, *verbose),
            Operation::CheckBlock { max_age } => check_block_query(target, *max_age),
            Operation::Blacklist { .. } => unreached(),
        }
    }

    /// The single request of a blacklist run.
    pub fn blacklist_request(&self) -> (q: QueryPlan)
        requires
            self.phase is Running,
            self.op matches Operation::Blacklist { .. },
        ensures
            q.endpoint == Endpoint::Blacklist,
            q.params_view() == self.op.spec_params(Seq::empty()),
    {
        match &self.op {
            Operation::Blacklist { min_confidence, limit, plain, ip_version } => blacklist_query(
                *min_confidence,
                *limit,
                *plain,
                *ip_version,
            ),
            _ => unreached(),
        }
    }

    /// Accepts the response body for the current target of a batch run. On
    /// success the units to write come back and the run goes on; any
    /// normalization failure aborts it with nothing further emitted.
    pub fn accept_response(&mut self, body: &str) -> (r: Result<Vec<String>, ErrorKind>)
        requires
            old(self).wf(),
            old(self).phase is Running,
            old(self).op.is_batch(),
        ensures
            final(self).wf(),
            final(self).op == old(self).op,
            final(self).bodies@ == old(self).bodies@.push(body@),
            units_match(r, old(self).op.spec_normalize(body@)),
            r matches Ok(units) ==> {
                &&& final(self).phase is Running
                &&& final(self).error is None
                &&& final(self).emitted@ == old(self).emitted@ + unit_views(units@)
            },
            r matches Err(e) ==> {
                &&& final(self).phase is Aborted
                &&& final(self).error == Option::Some(e)
                &&& final(self).emitted@ == old(self).emitted@
            },
    {
        proof {
            lemma_batch_snoc(self.op, self.bodies@, body@);
        }
        let result = match self.op {
            Operation::Check { .. } => normalize_single(body),
            Operation::CheckBlock { .. } => normalize_block(body),
            Operation::Blacklist { .. } => unreached(),
        };
        self.bodies = Ghost(self.bodies@.push(body@));
        match result {
            Result::Ok(units) => {
                self.emitted = Ghost(self.emitted@ + unit_views(units@));
                Result::Ok(units)
            },
            Result::Err(e) => {
                self.phase = Phase::Aborted;
                self.error = Option::Some(e);
                Result::Err(e)
            },
        }
    }

    /// Accepts the body of the single blacklist fetch. A plaintext run
    /// always succeeds and hands the body back verbatim as its one unit; a
    /// JSON run emits the array's elements. Success completes the run.
    pub fn accept_blacklist(&mut self, body: &str) -> (r: Result<Vec<String>, ErrorKind>)
        requires
            old(self).wf(),
            old(self).phase is Running,
            old(self).op matches Operation::Blacklist { .. },
        ensures
            final(self).wf(),
            final(self).op == old(self).op,
            final(self).bodies@ == old(self).bodies@.push(body@),
            units_match(r, old(self).op.spec_normalize(body@)),
            old(self).op matches Operation::Blacklist { plain: true, .. } ==> r is Ok,
            r matches Ok(units) ==> {
                &&& final(self).phase is Completed
                &&& final(self).error is None
                &&& final(self).emitted@ == old(self).emitted@ + unit_views(units@)
            },
            r matches Err(e) ==> {
                &&& final(self).phase is Aborted
                &&& final(self).error == Option::Some(e)
                &&& final(self).emitted@ == old(self).emitted@
            },
    {
        proof {
            lemma_batch_snoc(self.op, self.bodies@, body@);
        }
        let plain = match self.op {
            Operation::Blacklist { plain, .. } => plain,
            _ => unreached(),
        };
        let result = if plain {
            Result::Ok(normalize_plaintext(body))
        } else {
            normalize_blacklist(body)
        };
        self.bodies = Ghost(self.bodies@.push(body@));
        match result {
            Result::Ok(units) => {
                self.emitted = Ghost(self.emitted@ + unit_views(units@));
                self.phase = Phase::Completed;
                Result::Ok(units)
            },
            Result::Err(e) => {
                self.phase = Phase::Aborted;
                self.error = Option::Some(e);
                Result::Err(e)
            },
        }
    }

    /// The target source is exhausted: the batch completes.
    pub fn finish(&mut self)
        requires
            old(self).wf(),
            old(self).phase is Running,
        ensures
            final(self).wf(),
            final(self).phase is Completed,
            final(self).op == old(self).op,
            final(self).error is None,
            final(self).emitted@ == old(self).emitted@,
            final(self).bodies@ == old(self).bodies@,
    {
        self.phase = Phase::Completed;
    }

    /// Records a failure that arose outside normalization (input i/o,
    /// transport, non-2xx status) and aborts the run.
    pub fn abort(&mut self, kind: ErrorKind)
        requires
            old(self).wf(),
            old(self).phase is Running,
        ensures
            final(self).wf(),
            final(self).phase is Aborted,
            final(self).op == old(self).op,
            final(self).error == Option::Some(kind),
            final(self).emitted@ == old(self).emitted@,
            final(self).bodies@ == old(self).bodies@,
    {
        self.phase = Phase::Aborted;
        self.error = Option::Some(kind);
    }
}

/// The statuses the client accepts from the service; any other aborts the
/// batch with an HTTP status failure.
pub fn status_is_success(status: u16) -> (r: bool)
    ensures
        r <==> 200 <= status < 300,
{
    status >= 200 && status < 300
}

/// An error-free single-IP batch writes exactly one unit per response, in
/// input order: each response's `data` object, unchanged.
pub proof fn lemma_check_batch_one_per_target(max_age: u16, verbose: bool, bodies: Seq<Seq<char>>)
    requires
        forall|i: int| 0 <= i < bodies.len() ==> #[trigger] spec_normalize_single(bodies[i]) is Ok,
    ensures
        spec_batch(Operation::Check { max_age, verbose }, bodies).1 is None,
        spec_batch(Operation::Check { max_age, verbose }, bodies).0.len() == bodies.len(),
        forall|i: int|
            0 <= i < bodies.len() ==> spec_batch(Operation::Check { max_age, verbose }, bodies).0[i]
                == spec_envelope_data(#[trigger] bodies[i]).unwrap(),
    decreases bodies.len(),
{
    let op = Operation::Check { max_age, verbose };
    if bodies.len() > 0 {
        assert(spec_normalize_single(bodies[0]) is Ok);
        let tail = bodies.drop_first();
        assert forall|i: int| 0 <= i < tail.len() implies #[trigger] spec_normalize_single(
            tail[i],
        ) is Ok by {
            assert(tail[i] == bodies[i + 1]);
        }
        lemma_check_batch_one_per_target(max_age, verbose, tail);
        let head = op.spec_normalize(bodies[0]).unwrap();
        let rest = spec_batch(op, tail);
        assert forall|i: int| 0 <= i < bodies.len() implies spec_batch(op, bodies).0[i]
            == spec_envelope_data(#[trigger] bodies[i]).unwrap() by {
            if i == 0 {
                assert((head + rest.0)[0] == head[0]);
            } else {
                assert((head + rest.0)[i] == rest.0[i - 1]);
                assert(tail[i - 1] == bodies[i]);
            }
        }
    }
}

/// The total unit count of an error-free CIDR block batch: the sum of the
/// per-target `reportedAddress` lengths.
pub open spec fn spec_block_units_total(bodies: Seq<Seq<char>>) -> nat
    decreases bodies.len(),
{
    if bodies.len() == 0 {
        0
    } else {
        spec_normalize_block(bodies[0]).unwrap().len() + spec_block_units_total(bodies.drop_first())
    }
}

/// An error-free CIDR block batch completes, with as many units as the
/// per-target arrays hold together, in input order.
pub proof fn lemma_block_batch_total(max_age: u16, bodies: Seq<Seq<char>>)
    requires
        forall|i: int| 0 <= i < bodies.len() ==> #[trigger] spec_normalize_block(bodies[i]) is Ok,
    ensures
        spec_batch(Operation::CheckBlock { max_age }, bodies).1 is None,
        spec_batch(Operation::CheckBlock { max_age }, bodies).0.len() == spec_block_units_total(
            bodies,
        ),
    decreases bodies.len(),
{
    if bodies.len() > 0 {
        assert(spec_normalize_block(bodies[0]) is Ok);
        let tail = bodies.drop_first();
        assert forall|i: int| 0 <= i < tail.len() implies #[trigger] spec_normalize_block(
            tail[i],
        ) is Ok by {
            assert(tail[i] == bodies[i + 1]);
        }
        lemma_block_batch_total(max_age, tail);
    }
}

proof fn lemma_block_total_take_step(bodies: Seq<Seq<char>>, i: int)
    requires
        1 <= i <= bodies.len(),
        spec_normalize_block(bodies[0]) is Ok,
    ensures
        spec_block_units_total(bodies.take(i)) == spec_normalize_block(
            bodies[0],
        ).unwrap().len() + spec_block_units_total(bodies.drop_first().take(i - 1)),
{
    assert(bodies.take(i)[0] == bodies[0]);
    assert(bodies.take(i).drop_first() =~= bodies.drop_first().take(i - 1));
}

/// Where the units of one target stand inside an error-free CIDR block
/// batch: contiguously, right after all the units of the targets before it,
/// in the service's order.
pub proof fn lemma_block_batch_order(max_age: u16, bodies: Seq<Seq<char>>, i: int)
    requires
        forall|j: int| 0 <= j < bodies.len() ==> #[trigger] spec_normalize_block(bodies[j]) is Ok,
        0 <= i < bodies.len(),
    ensures
        ({
            let out = spec_batch(Operation::CheckBlock { max_age }, bodies).0;
            let off = spec_block_units_total(bodies.take(i)) as int;
            let ui = spec_normalize_block(bodies[i]).unwrap();
            &&& off + ui.len() <= out.len()
            &&& out.subrange(off, off + ui.len() as int) == ui
        }),
    decreases i,
{
    let op = Operation::CheckBlock { max_age };
    let out = spec_batch(op, bodies).0;
    assert(spec_normalize_block(bodies[0]) is Ok);
    let head = op.spec_normalize(bodies[0]).unwrap();
    let tail = bodies.drop_first();
    let out_tail = spec_batch(op, tail).0;
    if i == 0 {
        assert(bodies.take(0) =~= Seq::<Seq<char>>::empty());
        assert(head == spec_normalize_block(bodies[0]).unwrap());
        assert(out.subrange(0, head.len() as int) =~= head);
    } else {
        assert forall|j: int| 0 <= j < tail.len() implies #[trigger] spec_normalize_block(
            tail[j],
        ) is Ok by {
            assert(tail[j] == bodies[j + 1]);
        }
        lemma_block_batch_order(max_age, tail, i - 1);
        lemma_block_total_take_step(bodies, i);
        let off = spec_block_units_total(bodies.take(i)) as int;
        let off_tail = spec_block_units_total(tail.take(i - 1)) as int;
        assert(tail[i - 1] == bodies[i]);
        let ui = spec_normalize_block(bodies[i]).unwrap();
        assert(off == head.len() + off_tail);
        assert(out.subrange(off, off + ui.len() as int) =~= out_tail.subrange(
            off_tail,
            off_tail + ui.len() as int,
        ));
    }
}

/// Re-running a batch with an unchanged target list against unchanged remote
/// data (the same response bodies, in the same order) produces identical
/// output units and the identical outcome.
pub proof fn lemma_batch_rerun(
    op: Operation,
    first_run: Seq<Seq<char>>,
    second_run: Seq<Seq<char>>,
)
    requires
        first_run == second_run,
    ensures
        spec_batch(op, first_run) == spec_batch(op, second_run),
{
}

} // verus!
