use vstd::prelude::*;
use crate::records::{Record, RecordType, views, copy_prefix};

verus! {

/// A provider operation.
#[derive(Clone, Copy, Debug, PartialEq, Eq, Structural)]
pub enum Op {
    Delete,
    Create,
}

/// A provider call as the contracts see it: the operation and the index of
/// the record it applies to.
pub struct PlannedCall {
    pub op: Op,
    pub record: nat,
}

/// The calls made for record `i`: delete, then create unless clearing.
pub open spec fn record_calls(i: nat, clear: bool) -> Seq<PlannedCall> {
    if clear {
        seq![PlannedCall { op: Op::Delete, record: i }]
    } else {
        seq![PlannedCall { op: Op::Delete, record: i }, PlannedCall { op: Op::Create, record: i }]
    }
}

/// The full sequence of provider calls for `n` records, record after record.
pub open spec fn plan(n: nat, clear: bool) -> Seq<PlannedCall>
    decreases n,
{
    if n == 0 {
        Seq::empty()
    } else {
        plan((n - 1) as nat, clear) + record_calls((n - 1) as nat, clear)
    }
}

/// The `p`-th call of the plan in closed form.
pub open spec fn call_at(p: int, clear: bool) -> PlannedCall {
    if clear {
        PlannedCall { op: Op::Delete, record: p as nat }
    } else {
        PlannedCall { op: if p % 2 == 0 { Op::Delete } else { Op::Create }, record: (p / 2) as nat }
    }
}

/// Number of provider calls each record takes.
pub open spec fn calls_per_record(clear: bool) -> nat {
    if clear { 1 } else { 2 }
}

proof fn lemma_plan_closed_form(n: nat, clear: bool)
    ensures
        plan(n, clear).len() == n * calls_per_record(clear),
        forall|p: int| 0 <= p < plan(n, clear).len() ==> #[trigger] plan(n, clear)[p] == call_at(p, clear),
    decreases n,
{
    if n > 0 {
        let m = (n - 1) as nat;
        lemma_plan_closed_form(m, clear);
        let k = calls_per_record(clear);
        assert(n * k == m * k + k) by (nonlinear_arith)
            requires n == m + 1;
        assert forall|p: int| 0 <= p < plan(n, clear).len() implies #[trigger] plan(n, clear)[p] == call_at(p, clear) by {
            if p < plan(m, clear).len() {
                assert(plan(n, clear)[p] == plan(m, clear)[p]);
            } else {
                assert(plan(n, clear)[p] == record_calls(m, clear)[p - m * k]);
                if !clear {
                    assert(p / 2 == m && p % 2 == p - 2 * m);
                }
            }
        }
    }
}

/// A successful update makes exactly two provider calls per record: the
/// delete of record `i`, then its create, before any call of record `i + 1`.
pub proof fn lemma_update_calls(n: nat)
    ensures
        plan(n, false).len() == 2 * n,
        forall|i: int| 0 <= i < n ==> #[trigger] plan(n, false)[2 * i] == (PlannedCall { op: Op::Delete, record: i as nat }),
        forall|i: int| 0 <= i < n ==> #[trigger] plan(n, false)[2 * i + 1] == (PlannedCall { op: Op::Create, record: i as nat }),
{
    lemma_plan_closed_form(n, false);
    assert forall|i: int| 0 <= i < n implies #[trigger] plan(n, false)[2 * i] == (PlannedCall { op: Op::Delete, record: i as nat }) by {
        assert((2 * i) / 2 == i && (2 * i) % 2 == 0);
    }
    assert forall|i: int| 0 <= i < n implies #[trigger] plan(n, false)[2 * i + 1] == (PlannedCall { op: Op::Create, record: i as nat }) by {
        assert((2 * i + 1) / 2 == i && (2 * i + 1) % 2 == 1);
    }
}

/// Clearing makes exactly one provider call per record: its delete.
pub proof fn lemma_clear_calls(n: nat)
    ensures
        plan(n, true).len() == n,
        forall|i: int| 0 <= i < n ==> #[trigger] plan(n, true)[i] == (PlannedCall { op: Op::Delete, record: i as nat }),
{
    lemma_plan_closed_form(n, true);
}

/// When the call at position `f` fails, every call made before it belongs to
/// its record or an earlier one, every call of an earlier record was made
/// before it, and no later record was touched.
pub proof fn lemma_failure_stops_in_order(n: nat, clear: bool, f: int)
    requires
        0 <= f < plan(n, clear).len(),
    ensures
        forall|j: int| 0 <= j <= f ==> (#[trigger] plan(n, clear)[j]).record <= plan(n, clear)[f].record,
        forall|j: int| 0 <= j < plan(n, clear).len() && (#[trigger] plan(n, clear)[j]).record < plan(n, clear)[f].record ==> j < f,
        forall|j: int| 0 <= j < f && (#[trigger] plan(n, clear)[j]).record == plan(n, clear)[f].record ==> plan(n, clear)[j].op == Op::Delete && plan(n, clear)[f].op == Op::Create,
{
    lemma_plan_closed_form(n, clear);
}


/// HTTP status of a fully applied request.
pub const STATUS_OK: u16 = 200;

/// HTTP status of a request whose token does not pass.
pub const STATUS_UNAUTHORIZED: u16 = 401;

/// HTTP status of a request where a provider call failed.
pub const STATUS_INTERNAL_ERROR: u16 = 500;

/// What one request answers: the HTTP status, a message, the fully-qualified
/// name, the clear flag and the records applied.
#[derive(Debug)]
pub struct Response {
    pub status: u16,
    pub message: String,
    pub domain: String,
    pub clear: bool,
    pub records: Vec<Record>,
}

/// Assembles a response.
pub fn response(status: u16, message: &str, domain: &str, records: Vec<Record>, clear: bool) -> (r:
    Response)
    ensures
        r.status == status,
        r.message@ == message@,
        r.domain@ == domain@,
        r.records@ == records@,
        r.clear == clear,
{
    Response {
        status,
        message: String::from_str(message),
        domain: String::from_str(domain),
        clear,
        records,
    }
}

/// The word that describes a successful reconciliation in the log.
pub fn action_label(clear: bool) -> (r: &'static str)
    ensures
        r@ == (if clear { "deleted"@ } else { "updated"@ }),
{
    if clear {
        "deleted"
    } else {
        "updated"
    }
}

/// A call for the provider to make.
#[derive(Debug)]
pub struct ProviderCall {
    pub op: Op,
    pub subdomain: String,
    pub record_type: RecordType,
    pub content: String,
}

/// The delete-then-create sequence of one request, record after record, as
/// a state machine: `next_call` names the provider call to make, and
/// `record_success` or `record_failure` reports how it went. The first failure
/// ends the sequence; nothing done before it is rolled back.
#[derive(Debug)]
pub struct Reconciler {
    /// The subdomain relative to the root, as the provider wants it.
    pub subdomain: String,
    /// The fully-qualified target name.
    pub domain: String,
    pub records: Vec<Record>,
    pub clear: bool,
    /// Number of calls of the plan that succeeded.
    pub pos: usize,
    pub failed: bool,
    /// The provider's confirmations, in the order of the calls.
    pub trace: Vec<String>,
}

impl Reconciler {
    /// The provider calls this reconciliation makes when all succeed.
    pub open spec fn planned(&self) -> Seq<PlannedCall> {
        plan(self.records@.len(), self.clear)
    }

    /// The position lies within the plan, a failure stops at a call of it, and
    /// one confirmation is kept per successful call.
    pub open spec fn wf(&self) -> bool {
        &&& self.records@.len() * 2 <= usize::MAX
        &&& self.pos <= self.planned().len()
        &&& self.failed ==> self.pos < self.planned().len()
        &&& self.trace@.len() == self.pos
    }

    /// No further call is to be made.
    pub open spec fn is_finished(&self) -> bool {
        self.failed || self.pos == self.planned().len()
    }

    /// The call to make next, when the sequence is not finished.
    pub open spec fn pending(&self) -> PlannedCall {
        self.planned()[self.pos as int]
    }

    /// Starts the reconciliation of `records` under `subdomain`.
    pub fn new(subdomain: String, domain: String, records: Vec<Record>, clear: bool) -> (r: Self)
        requires
            records@.len() * 2 <= usize::MAX,
        ensures
            r.wf(),
            r.subdomain == subdomain,
            r.domain == domain,
            r.records == records,
            r.clear == clear,
            r.pos == 0,
            !r.failed,
    {
        proof {
            lemma_plan_closed_form(records@.len(), clear);
        }
        Reconciler { subdomain, domain, records, clear, pos: 0, failed: false, trace: Vec::new() }
    }

    /// Number of calls in the plan.
    fn plan_len(&self) -> (r: usize)
        requires
            self.wf(),
        ensures
            r == self.planned().len(),
    {
        proof {
            lemma_plan_closed_form(self.records@.len(), self.clear);
        }
        if self.clear {
            self.records.len()
        } else {
            2 * self.records.len()
        }
    }

    /// Whether no further call is to be made.
    pub fn finished(&self) -> (r: bool)
        requires
            self.wf(),
        ensures
            r == self.is_finished(),
    {
        self.failed || self.pos == self.plan_len()
    }

    /// Index of the record the next call applies to.
    pub fn current_record(&self) -> (r: usize)
        requires
            self.wf(),
            self.pos < self.planned().len(),
        ensures
            r == self.pending().record,
            r < self.records@.len(),
    {
        proof {
            lemma_plan_closed_form(self.records@.len(), self.clear);
        }
        if self.clear {
            self.pos
        } else {
            self.pos / 2
        }
    }

    /// The provider call to make next, or `None` when the sequence is over.
    pub fn next_call(&self) -> (r: Option<ProviderCall>)
        requires
            self.wf(),
        ensures
            r is None <==> self.is_finished(),
            r matches Some(c) ==> {
                &&& c.op == self.pending().op
                &&& c.subdomain@ == self.subdomain@
                &&& c.record_type == self.records@[self.pending().record as int].record_type
                &&& c.content@ == self.records@[self.pending().record as int].content@
            },
    {
        if self.finished() {
            return None;
        }
        proof {
            lemma_plan_closed_form(self.records@.len(), self.clear);
        }
        let i = self.current_record();
        let op = if self.clear || self.pos % 2 == 0 {
            Op::Delete
        } else {
            Op::Create
        };
        let rec = &self.records[i];
        Some(
            ProviderCall {
                op,
                subdomain: self.subdomain.clone(),
                record_type: rec.record_type,
                content: rec.content.clone(),
            },
        )
    }

    /// Reports that the pending call succeeded with `confirmation`.
    pub fn record_success(&mut self, confirmation: String)
        requires
            old(self).wf(),
            !old(self).is_finished(),
        ensures
            final(self).wf(),
            final(self).pos == old(self).pos + 1,
            final(self).trace@ == old(self).trace@.push(confirmation),
            !final(self).failed,
            final(self).records == old(self).records,
            final(self).clear == old(self).clear,
            final(self).subdomain == old(self).subdomain,
            final(self).domain == old(self).domain,
    {
        proof {
            lemma_plan_closed_form(self.records@.len(), self.clear);
        }
        self.trace.push(confirmation);
        self.pos = self.pos + 1;
    }

    /// Reports that the pending call failed: the sequence ends there.
    pub fn record_failure(&mut self)
        requires
            old(self).wf(),
            !old(self).is_finished(),
        ensures
            final(self).wf(),
            final(self).failed,
            final(self).pos == old(self).pos,
            final(self).trace == old(self).trace,
            final(self).records == old(self).records,
            final(self).clear == old(self).clear,
            final(self).subdomain == old(self).subdomain,
            final(self).domain == old(self).domain,
    {
        self.failed = true;
    }

    /// The provider's confirmations so far.
    pub fn confirmations(&self) -> (r: &Vec<String>)
        ensures
            r == &self.trace,
    {
        &self.trace
    }

    /// The response of a finished sequence: `200` with every record when all
    /// calls succeeded; `500` with the records up to the failing one otherwise.
    pub fn finish(&self) -> (r: Response)
        requires
            self.wf(),
            self.is_finished(),
        ensures
            r.domain@ == self.domain@,
            r.clear == self.clear,
            !self.failed ==> {
                &&& r.status == STATUS_OK
                &&& r.message@ == "OK"@
                &&& views(r.records@) == views(self.records@)
            },
            self.failed ==> {
                &&& r.status == STATUS_INTERNAL_ERROR
                &&& r.message@ == "Internal Server Error"@
                &&& views(r.records@) == views(self.records@).subrange(
                    0,
                    (self.pending().record + 1) as int,
                )
            },
    {
        if self.failed {
            let i = self.current_record();
            response(
                STATUS_INTERNAL_ERROR,
                "Internal Server Error",
                self.domain.as_str(),
                copy_prefix(&self.records, i + 1),
                self.clear,
            )
        } else {
            let all = copy_prefix(&self.records, self.records.len());
            proof {
                assert(views(self.records@).subrange(0, self.records@.len() as int) =~= views(
                    self.records@,
                ));
            }
            response(STATUS_OK, "OK", self.domain.as_str(), all, self.clear)
        }
    }
}

} // verus!
