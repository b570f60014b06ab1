use vstd::prelude::*;
use vstd::string::*;
use crate::error::{http_error_text, ErrorWrapper};
use crate::strategy::Strategy;
use crate::target::{indexed_url, parse_target, target_string, url_accepted};
use crate::text::{decimal, format_line, line_text, push_decimal};

verus! {

/// What became of one request.
pub enum Outcome {
    /// The response body, read on the execution context named.
    Response { context: String, body: String },
    /// The request failed.
    Failure { error: ErrorWrapper },
}

/// What the driver of a run does next.
pub enum Action {
    /// Issue request `index`. `target` is its parsed address, or the failure
    /// that the request ends with when the address is not a URL.
    Send { index: usize, target: Result<reqwest::Url, ErrorWrapper> },
    /// Wait for request `index` and report its outcome.
    Collect { index: usize },
    /// All requests are reported: measure the elapsed time and report it.
    Finish,
    /// The run is over.
    Done,
}

/// The text of the line that closes a run.
pub open spec fn end_text(elapsed_ms: nat) -> Seq<char> {
    "END: "@ + decimal(elapsed_ms)
}

/// `l` is a line that reports `outcome` in a run on execution context
/// `context`: a response names the context that read it, a failure the run's.
pub open spec fn reports(context: Seq<char>, outcome: Outcome, l: Seq<char>) -> bool {
    match outcome {
        Outcome::Response { context: c, body } => l == line_text(c@, body@),
        Outcome::Failure { error } => exists|d: Seq<char>|
            error.describes(d) && l == line_text(context, d),
    }
}

/// The decisions of one run: which request to issue or await next, and the
/// output lines so far. Request `k` goes to `base/k`, is issued as the `k`-th
/// and collected as the `k`-th; every collected request adds exactly one line.
pub struct Run {
    strategy: Strategy,
    base: String,
    context: String,
    total: usize,
    issued: usize,
    collected: usize,
    finished: bool,
    lines: Vec<String>,
    requested: Ghost<nat>,
    targets: Ghost<Seq<Seq<char>>>,
    outcomes: Ghost<Seq<Outcome>>,
    elapsed: Ghost<nat>,
}

impl Run {
    pub closed spec fn strategy(&self) -> Strategy {
        self.strategy
    }

    /// The base address of the requests.
    pub closed spec fn base(&self) -> Seq<char> {
        self.base@
    }

    /// The execution context of the run itself, which its own lines name.
    pub closed spec fn context(&self) -> Seq<char> {
        self.context@
    }

    /// How many requests the run was asked to make.
    pub closed spec fn requested(&self) -> nat {
        self.requested@
    }

    /// How many requests the run makes.
    pub closed spec fn total(&self) -> nat {
        self.total as nat
    }

    /// How many requests have been issued.
    pub closed spec fn issued(&self) -> nat {
        self.issued as nat
    }

    /// How many requests have been collected and reported.
    pub closed spec fn collected(&self) -> nat {
        self.collected as nat
    }

    /// Whether the closing line has been written.
    pub closed spec fn finished(&self) -> bool {
        self.finished
    }

    /// The addresses of the issued requests, in the order of issue.
    pub closed spec fn targets(&self) -> Seq<Seq<char>> {
        self.targets@
    }

    /// The outcomes of the collected requests, in the order of collection.
    pub closed spec fn outcomes(&self) -> Seq<Outcome> {
        self.outcomes@
    }

    /// The elapsed time that the closing line reports.
    pub closed spec fn elapsed(&self) -> nat {
        self.elapsed@
    }

    /// The output lines so far.
    pub closed spec fn lines(&self) -> Seq<Seq<char>> {
        self.lines@.map_values(|s: String| s@)
    }

    pub open spec fn wf(&self) -> bool {
        &&& self.total() == self.strategy().spec_request_count(self.requested())
        &&& self.collected() <= self.issued() <= self.total()
        &&& !self.strategy().spec_overlaps() ==> self.issued() <= self.collected() + 1
        &&& self.finished() ==> self.collected() == self.total()
        &&& self.lines().len() == 1 + self.collected() + if self.finished() { 1nat } else { 0nat }
        &&& self.lines()[0] == line_text(self.context(), self.strategy().spec_start_label())
        &&& self.targets().len() == self.issued()
        &&& forall|k: int| 0 <= k < self.issued() ==> #[trigger] self.targets()[k] == indexed_url(self.base(), k as nat)
        &&& self.outcomes().len() == self.collected()
        &&& forall|k: int| 0 <= k < self.collected() ==>
            reports(self.context(), #[trigger] self.outcomes()[k], self.lines()[k + 1])
        &&& self.finished() ==> self.lines().last() == line_text(self.context(), end_text(self.elapsed()))
    }

    /// Whether the next request may be issued now.
    pub open spec fn can_send(&self) -> bool {
        &&& self.issued() < self.total()
        &&& self.strategy().spec_overlaps() || self.issued() == self.collected()
    }

    /// Starts a run of `strategy` that asks for `count` requests to `base`,
    /// on the execution context `context`; its first line opens the run.
    pub fn new(strategy: Strategy, count: usize, base: &str, context: &str) -> (r: Run)
        ensures
            r.wf(),
            r.strategy() == strategy,
            r.base() == base@,
            r.context() == context@,
            r.requested() == count,
            r.total() == strategy.spec_request_count(count as nat),
            r.issued() == 0,
            r.collected() == 0,
            !r.finished(),
            r.lines() == seq![line_text(context@, strategy.spec_start_label())],
    {
        let label = strategy.start_label();
        let first = format_line(context, label.as_str());
        let mut lines: Vec<String> = Vec::new();
        lines.push(first);
        let r = Run {
            strategy,
            base: String::from_str(base),
            context: String::from_str(context),
            total: strategy.request_count(count),
            issued: 0,
            collected: 0,
            finished: false,
            lines,
            requested: Ghost(count as nat),
            targets: Ghost(Seq::empty()),
            outcomes: Ghost(Seq::empty()),
            elapsed: Ghost(0),
        };
        assert(r.lines() =~= seq![line_text(context@, strategy.spec_start_label())]);
        r
    }

    /// What the driver does next.
    pub fn next_action(&self) -> (r: Action)
        requires
            self.wf(),
        ensures
            r is Send <==> self.can_send(),
            r is Collect <==> !self.can_send() && self.collected() < self.issued(),
            r is Finish <==> !self.can_send() && self.collected() == self.issued() && !self.finished(),
            r is Done <==> self.finished(),
            r is Send ==> r->Send_index == self.issued()
                && (r->Send_target is Ok <==> url_accepted(indexed_url(self.base(), self.issued())))
                && (r->Send_target is Err ==> (r->Send_target->Err_0 matches ErrorWrapper::InvalidUrl { text }
                    && text@ == indexed_url(self.base(), self.issued()))),
            r is Collect ==> r->Collect_index == self.collected(),
    {
        if self.issued < self.total && (matches!(self.strategy, Strategy::PooledThreads { .. }) || self.issued == self.collected) {
            let text = target_string(self.base.as_str(), self.issued);
            Action::Send { index: self.issued, target: parse_target(text.as_str()) }
        } else if self.collected < self.issued {
            Action::Collect { index: self.collected }
        } else if !self.finished {
            Action::Finish
        } else {
            Action::Done
        }
    }

    /// Notes that the next request, to `base/issued`, has been issued.
    pub fn sent(&mut self)
        requires
            old(self).wf(),
            old(self).can_send(),
        ensures
            final(self).wf(),
            final(self).issued() == old(self).issued() + 1,
            final(self).targets() == old(self).targets().push(indexed_url(old(self).base(), old(self).issued())),
            final(self).strategy() == old(self).strategy(),
            final(self).base() == old(self).base(),
            final(self).context() == old(self).context(),
            final(self).requested() == old(self).requested(),
            final(self).total() == old(self).total(),
            final(self).collected() == old(self).collected(),
            final(self).outcomes() == old(self).outcomes(),
            final(self).finished() == old(self).finished(),
            final(self).lines() == old(self).lines(),
    {
        self.targets = Ghost(self.targets@.push(indexed_url(self.base@, self.issued as nat)));
        self.issued = self.issued + 1;
    }

    /// Reports the outcome of the oldest request not yet collected: one line.
    pub fn record(&mut self, outcome: Outcome)
        requires
            old(self).wf(),
            old(self).collected() < old(self).issued(),
        ensures
            final(self).wf(),
            final(self).collected() == old(self).collected() + 1,
            final(self).outcomes() == old(self).outcomes().push(outcome),
            final(self).lines().len() == old(self).lines().len() + 1,
            final(self).lines().drop_last() == old(self).lines(),
            reports(old(self).context(), outcome, final(self).lines().last()),
            final(self).strategy() == old(self).strategy(),
            final(self).base() == old(self).base(),
            final(self).context() == old(self).context(),
            final(self).requested() == old(self).requested(),
            final(self).total() == old(self).total(),
            final(self).issued() == old(self).issued(),
            final(self).targets() == old(self).targets(),
            final(self).finished() == old(self).finished(),
    {
        let ghost logged = self.outcomes@.push(outcome);
        let l = match &outcome {
            Outcome::Response { context, body } => format_line(context.as_str(), body.as_str()),
            Outcome::Failure { error } => {
                let d = error.description();
                let l = format_line(self.context.as_str(), d.as_str());
                assert(error.describes(d@) && l@ == line_text(self.context@, d@));
                l
            },
        };
        let ghost line = l@;
        assert(reports(self.context@, outcome, line));
        self.lines.push(l);
        self.collected = self.collected + 1;
        self.outcomes = Ghost(logged);
        assert(self.lines().drop_last() =~= old(self).lines());
        assert forall|k: int| 0 <= k < self.collected() implies
            reports(self.context(), #[trigger] self.outcomes()[k], self.lines()[k + 1]) by {
            if k < old(self).collected() {
                assert(self.lines()[k + 1] == old(self).lines()[k + 1]);
            }
        }
    }

    /// Writes the closing line with the elapsed time of the run.
    pub fn finish(&mut self, elapsed_ms: u128)
        requires
            old(self).wf(),
            old(self).collected() == old(self).total(),
            !old(self).finished(),
        ensures
            final(self).wf(),
            final(self).finished(),
            final(self).elapsed() == elapsed_ms,
            final(self).lines() == old(self).lines().push(line_text(old(self).context(), end_text(elapsed_ms as nat))),
            final(self).strategy() == old(self).strategy(),
            final(self).base() == old(self).base(),
            final(self).context() == old(self).context(),
            final(self).requested() == old(self).requested(),
            final(self).total() == old(self).total(),
            final(self).issued() == old(self).issued(),
            final(self).collected() == old(self).collected(),
            final(self).targets() == old(self).targets(),
            final(self).outcomes() == old(self).outcomes(),
    {
        let mut text = String::from_str("END: ");
        proof { reveal_strlit("END: "); }
        push_decimal(&mut text, elapsed_ms);
        let l = format_line(self.context.as_str(), text.as_str());
        self.lines.push(l);
        self.finished = true;
        self.elapsed = Ghost(elapsed_ms as nat);
        assert(self.lines() =~= old(self).lines().push(line_text(old(self).context(), end_text(elapsed_ms as nat))));
        assert forall|k: int| 0 <= k < self.collected() implies
            reports(self.context(), #[trigger] self.outcomes()[k], self.lines()[k + 1]) by {
            assert(self.lines()[k + 1] == old(self).lines()[k + 1]);
        }
    }

    /// The output lines so far.
    pub fn output(&self) -> (r: &Vec<String>)
        ensures
            r@.map_values(|s: String| s@) == self.lines(),
    {
        &self.lines
    }
}

/// A finished sequential run made exactly the requests asked for, to
/// `base/0`, `base/1`, ... in ascending order, one at a time; its lines are
/// the opening line, the report of request `k` at position `k + 1`, and the
/// closing line.
pub proof fn lemma_sequential_in_order(run: Run)
    requires
        run.wf(),
        run.strategy() == Strategy::Sequential,
        run.finished(),
    ensures
        run.targets() == Seq::new(run.requested(), |k: int| indexed_url(run.base(), k as nat)),
        run.outcomes().len() == run.requested(),
        run.lines().len() == run.requested() + 2,
        forall|k: int| 0 <= k < run.requested() ==>
            reports(run.context(), #[trigger] run.outcomes()[k], run.lines()[k + 1]),
{
    assert(run.targets() =~= Seq::new(run.requested(), |k: int| indexed_url(run.base(), k as nat)));
}

/// A sequential run has at most one request in flight: the next request is
/// issued only once every earlier one is collected.
pub proof fn lemma_sequential_one_at_a_time(run: Run)
    requires
        run.wf(),
        run.strategy() == Strategy::Sequential,
    ensures
        run.collected() <= run.issued() <= run.collected() + 1,
        run.can_send() ==> run.issued() == run.collected(),
{
}

/// Every request yields exactly one line, success or failure: a finished run
/// of any strategy has the opening line, one line per request it makes, and
/// the closing line.
pub proof fn lemma_one_line_per_request(run: Run)
    requires
        run.wf(),
        run.finished(),
    ensures
        run.outcomes().len() == run.strategy().spec_request_count(run.requested()),
        run.lines().len() == run.strategy().spec_request_count(run.requested()) + 2,
        forall|k: int| 0 <= k < run.outcomes().len() ==>
            reports(run.context(), #[trigger] run.outcomes()[k], run.lines()[k + 1]),
{
}

/// An async/await run makes two requests, to `base/0` and `base/1`, one at
/// a time, whatever count it was asked for.
pub proof fn lemma_async_makes_two(run: Run)
    requires
        run.wf(),
        run.strategy() == Strategy::AsyncAwait,
    ensures
        run.total() == 2,
        run.issued() <= run.collected() + 1,
        run.finished() ==> run.targets() == seq![indexed_url(run.base(), 0), indexed_url(run.base(), 1)],
{
    if run.finished() {
        assert(run.targets() =~= seq![indexed_url(run.base(), 0), indexed_url(run.base(), 1)]);
    }
}

/// Two finished sequential runs asked for the same count against the same
/// base issue the same requests in the same order; where the server answers
/// each request with the same body both times, the result lines carry the
/// same bodies in the same order, and differ at most in the context named.
pub proof fn lemma_sequential_repeatable(a: Run, b: Run)
    requires
        a.wf(),
        b.wf(),
        a.strategy() == Strategy::Sequential,
        b.strategy() == Strategy::Sequential,
        a.finished(),
        b.finished(),
        a.requested() == b.requested(),
        a.base() == b.base(),
    ensures
        a.targets() == b.targets(),
        a.lines().len() == b.lines().len(),
        forall|k: int| 0 <= k < a.requested()
            && #[trigger] a.outcomes()[k] is Response && b.outcomes()[k] is Response
            && a.outcomes()[k]->Response_body@ == b.outcomes()[k]->Response_body@
            ==> a.lines()[k + 1] == line_text(a.outcomes()[k]->Response_context@, a.outcomes()[k]->Response_body@)
                && b.lines()[k + 1] == line_text(b.outcomes()[k]->Response_context@, a.outcomes()[k]->Response_body@),
{
    assert(a.targets() =~= b.targets());
}

/// `l` is a failure line that names `context` and a wrapped transport error.
pub open spec fn transport_failure_line(context: Seq<char>, l: Seq<char>) -> bool {
    exists|inner: Seq<char>| l == line_text(context, http_error_text(inner))
}

/// A finished run whose requests all failed in transport has one failure
/// line per request, each naming the run's context and the wrapped transport
/// error, and ends with the closing line.
pub proof fn lemma_failures_reported(run: Run)
    requires
        run.wf(),
        run.finished(),
        forall|k: int| 0 <= k < run.outcomes().len() ==>
            (#[trigger] run.outcomes()[k] matches Outcome::Failure { error } && error is HttpRequestError),
    ensures
        run.lines().len() == run.total() + 2,
        forall|k: int| 0 <= k < run.total() ==> transport_failure_line(run.context(), #[trigger] run.lines()[k + 1]),
        run.lines().last() == line_text(run.context(), end_text(run.elapsed())),
{
    assert forall|k: int| 0 <= k < run.total() implies transport_failure_line(run.context(), #[trigger] run.lines()[k + 1]) by {
        let o = run.outcomes()[k];
        assert(reports(run.context(), o, run.lines()[k + 1]));
        let d = choose|d: Seq<char>| o->Failure_error.describes(d) && run.lines()[k + 1] == line_text(run.context(), d);
        let inner = choose|inner: Seq<char>| d == http_error_text(inner);
        assert(run.lines()[k + 1] == line_text(run.context(), http_error_text(inner)));
    }
}

} // verus!
