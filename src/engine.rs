//! The fallback engine: which attempt comes next, and what a run of
//! attempt results decides.
//!
//! The engine performs no I/O. Its driver asks it for the next attempt, makes
//! the DNS exchange, and hands the outcome back, until the engine decides.
use vstd::prelude::*;

use crate::addr::IpAddr;
use crate::answer::{parse_answer, parsed, QueryMethod, RecordData};
use crate::catalog::{all, is_catalog, plan, plan_of, Attempt, Resolver};
use crate::error::Error;
use crate::AddrVersion;

use hickory_client::proto::ProtoError;

verus! {

/// What one attempt comes to: the address read from the response by
/// `method`, the reading's error, or the client's error.
pub open spec fn attempt_result(
    outcome: Result<Vec<RecordData>, ProtoError>,
    method: QueryMethod,
) -> Result<IpAddr, Error> {
    match outcome {
        Ok(answers) => parsed(answers@, method),
        Err(e) => Err(Error::Dns(e)),
    }
}

/// What an address read from a response decides: the address itself where
/// `version` accepts it, else the fatal `Version` error.
pub open spec fn decide(version: AddrVersion, addr: IpAddr) -> Result<IpAddr, Error> {
    if version.accepts(addr) {
        Ok(addr)
    } else {
        Err(Error::Version)
    }
}

/// What the attempt results `results` decide, in order, where `last` is the
/// error remembered so far: the first address decides, and an error only
/// replaces the remembered one.
pub open spec fn settle_from(
    version: AddrVersion,
    results: Seq<Result<IpAddr, Error>>,
    last: Error,
) -> Result<IpAddr, Error>
    decreases results.len(),
{
    if results.len() == 0 {
        Err(last)
    } else {
        match results[0] {
            Ok(a) => decide(version, a),
            Err(e) => settle_from(version, results.drop_first(), e),
        }
    }
}

/// What resolving `version` returns after the attempt results `results`.
pub open spec fn settle(version: AddrVersion, results: Seq<Result<IpAddr, Error>>) -> Result<
    IpAddr,
    Error,
> {
    settle_from(version, results, Error::Addr)
}

/// Whether every result in `results` is an error.
pub open spec fn all_failed(results: Seq<Result<IpAddr, Error>>) -> bool {
    forall|j: int| 0 <= j < results.len() ==> (#[trigger] results[j]) is Err
}

/// The error that the engine remembers after the failed results `results`.
pub open spec fn last_error(results: Seq<Result<IpAddr, Error>>) -> Error {
    if results.len() == 0 {
        Error::Addr
    } else {
        match results.last() {
            Err(e) => e,
            Ok(_) => Error::Addr,
        }
    }
}

proof fn lemma_settle_failed(version: AddrVersion, results: Seq<Result<IpAddr, Error>>, last: Error)
    requires
        all_failed(results),
    ensures
        settle_from(version, results, last) == Err::<IpAddr, Error>(
            if results.len() == 0 {
                last
            } else {
                last_error(results)
            },
        ),
    decreases results.len(),
{
    if results.len() > 0 {
        let e = results[0]->Err_0;
        assert(all_failed(results.drop_first())) by {
            assert forall|j: int| 0 <= j < results.drop_first().len() implies (
            #[trigger] results.drop_first()[j]) is Err by {
                assert(results[j + 1] is Err);
            }
        }
        lemma_settle_failed(version, results.drop_first(), e);
        if results.len() > 1 {
            assert(results.drop_first().last() == results.last());
        } else {
            assert(results.last() == results[0]);
        }
    }
}

proof fn lemma_settle_decided(
    version: AddrVersion,
    results: Seq<Result<IpAddr, Error>>,
    i: int,
    last: Error,
)
    requires
        0 <= i < results.len(),
        all_failed(results.take(i)),
        results[i] is Ok,
    ensures
        settle_from(version, results, last) == decide(version, results[i]->Ok_0),
    decreases i,
{
    if i > 0 {
        assert(results.take(i)[0] is Err);
        let rest = results.drop_first();
        assert(all_failed(rest.take(i - 1))) by {
            assert forall|j: int| 0 <= j < rest.take(i - 1).len() implies (#[trigger] rest.take(
                i - 1,
            )[j]) is Err by {
                assert(results.take(i)[j + 1] is Err);
            }
        }
        lemma_settle_decided(version, rest, i - 1, results[0]->Err_0);
    }
}

/// An address returned by a resolution is of the requested version.
pub proof fn lemma_resolved_address_matches(
    version: AddrVersion,
    results: Seq<Result<IpAddr, Error>>,
)
    ensures
        settle(version, results) matches Ok(a) ==> version.accepts(a),
{
    lemma_settle_matches(version, results, Error::Addr);
}

proof fn lemma_settle_matches(version: AddrVersion, results: Seq<Result<IpAddr, Error>>, last: Error)
    ensures
        settle_from(version, results, last) matches Ok(a) ==> version.accepts(a),
    decreases results.len(),
{
    if results.len() > 0 {
        if let Err(e) = results[0] {
            lemma_settle_matches(version, results.drop_first(), e);
        }
    }
}

/// Where `version` accepts none of the providers' servers, resolving makes
/// no attempt at all and returns the `Addr` error.
pub proof fn lemma_nothing_to_ask(providers: Seq<Resolver>, version: AddrVersion)
    requires
        forall|i: int, j: int|
            0 <= i < providers.len() && 0 <= j < providers[i].servers@.len() ==> !version.accepts(
                #[trigger] providers[i].servers@[j],
            ),
    ensures
        plan(providers, version).len() == 0,
        settle(version, Seq::empty()) == Err::<IpAddr, Error>(Error::Addr),
    decreases providers.len(),
{
    if providers.len() > 0 {
        let p = providers.last();
        assert forall|j: int| 0 <= j < p.servers@.len() implies !version.accepts(
            #[trigger] p.servers@[j],
        ) by {
            assert(providers[providers.len() - 1].servers@[j] == p.servers@[j]);
        }
        lemma_no_accepted_server(p, p.servers@, version);
        lemma_nothing_to_ask(providers.drop_last(), version);
    }
}

proof fn lemma_no_accepted_server(p: Resolver, servers: Seq<IpAddr>, version: AddrVersion)
    requires
        forall|j: int| 0 <= j < servers.len() ==> !version.accepts(#[trigger] servers[j]),
    ensures
        p.attempts_on(servers, version).len() == 0,
    decreases servers.len(),
{
    if servers.len() > 0 {
        assert(!version.accepts(servers[servers.len() - 1]));
        lemma_no_accepted_server(p, servers.drop_last(), version);
    }
}

/// An address of the wrong family, read before any other address, ends the
/// resolution with the `Version` error, whatever the later attempts would
/// have given.
pub proof fn lemma_mismatch_is_final(
    version: AddrVersion,
    results: Seq<Result<IpAddr, Error>>,
    i: int,
)
    requires
        0 <= i < results.len(),
        all_failed(results.take(i)),
        results[i] matches Ok(a) && !version.accepts(a),
    ensures
        settle(version, results) == Err::<IpAddr, Error>(Error::Version),
{
    lemma_settle_decided(version, results, i, Error::Addr);
}

/// Where every attempt fails in the DNS client, resolving returns the error
/// of the last attempt.
pub proof fn lemma_all_failed_last_error(version: AddrVersion, results: Seq<Result<IpAddr, Error>>)
    requires
        results.len() > 0,
        forall|j: int| 0 <= j < results.len() ==> (#[trigger] results[j]) matches Err(Error::Dns(_)),
    ensures
        settle(version, results) == results.last(),
{
    lemma_settle_failed(version, results, Error::Addr);
}

/// The first address of the requested version, read before any other
/// address, is what resolving returns: the attempts after it are not
/// looked at.
pub proof fn lemma_first_match_wins(
    version: AddrVersion,
    results: Seq<Result<IpAddr, Error>>,
    i: int,
)
    requires
        0 <= i < results.len(),
        all_failed(results.take(i)),
        results[i] matches Ok(a) && version.accepts(a),
    ensures
        settle(version, results) == results[i],
        settle(version, results) == settle(version, results.take(i + 1)),
{
    lemma_settle_decided(version, results, i, Error::Addr);
    assert(results.take(i + 1).take(i) =~= results.take(i));
    lemma_settle_decided(version, results.take(i + 1), i, Error::Addr);
}

/// The answer that `outcome` gives to a query by `method`, as one attempt's
/// result: the address read from the response, `Addr` where none can be
/// read, or the DNS client's error.
pub fn attempt_result_of(
    outcome: Result<Vec<RecordData>, ProtoError>,
    method: QueryMethod,
) -> (r: Result<IpAddr, Error>)
    ensures
        r == attempt_result(outcome, method),
{
    match outcome {
        Ok(answers) => parse_answer(&answers, method),
        Err(e) => Err(Error::Dns(e)),
    }
}

/// A resolution under way: the attempts to make, in order, and what the
/// ones made so far have given.
pub struct Resolution {
    version: AddrVersion,
    attempts: Vec<Attempt>,
    next: usize,
    last_err: Error,
    providers: Ghost<Seq<Resolver>>,
    results: Ghost<Seq<Result<IpAddr, Error>>>,
}

impl Resolution {
    /// The requested version.
    pub closed spec fn version(&self) -> AddrVersion {
        self.version
    }

    /// The providers that the attempts were planned on.
    pub closed spec fn providers(&self) -> Seq<Resolver> {
        self.providers@
    }

    /// Every attempt of the resolution, in order.
    pub closed spec fn attempts(&self) -> Seq<Attempt> {
        self.attempts@
    }

    /// The results of the attempts made so far, in order.
    pub closed spec fn results(&self) -> Seq<Result<IpAddr, Error>> {
        self.results@
    }

    /// The resolution is undecided: every attempt made so far has failed,
    /// and the last failure is remembered.
    pub closed spec fn wf(&self) -> bool {
        &&& self.next == self.results@.len()
        &&& self.next <= self.attempts@.len()
        &&& all_failed(self.results@)
        &&& self.last_err == last_error(self.results@)
    }

    /// Starts resolving `version` against `providers`, in their order.
    pub fn new(providers: &Vec<Resolver>, version: AddrVersion) -> (r: Resolution)
        ensures
            r.wf(),
            r.version() == version,
            r.providers() == providers@,
            r.attempts() == plan(providers@, version),
            r.results() == Seq::<Result<IpAddr, Error>>::empty(),
    {
        Resolution {
            version,
            attempts: plan_of(providers, version),
            next: 0,
            last_err: Error::Addr,
            providers: Ghost(providers@),
            results: Ghost(Seq::empty()),
        }
    }

    /// The next attempt to make, or `None` where all have been made.
    pub fn next_attempt(&self) -> (r: Option<Attempt>)
        requires
            self.wf(),
        ensures
            r == if self.results().len() < self.attempts().len() {
                Some(self.attempts()[self.results().len() as int])
            } else {
                None
            },
    {
        if self.next < self.attempts.len() {
            Some(self.attempts[self.next])
        } else {
            None
        }
    }

    /// Takes in the outcome of the next attempt. Returns the resolution's
    /// result where that outcome decides it (an address was read), and
    /// `None` where the resolution goes on to the following attempt.
    pub fn record(&mut self, outcome: Result<Vec<RecordData>, ProtoError>) -> (r: Option<
        Result<IpAddr, Error>,
    >)
        requires
            old(self).wf(),
            old(self).results().len() < old(self).attempts().len(),
        ensures
            ({
                let res = attempt_result(
                    outcome,
                    old(self).attempts()[old(self).results().len() as int].method,
                );
                &&& final(self).version() == old(self).version()
                &&& final(self).providers() == old(self).providers()
                &&& final(self).attempts() == old(self).attempts()
                &&& final(self).results() == old(self).results().push(res)
                &&& r is Some <==> res is Ok
                &&& r matches Some(d) ==> d == decide(old(self).version(), res->Ok_0)
                &&& r matches Some(d) ==> d == settle(final(self).version(), final(self).results())
                &&& r is None ==> final(self).wf()
            }),
    {
        let n = self.attempts.len();
        proof {
            assert(self.next < n);
        }
        let method = self.attempts[self.next].method;
        let res = attempt_result_of(outcome, method);
        let ghost before = self.results@;
        match res {
            Ok(addr) => {
                self.results = Ghost(before.push(Ok(addr)));
                proof {
                    assert(self.results@.take(before.len() as int) =~= before);
                    lemma_settle_decided(self.version, self.results@, before.len() as int, Error::Addr);
                }
                if self.version.matches(addr) {
                    Some(Ok(addr))
                } else {
                    Some(Err(Error::Version))
                }
            },
            Err(e) => {
                let ghost g = e;
                self.last_err = e;
                self.results = Ghost(before.push(Err(g)));
                self.next = self.next + 1;
                proof {
                    assert forall|j: int| 0 <= j < self.results@.len() implies (
                    #[trigger] self.results@[j]) is Err by {
                        if j < before.len() {
                            assert(before[j] is Err);
                        }
                    }
                }
                None
            },
        }
    }

    /// Ends a resolution whose attempts have all been made and failed: the
    /// last failure, or `Addr` where no attempt was made.
    pub fn finish(self) -> (r: Result<IpAddr, Error>)
        requires
            self.wf(),
            self.results().len() == self.attempts().len(),
        ensures
            r == settle(self.version(), self.results()),
            r == Err::<IpAddr, Error>(last_error(self.results())),
    {
        proof {
            lemma_settle_failed(self.version, self.results@, Error::Addr);
        }
        Err(self.last_err)
    }
}

/// Starts resolving `version` against the provider table.
pub fn resolve(version: AddrVersion) -> (r: Resolution)
    ensures
        r.wf(),
        r.version() == version,
        is_catalog(r.providers()),
        r.attempts() == plan(r.providers(), version),
        r.results() == Seq::<Result<IpAddr, Error>>::empty(),
{
    let providers = all();
    Resolution::new(&providers, version)
}

} // verus!
