//! Finding the tracker's current domain, and the IP addresses seen through FlareSolverr.

use vstd::prelude::*;
use vstd::string::*;
use crate::text::{concat2, field_at, split_nth, trim_whitespace, trim_ws};

verus! {

/// The domains that redirect to the tracker's current one.
pub open spec fn redirect_domains_spec() -> Seq<Seq<char>> {
    seq!["yggtorrent.ch"@, "ygg.to"@, "yggtorrent.to"@, "yggtorrent.is"@]
}

/// The domains that redirect to the tracker's current one, in the order they are tried.
pub fn redirect_domains() -> (v: Vec<&'static str>)
    ensures
        v@.len() == redirect_domains_spec().len(),
        forall|i: int| 0 <= i < v@.len() ==> #[trigger] v@[i]@ == redirect_domains_spec()[i],
{
    let v = vec!["yggtorrent.ch", "ygg.to", "yggtorrent.to", "yggtorrent.is"];
    v
}

/// The URL that is loaded to follow `domain`'s redirect.
pub fn probe_url(domain: &str) -> (u: String)
    ensures
        u@ == "https://"@ + domain@,
{
    concat2("https://", domain)
}

/// The host of a URL: the text between its second and third `/`, as
/// `url.split('/').nth(2)` gives it; an error when the URL has fewer than two `/`.
pub fn host_of_url(url: &str) -> (r: Result<String, String>)
    ensures
        match field_at(url@, '/', 2) {
            Some(h) => (r matches Ok(s) && s@ == h),
            None => (r matches Err(m) && m@ == "No domain found"@),
        },
{
    match split_nth(url, '/', 2) {
        Some(h) => Ok(h),
        None => Err(String::from_str("No domain found")),
    }
}

/// The message when no domain was tried at all.
pub open spec fn no_check_message() -> Seq<char> {
    "All domain checks failed"@
}

/// The outcome, as views, of one domain check.
pub open spec fn outcome_view(o: Result<String, String>) -> Result<Seq<char>, Seq<char>> {
    match o {
        Ok(s) => Ok(s@),
        Err(e) => Err(e@),
    }
}

/// A race between domain checks that run at the same time: the first check to succeed
/// decides, and when all fail the last failure is the answer.
#[derive(Debug)]
pub struct DomainRace {
    pending: usize,
}

/// How a race stands after a check finished.
#[derive(Debug)]
pub enum RaceStep {
    /// Checks are still running.
    Waiting(DomainRace),
    /// The race is decided.
    Decided(Result<String, String>),
}

impl DomainRace {
    /// The number of checks still running.
    pub closed spec fn pending_spec(&self) -> nat {
        self.pending as nat
    }

    /// A race among `count` checks; with no check at all it is decided at once.
    pub fn new(count: usize) -> (r: RaceStep)
        ensures
            count == 0 ==> (r matches RaceStep::Decided(Err(m)) && m@ == no_check_message()),
            count > 0 ==> (r matches RaceStep::Waiting(race) && race.pending_spec() == count),
    {
        if count == 0 {
            RaceStep::Decided(Err(String::from_str("All domain checks failed")))
        } else {
            RaceStep::Waiting(DomainRace { pending: count })
        }
    }

    /// Takes the outcome of the next check to finish.
    pub fn finished(self, outcome: Result<String, String>) -> (r: RaceStep)
        requires
            self.pending_spec() > 0,
        ensures
            outcome is Ok ==> r == RaceStep::Decided(outcome),
            outcome is Err && self.pending_spec() == 1 ==> r == RaceStep::Decided(outcome),
            outcome is Err && self.pending_spec() > 1 ==> (r matches RaceStep::Waiting(race)
                && race.pending_spec() == self.pending_spec() - 1),
            forall|later: Seq<Result<Seq<char>, Seq<char>>>|
                #[trigger] decided_after(self.pending_spec(), seq![outcome_view(outcome)] + later)
                    == race_continues(r, later),
    {
        proof {
            assert forall|later: Seq<Result<Seq<char>, Seq<char>>>|
                #[trigger] decided_after(self.pending_spec(), seq![outcome_view(outcome)] + later)
                    == (if outcome is Ok || self.pending_spec() <= 1 {
                    Some(outcome_view(outcome))
                } else {
                    decided_after((self.pending_spec() - 1) as nat, later)
                }) by {
                let outs = seq![outcome_view(outcome)] + later;
                assert(outs[0] == outcome_view(outcome));
                assert(outs.drop_first() =~= later);
            }
        }
        match outcome {
            Ok(d) => RaceStep::Decided(Ok(d)),
            Err(e) => if self.pending == 1 {
                RaceStep::Decided(Err(e))
            } else {
                RaceStep::Waiting(DomainRace { pending: self.pending - 1 })
            },
        }
    }
}

/// What a race that stands at `r` decides when the checks still running finish in the
/// order of `later`.
pub open spec fn race_continues(r: RaceStep, later: Seq<Result<Seq<char>, Seq<char>>>) -> Option<
    Result<Seq<char>, Seq<char>>,
> {
    match r {
        RaceStep::Decided(d) => Some(outcome_view(d)),
        RaceStep::Waiting(race) => decided_after(race.pending_spec(), later),
    }
}

/// What successive calls of `DomainRace::finished` decide, starting with `pending` checks
/// running, when the checks finish in the order of `outs`; `None` while undecided.
pub open spec fn decided_after(pending: nat, outs: Seq<Result<Seq<char>, Seq<char>>>) -> Option<
    Result<Seq<char>, Seq<char>>,
>
    decreases outs.len(),
{
    if outs.len() == 0 {
        None
    } else if outs[0] is Ok || pending <= 1 {
        Some(outs[0])
    } else {
        decided_after((pending - 1) as nat, outs.drop_first())
    }
}

/// A race among as many checks as there are outcomes is decided by the first check that
/// succeeds, in the order the checks finished; when every check fails it is decided by the
/// failure that came last.
pub proof fn race_decides_first_success(outs: Seq<Result<Seq<char>, Seq<char>>>)
    requires
        outs.len() > 0,
    ensures
        forall|i: int|
            0 <= i < outs.len() && outs[i] is Ok && (forall|j: int| 0 <= j < i ==> outs[j] is Err)
                ==> decided_after(outs.len(), outs) == Some(outs[i]),
        (forall|j: int| 0 <= j < outs.len() ==> outs[j] is Err) ==> decided_after(outs.len(), outs)
            == Some(outs.last()),
    decreases outs.len(),
{
    if outs.len() > 1 && outs[0] is Err {
        let rest = outs.drop_first();
        race_decides_first_success(rest);
        assert forall|i: int|
            0 <= i < outs.len() && outs[i] is Ok && (forall|j: int| 0 <= j < i ==> outs[j] is Err)
                implies decided_after(outs.len(), outs) == Some(outs[i]) by {
            assert(i > 0);
            assert(rest[i - 1] == outs[i]);
            assert forall|j: int| 0 <= j < i - 1 implies rest[j] is Err by {
                assert(rest[j] == outs[j + 1]);
            }
        }
        if forall|j: int| 0 <= j < outs.len() ==> outs[j] is Err {
            assert forall|j: int| 0 <= j < rest.len() implies rest[j] is Err by {
                assert(rest[j] == outs[j + 1]);
            }
        }
    }
}

/// The URL whose body is this machine's own IP address.
pub const OWN_IP_URL: &'static str = "https://api64.ipify.org?format=text";

/// The URL whose body is the IP address that the tracker is reached from.
pub const LEAKED_IP_URL: &'static str = "https://pastebin.com/raw/jFZt5UHb";

/// The IP address in a fetched body: the body without surrounding white space.
pub fn leaked_ip_from_body(body: &str) -> (ip: String)
    ensures
        ip@ == trim_ws(body@),
{
    trim_whitespace(body)
}

} // verus!
