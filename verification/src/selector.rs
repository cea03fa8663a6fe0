//! Choosing which listings of a results page to look at.

use crate::model::DEFAULT_MAX_APPLICATIONS;
use vstd::prelude::*;

verus! {

/// The fixed parameters of a run. Nothing changes them once it has begun.
#[derive(Clone, Debug, PartialEq, Eq)]
pub struct RunConfig {
    job_url: String,
    max_applications: usize,
}

/// How many listings may be examined to submit `max_applications`
/// applications: three for each, since most listings end in a skip.
pub open spec fn candidate_budget(max_applications: nat) -> nat {
    3 * max_applications
}

/// How many listings are picked out of `count`.
pub open spec fn selection_size(count: nat, max_applications: nat) -> nat {
    if count <= candidate_budget(max_applications) {
        count
    } else {
        candidate_budget(max_applications)
    }
}

/// `picked` is a selection out of `count` listings for a run that may
/// submit `max_applications`: it has the selection's size, names no listing
/// twice, and names only listings that are there.
pub open spec fn is_selection(picked: Seq<usize>, count: nat, max_applications: nat) -> bool {
    &&& picked.len() == selection_size(count, max_applications)
    &&& picked.no_duplicates()
    &&& forall|i: int| 0 <= i < picked.len() ==> #[trigger] picked[i] < count
}

/// `picked` takes its items from pairwise different places of `items`.
pub open spec fn drawn_without_repetition(picked: Seq<usize>, items: Seq<usize>) -> bool {
    exists|places: Seq<int>|
        {
            &&& #[trigger] places.len() == picked.len()
            &&& places.no_duplicates()
            &&& forall|i: int|
                0 <= i < places.len() ==> 0 <= #[trigger] places[i] < items.len() && picked[i]
                    == items[places[i]]
        }
}

impl RunConfig {
    pub closed spec fn url(self) -> Seq<char> {
        self.job_url@
    }

    pub closed spec fn max(self) -> usize {
        self.max_applications
    }

    /// A configuration for the search page at `job_url`. Without a bound of
    /// its own the run submits at most five applications.
    pub fn new(job_url: String, max_applications: Option<usize>) -> (config: RunConfig)
        ensures
            config.url() == job_url@,
            config.max() == match max_applications {
                Some(bound) => bound,
                None => DEFAULT_MAX_APPLICATIONS,
            },
    {
        let bound: usize = match max_applications {
            Some(bound) => bound,
            None => DEFAULT_MAX_APPLICATIONS,
        };
        RunConfig { job_url, max_applications: bound }
    }

    pub fn job_url(&self) -> (url: &str)
        ensures
            url@ == self.url(),
    {
        self.job_url.as_str()
    }

    pub fn max_applications(&self) -> (bound: usize)
        ensures
            bound == self.max(),
    {
        self.max_applications
    }

    /// The most listings the run examines: three times the bound on
    /// applications, or the largest number there is where that does not fit.
    pub fn max_candidates(&self) -> (budget: usize)
        ensures
            budget == if candidate_budget(self.max() as nat) <= usize::MAX {
                candidate_budget(self.max() as nat)
            } else {
                usize::MAX as nat
            },
    {
        if self.max_applications <= usize::MAX / 3 {
            self.max_applications * 3
        } else {
            usize::MAX
        }
    }
}

/// Picks the listings to examine out of the `count` that the results page
/// shows: as many as the configuration's budget allows, each at most once,
/// in an order left to chance.
pub fn select_listings(count: usize, config: &RunConfig) -> (picked: Vec<usize>)
    ensures
        is_selection(picked@, count as nat, config.max() as nat),
{
    let mut all: Vec<usize> = Vec::new();
    let mut next: usize = 0;
    while next < count
        invariant
            next <= count,
            all@.len() == next,
            forall|i: int| 0 <= i < all@.len() ==> all@[i] == i,
        decreases count - next,
    {
        all.push(next);
        next = next + 1;
    }
    let amount = config.max_candidates();
    let picked = choose_multiple(&all, amount);
    proof {
        let places = choose|places: Seq<int>|
            {
                &&& #[trigger] places.len() == picked@.len()
                &&& places.no_duplicates()
                &&& forall|i: int|
                    0 <= i < places.len() ==> 0 <= #[trigger] places[i] < all@.len() && picked@[i]
                        == all@[places[i]]
            };
        assert forall|i: int, j: int|
            0 <= i < picked@.len() && 0 <= j < picked@.len() && i != j implies picked@[i]
            != picked@[j] by {
            assert(picked@[i] == places[i]);
            assert(picked@[j] == places[j]);
        }
        assert forall|i: int| 0 <= i < picked@.len() implies #[trigger] picked@[i] < count by {
            assert(picked@[i] == places[i]);
        }
    }
    picked
}

/// Calls `rand::seq::IndexedRandom::choose_multiple` on the slice with the
/// thread-local generator and collects the items it yields. The crate
/// samples `min(amount, len)` pairwise different positions of the slice and
/// yields the items there, in an order of its choosing; the contract says
/// that much and leaves open which positions they are.
#[verifier::external_body]
fn choose_multiple(items: &Vec<usize>, amount: usize) -> (picked: Vec<usize>)
    ensures
        picked@.len() == if amount <= items@.len() {
            amount as nat
        } else {
            items@.len()
        },
        drawn_without_repetition(picked@, items@),
{
    rand::seq::IndexedRandom::choose_multiple(items.as_slice(), &mut rand::rng(), amount)
        .cloned()
        .collect()
}

} // verus!
