//! The browser identities that a session may present.

use vstd::prelude::*;

verus! {

/// The user agents that sessions rotate through: desktop Chrome on Linux,
/// in five recent versions.
pub open spec fn known_agents() -> Seq<Seq<char>> {
    seq![
        "Mozilla/5.0 (X11; Linux x86_64) AppleWebKit/537.36 (KHTML, like Gecko) Chrome/100.0.4896.75 Safari/537.36"@,
        "Mozilla/5.0 (X11; Ubuntu; Linux x86_64) AppleWebKit/537.36 (KHTML, like Gecko) Chrome/99.0.4844.51 Safari/537.36"@,
        "Mozilla/5.0 (X11; Linux x86_64) AppleWebKit/537.36 (KHTML, like Gecko) Chrome/101.0.4951.64 Safari/537.36"@,
        "Mozilla/5.0 (X11; Linux x86_64) AppleWebKit/537.36 (KHTML, like Gecko) Chrome/102.0.5005.61 Safari/537.36"@,
        "Mozilla/5.0 (X11; Fedora; Linux x86_64) AppleWebKit/537.36 (KHTML, like Gecko) Chrome/100.0.4896.127 Safari/537.36"@,
    ]
}

/// The views of `agents`, one for one.
pub open spec fn agent_views(agents: Seq<&'static str>) -> Seq<Seq<char>> {
    Seq::new(agents.len(), |i: int| agents[i]@)
}

/// The user agents that sessions rotate through.
pub fn user_agents() -> (agents: Vec<&'static str>)
    ensures
        agent_views(agents@) == known_agents(),
{
    let mut agents: Vec<&'static str> = Vec::new();
    agents.push(
        "Mozilla/5.0 (X11; Linux x86_64) AppleWebKit/537.36 (KHTML, like Gecko) Chrome/100.0.4896.75 Safari/537.36",
    );
    agents.push(
        "Mozilla/5.0 (X11; Ubuntu; Linux x86_64) AppleWebKit/537.36 (KHTML, like Gecko) Chrome/99.0.4844.51 Safari/537.36",
    );
    agents.push(
        "Mozilla/5.0 (X11; Linux x86_64) AppleWebKit/537.36 (KHTML, like Gecko) Chrome/101.0.4951.64 Safari/537.36",
    );
    agents.push(
        "Mozilla/5.0 (X11; Linux x86_64) AppleWebKit/537.36 (KHTML, like Gecko) Chrome/102.0.5005.61 Safari/537.36",
    );
    agents.push(
        "Mozilla/5.0 (X11; Fedora; Linux x86_64) AppleWebKit/537.36 (KHTML, like Gecko) Chrome/100.0.4896.127 Safari/537.36",
    );
    assert(agent_views(agents@) =~= known_agents());
    agents
}

/// Picks the user agent for a session, by chance, among the known ones.
pub fn pick_user_agent() -> (agent: &'static str)
    ensures
        known_agents().contains(agent@),
{
    let agents = user_agents();
    assert(agent_views(agents@).len() == 5);
    match choose_one(&agents) {
        Some(agent) => {
            proof {
                let at = choose|at: int| 0 <= at < agents@.len() && agents@[at]@ == agent@;
                assert(agent_views(agents@)[at] == agent@);
            }
            agent
        },
        None => vstd::pervasive::unreached(),
    }
}

/// Calls `rand::seq::IndexedRandom::choose` on the slice with the
/// thread-local generator. The crate returns `None` for an empty slice and
/// otherwise a reference to the item at a position that it draws below the
/// length; the contract says that the item is one of the slice's.
#[verifier::external_body]
fn choose_one(items: &Vec<&'static str>) -> (picked: Option<&'static str>)
    ensures
        picked is None <==> items@.len() == 0,
        picked matches Some(item) ==> exists|at: int|
            0 <= at < items@.len() && #[trigger] items@[at]@ == item@,
{
    rand::seq::IndexedRandom::choose(items.as_slice(), &mut rand::rng()).copied()
}

} // verus!
