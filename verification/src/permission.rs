//! The white-list rule: an agent may send a proposal to the one agent that
//! its own metadata names under [`WHITE_LIST_KEY`].

use vstd::prelude::*;
use crate::agent::{Agent, AgentView, KeyValueEntry, KeyValueEntryView};
use crate::text::str_eq;

verus! {

/// The metadata key under which an agent names the agent it may send
/// proposals to.
pub const WHITE_LIST_KEY: &'static str = "white_list_agent";

impl KeyValueEntryView {
    /// The entry has the white-list key and names `receiving_agent`.
    pub open spec fn white_lists(self, receiving_agent: Seq<char>) -> bool {
        self.key == WHITE_LIST_KEY@ && self.value == receiving_agent
    }
}

impl AgentView {
    /// Some metadata entry of the agent white-lists `receiving_agent`.
    pub open spec fn white_lists(self, receiving_agent: Seq<char>) -> bool {
        exists|i: int|
            0 <= i < self.metadata.len()
                && (#[trigger] self.metadata[i]).white_lists(receiving_agent)
    }
}

/// No agent among the first `n` of `agents` has the key `public_key`.
pub open spec fn absent_before(agents: Seq<AgentView>, public_key: Seq<char>, n: int) -> bool {
    forall|j: int|
        0 <= j < n && j < agents.len() ==> (#[trigger] agents[j]).public_key != public_key
}

/// `i` is the position of the first agent in `agents` with the key
/// `public_key`.
pub open spec fn is_first_with_key(agents: Seq<AgentView>, public_key: Seq<char>, i: int) -> bool {
    &&& 0 <= i < agents.len()
    &&& agents[i].public_key == public_key
    &&& absent_before(agents, public_key, i)
}

/// The first agent in `agents` with the key `public_key` exists and
/// white-lists `receiving_agent`. Later agents with the same key are not
/// consulted.
pub open spec fn permitted(
    agents: Seq<AgentView>,
    public_key: Seq<char>,
    receiving_agent: Seq<char>,
) -> bool {
    exists|i: int| #[trigger]
        is_first_with_key(agents, public_key, i) && agents[i].white_lists(receiving_agent)
}

/// Only one position can hold the first agent with a given key.
pub proof fn lemma_first_with_key_is_unique(
    agents: Seq<AgentView>,
    public_key: Seq<char>,
    i: int,
    j: int,
)
    requires
        is_first_with_key(agents, public_key, i),
        is_first_with_key(agents, public_key, j),
    ensures
        i == j,
{
    if i < j {
        assert(agents[i].public_key != public_key);
    } else if j < i {
        assert(agents[j].public_key != public_key);
    }
}

/// A sender whose key no agent has is denied, whoever the receiver is.
pub proof fn lemma_unknown_sender_is_denied(
    agents: Seq<AgentView>,
    public_key: Seq<char>,
    receiving_agent: Seq<char>,
)
    requires
        absent_before(agents, public_key, agents.len() as int),
    ensures
        !permitted(agents, public_key, receiving_agent),
{
    assert forall|i: int| !(#[trigger] is_first_with_key(agents, public_key, i)) by {
        if 0 <= i < agents.len() {
            assert(agents[i].public_key != public_key);
        }
    }
}

/// The first agent with the sender's key decides alone: the sender is
/// permitted exactly when that agent white-lists the receiver.
pub proof fn lemma_first_agent_decides(
    agents: Seq<AgentView>,
    public_key: Seq<char>,
    receiving_agent: Seq<char>,
    i: int,
)
    requires
        is_first_with_key(agents, public_key, i),
    ensures
        permitted(agents, public_key, receiving_agent) == agents[i].white_lists(receiving_agent),
{
    if permitted(agents, public_key, receiving_agent) {
        let j = choose|j: int| #[trigger]
            is_first_with_key(agents, public_key, j) && agents[j].white_lists(receiving_agent);
        lemma_first_with_key_is_unique(agents, public_key, i, j);
    }
}

impl KeyValueEntry {
    /// Whether this entry has the white-list key and names `receiving_agent`.
    pub fn white_lists(&self, receiving_agent: &str) -> (yes: bool)
        ensures
            yes == self@.white_lists(receiving_agent@),
    {
        str_eq(self.key.as_str(), WHITE_LIST_KEY) && str_eq(self.value.as_str(), receiving_agent)
    }
}

impl Agent {
    /// Whether some metadata entry of this agent white-lists
    /// `receiving_agent`.
    pub fn white_lists(&self, receiving_agent: &str) -> (yes: bool)
        ensures
            yes == self@.white_lists(receiving_agent@),
    {
        let mut i: usize = 0;
        while i < self.metadata.len()
            invariant
                i <= self.metadata.len(),
                forall|j: int|
                    0 <= j < i ==> !(#[trigger] self@.metadata[j]).white_lists(receiving_agent@),
            decreases self.metadata.len() - i,
        {
            if self.metadata[i].white_lists(receiving_agent) {
                assert(self@.metadata[i as int].white_lists(receiving_agent@));
                return true;
            }
            i += 1;
        }
        false
    }
}

/// Finds the first agent in `agents` whose key is `public_key`.
pub fn find_agent(agents: &Vec<Agent>, public_key: &str) -> (found: Option<usize>)
    ensures
        match found {
            Some(i) => is_first_with_key(agents.deep_view(), public_key@, i as int),
            None => absent_before(agents.deep_view(), public_key@, agents.len() as int),
        },
{
    let mut i: usize = 0;
    while i < agents.len()
        invariant
            i <= agents.len(),
            absent_before(agents.deep_view(), public_key@, i as int),
        decreases agents.len() - i,
    {
        if str_eq(agents[i].public_key.as_str(), public_key) {
            return Some(i);
        }
        i += 1;
    }
    None
}

/// Decides whether the agent with the key `public_key` may send a proposal
/// to `receiving_agent`, given the agents of the sender's organization.
///
/// The sender is the first agent of the list with that key. Permission is
/// granted when the sender's metadata holds an entry with the key
/// [`WHITE_LIST_KEY`] whose value is `receiving_agent`, and denied when it
/// holds none or when no agent has the sender's key.
pub fn has_permission(
    agents: &Vec<Agent>,
    public_key: &str,
    receiving_agent: &str,
) -> (allowed: bool)
    ensures
        allowed == permitted(agents.deep_view(), public_key@, receiving_agent@),
{
    match find_agent(agents, public_key) {
        Some(i) => {
            proof {
                lemma_first_agent_decides(
                    agents.deep_view(),
                    public_key@,
                    receiving_agent@,
                    i as int,
                );
            }
            agents[i].white_lists(receiving_agent)
        },
        None => {
            proof {
                lemma_unknown_sender_is_denied(agents.deep_view(), public_key@, receiving_agent@);
            }
            false
        },
    }
}

} // verus!
