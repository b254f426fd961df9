//! Agents of an organization and the metadata attached to them.

use vstd::prelude::*;

verus! {

/// One key/value pair of an agent's metadata.
#[derive(Clone, Debug, PartialEq, Eq)]
pub struct KeyValueEntry {
    pub key: String,
    pub value: String,
}

/// The characters of a [`KeyValueEntry`].
pub struct KeyValueEntryView {
    pub key: Seq<char>,
    pub value: Seq<char>,
}

impl View for KeyValueEntry {
    type V = KeyValueEntryView;

    open spec fn view(&self) -> KeyValueEntryView {
        KeyValueEntryView { key: self.key@, value: self.value@ }
    }
}

impl DeepView for KeyValueEntry {
    type V = KeyValueEntryView;

    open spec fn deep_view(&self) -> KeyValueEntryView {
        self@
    }
}

impl KeyValueEntry {
    /// An entry that records `value` under `key`.
    pub fn new(key: &str, value: &str) -> (entry: KeyValueEntry)
        ensures
            entry@ == (KeyValueEntryView { key: key@, value: value@ }),
    {
        KeyValueEntry { key: key.to_owned(), value: value.to_owned() }
    }
}

/// An agent as the permission check reads it: the key that identifies the
/// agent and the metadata entries in the order in which they are recorded.
#[derive(Clone, Debug, PartialEq, Eq)]
pub struct Agent {
    pub public_key: String,
    pub metadata: Vec<KeyValueEntry>,
}

/// The characters of an [`Agent`]'s key and of its metadata entries.
pub struct AgentView {
    pub public_key: Seq<char>,
    pub metadata: Seq<KeyValueEntryView>,
}

impl View for Agent {
    type V = AgentView;

    open spec fn view(&self) -> AgentView {
        AgentView { public_key: self.public_key@, metadata: self.metadata.deep_view() }
    }
}

impl DeepView for Agent {
    type V = AgentView;

    open spec fn deep_view(&self) -> AgentView {
        self@
    }
}

impl Agent {
    /// An agent identified by `public_key` that carries `metadata`.
    pub fn new(public_key: &str, metadata: Vec<KeyValueEntry>) -> (agent: Agent)
        ensures
            agent@ == (AgentView { public_key: public_key@, metadata: metadata.deep_view() }),
    {
        Agent { public_key: public_key.to_owned(), metadata }
    }
}

} // verus!
