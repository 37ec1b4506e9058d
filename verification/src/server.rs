//! How a transport guards the registry it shares among its requests.
use vstd::prelude::*;

verus! {

/// The two disciplines under which a transport may share a registry.
#[derive(Clone, Copy, Debug, PartialEq, Eq, Hash, Structural)]
pub enum ServerSyncType {
    /// One lock: every operation waits for every other.
    Mutex,
    /// Readers and a writer: requests run side by side, and loading or
    /// unloading waits for them and holds them off.
    RwLock,
}

impl ServerSyncType {
    /// The name of a discipline.
    pub open spec fn spec_label(self) -> Seq<char> {
        match self {
            ServerSyncType::Mutex => "Mutex"@,
            ServerSyncType::RwLock => "RwLock"@,
        }
    }

    /// The name of this discipline for a reader.
    pub fn to_text(&self) -> (text: &'static str)
        ensures
            text@ == self.spec_label(),
    {
        match self {
            ServerSyncType::Mutex => "Mutex",
            ServerSyncType::RwLock => "RwLock",
        }
    }

    /// Whether requests may run side by side under this discipline.
    pub fn shares_dispatch(&self) -> (shared: bool)
        ensures
            shared == (*self == ServerSyncType::RwLock),
    {
        match self {
            ServerSyncType::Mutex => false,
            ServerSyncType::RwLock => true,
        }
    }
}

} // verus!
