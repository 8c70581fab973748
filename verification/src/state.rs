use vstd::prelude::*;

verus! {

/// The single persisted record: the beacon public key's 48-byte compressed
/// encoding, set once at initialization.
#[derive(Clone, Debug, PartialEq, Eq)]
pub struct State {
    pub drand_public_key: Vec<u8>,
}

/// The key/value configuration store, modelled as the one record it holds.
/// The surrounding runtime persists and reloads it between calls; within a
/// call it is an explicit parameter, read by verify and query and written
/// only by initialization.
#[derive(Clone, Debug, PartialEq, Eq)]
pub struct ConfigStore {
    state: Option<State>,
}

impl View for ConfigStore {
    type V = Option<Seq<u8>>;

    closed spec fn view(&self) -> Option<Seq<u8>> {
        match self.state {
            Some(ref s) => Some(s.drand_public_key@),
            None => None,
        }
    }
}

impl ConfigStore {
    /// An empty store: nothing has been initialized yet.
    pub fn new() -> (r: ConfigStore)
        ensures
            r@ is None,
    {
        ConfigStore { state: None }
    }

    /// Rebuilds a store from a previously persisted record, if any.
    pub fn from_saved(saved: Option<Vec<u8>>) -> (r: ConfigStore)
        ensures
            match saved {
                Some(key) => r@ == Some(key@),
                None => r@ is None,
            },
    {
        match saved {
            Some(key) => ConfigStore { state: Some(State { drand_public_key: key }) },
            None => ConfigStore { state: None },
        }
    }

    /// Writes the record, replacing whatever was held.
    pub fn save(&mut self, state: State)
        ensures
            final(self)@ == Some(state.drand_public_key@),
    {
        self.state = Some(state);
    }

    /// Reads the record verbatim; None when nothing was ever saved.
    pub fn load(&self) -> (r: Option<&State>)
        ensures
            r is Some <==> self@ is Some,
            r matches Some(s) ==> self@ == Some(s.drand_public_key@),
    {
        match &self.state {
            Some(s) => Some(s),
            None => None,
        }
    }
}

} // verus!
