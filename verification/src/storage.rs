//! A store for the whole state of a contract, as one string of bytes.

use vstd::prelude::*;

verus! {

/// The value of an optional string of bytes.
pub open spec fn bytes_model(bytes: Option<Vec<u8>>) -> Option<Seq<u8>> {
    match bytes {
        Some(b) => Some(b@),
        None => None,
    }
}

/// A place that keeps the state of a contract between invocations. The
/// host implements it; what an implementation keeps is its own affair, so
/// the trait itself promises nothing.
pub trait Storage {
    /// Reads the state, if any was ever set.
    fn get_state(&self) -> Option<Vec<u8>>;

    /// Replaces the state.
    fn set_state(&mut self, state: Vec<u8>);
}

/// A store in memory, for trying a contract out.
#[derive(Debug)]
pub struct MockStorage {
    data: Option<Vec<u8>>,
}

impl View for MockStorage {
    type V = Option<Seq<u8>>;

    /// The state that is kept, if any was ever set.
    closed spec fn view(&self) -> Option<Seq<u8>> {
        bytes_model(self.data)
    }
}

impl MockStorage {
    /// A store in which no state was set yet.
    pub fn new() -> (out: MockStorage)
        ensures
            out@ is None,
    {
        MockStorage { data: None }
    }
}

impl Storage for MockStorage {
    fn get_state(&self) -> (out: Option<Vec<u8>>)
        ensures
            bytes_model(out) == self@,
    {
        match &self.data {
            Some(v) => Some(v.clone()),
            None => None,
        }
    }

    fn set_state(&mut self, state: Vec<u8>)
        ensures
            final(self)@ == Some(state@),
    {
        self.data = Some(state);
    }
}

} // verus!
