use vstd::prelude::*;
use crate::error::APIError;
use crate::error::APIErrorView;

verus! {

/// The method of an inbound request.
#[derive(Clone, Copy, Debug, PartialEq, Eq, Structural)]
pub enum Method {
    Options,
    Get,
    Post,
    Put,
    Delete,
    Head,
    Trace,
    Connect,
    Patch,
    /// Any method outside the standard set.
    Extension,
}

/// A consistent, point-in-time view of the chain state.
#[derive(Clone, Copy, Debug, PartialEq, Eq, Structural)]
pub struct ChainSnapshot {
    /// Unix time at which the chain began.
    pub genesis_time: u64,
}

/// A shared handle to the chain state. Reading never needs exclusive access;
/// what a read returns is up to the implementation, so nothing is promised of
/// it here.
pub trait ChainState {
    /// Takes a read-only snapshot of the current chain state.
    fn current_state(&self) -> ChainSnapshot;
}

/// A fixed snapshot is a chain state that never changes.
impl ChainState for ChainSnapshot {
    fn current_state(&self) -> (snapshot: ChainSnapshot)
        ensures
            snapshot == *self,
    {
        *self
    }
}

/// An inbound request together with the context attached to it before any
/// handler runs. The chain-state handle is shared with every other request in
/// flight; a handler only borrows it.
pub struct Request<C> {
    pub method: Method,
    pub path: String,
    /// The chain-state handle, if one was attached.
    pub chain: Option<C>,
}

/// Description of the failure reported when no chain-state handle is attached.
pub open spec fn missing_chain_desc() -> Seq<char> {
    "Chain state is not attached to the request"@
}

impl<C> Request<C> {
    /// Borrows the chain-state handle attached to the request. An absent
    /// handle is a configuration fault, reported as an internal error so that
    /// other endpoints stay available.
    pub fn chain_state(&self) -> (handle: Result<&C, APIError>)
        ensures
            self.chain is Some ==> handle == Ok::<&C, APIError>(&self.chain->0),
            self.chain is None ==> handle is Err && handle->Err_0@ == (APIErrorView::InternalError {
                desc: missing_chain_desc(),
            }),
    {
        match &self.chain {
            Some(chain) => Ok(chain),
            None => Err(
                APIError::InternalError {
                    desc: String::from_str("Chain state is not attached to the request"),
                },
            ),
        }
    }
}

} // verus!
