//! The shapes shared by every pallet and by the runtime: blocks, headers,
//! extrinsics, and the result and trait of dispatching a call.

use vstd::prelude::*;

verus! {

/// A batch of extrinsics together with the header that places it in the chain.
pub struct Block<Header, Extrinsic> {
    pub header: Header,
    pub extrinsics: Vec<Extrinsic>,
}

/// What a block says about itself: its height.
pub struct Header<BlockNumber> {
    pub block_number: BlockNumber,
}

/// One instruction from outside: who asks, and what for. The caller is taken
/// as authenticated.
pub struct Extrinsic<Caller, Call> {
    pub caller: Caller,
    pub call: Call,
}

/// The outcome of a dispatched call: success, or the reason it was refused.
pub type DispatchResult = Result<(), &'static str>;

/// Routing of a call, made on behalf of a caller, to the function that
/// carries it out.
pub trait Dispatch {
    /// Who may make calls.
    type Caller;

    /// The calls that can be made.
    type Call;

    /// Carries out `call` for `caller` and hands its result back unchanged.
    fn dispatch(&mut self, caller: Self::Caller, call: Self::Call) -> DispatchResult;
}

} // verus!
