//! The system pallet: the height of the chain, and how many extrinsics each
//! account has authored.

use vstd::prelude::*;
use vstd::hash_map::StringHashMap;
use crate::numeric;
use crate::types::{AccountId, BlockNumber, Nonce};

verus! {

/// What the system pallet records, as mathematical values.
#[verifier::ext_equal]
pub struct SystemState {
    /// How many blocks have been taken in.
    pub block_number: nat,
    /// The stored nonces, keyed by the account's characters.
    pub nonces: Map<Seq<char>, nat>,
}

impl SystemState {
    /// The state before any block: height zero, no nonce stored.
    pub open spec fn genesis() -> SystemState {
        SystemState { block_number: 0, nonces: Map::empty() }
    }

    /// The nonce of `who`: zero where none is stored.
    pub open spec fn nonce_of(self, who: Seq<char>) -> nat {
        if self.nonces.contains_key(who) {
            self.nonces[who]
        } else {
            0
        }
    }

    /// The state one block higher.
    pub open spec fn inc_block_number(self) -> SystemState {
        SystemState { block_number: self.block_number + 1, ..self }
    }

    /// The state after `who` authored one more extrinsic.
    pub open spec fn inc_nonce(self, who: Seq<char>) -> SystemState {
        SystemState { nonces: self.nonces.insert(who, self.nonce_of(who) + 1), ..self }
    }
}

/// The height of the chain and the nonce of every account that has authored
/// an extrinsic.
pub struct Pallet {
    block_number: BlockNumber,
    nonce: StringHashMap<Nonce>,
}

impl View for Pallet {
    type V = SystemState;

    closed spec fn view(&self) -> SystemState {
        SystemState {
            block_number: self.block_number as nat,
            nonces: Map::new(
                |who: Seq<char>| self.nonce@.contains_key(who),
                |who: Seq<char>| self.nonce@[who] as nat,
            ),
        }
    }
}

impl Pallet {
    /// A pallet at height zero that has seen no extrinsic.
    pub fn new() -> (pallet: Self)
        ensures
            pallet@ == SystemState::genesis(),
    {
        Self { block_number: numeric::zero_u32(), nonce: StringHashMap::new() }
    }

    /// The current height.
    pub fn block_number(&self) -> (height: BlockNumber)
        ensures
            height == self@.block_number,
    {
        self.block_number
    }

    /// The nonce stored for `who`, if there is one.
    pub fn nonce(&self, who: &AccountId) -> (stored: Option<Nonce>)
        ensures
            match stored {
                Some(n) => self@.nonces.contains_key(who@) && n == self@.nonces[who@],
                None => !self@.nonces.contains_key(who@),
            },
    {
        match self.nonce.get(who.as_str()) {
            Some(n) => Some(*n),
            None => None,
        }
    }

    /// Raises the height by one.
    pub fn inc_block_number(&mut self)
        requires
            old(self)@.block_number < BlockNumber::MAX,
        ensures
            final(self)@ == old(self)@.inc_block_number(),
    {
        self.block_number += numeric::one_u32();
    }

    /// Raises the nonce of `who` by one, from zero where none was stored.
    pub fn inc_nonce(&mut self, who: &AccountId)
        requires
            old(self)@.nonce_of(who@) < Nonce::MAX,
        ensures
            final(self)@ == old(self)@.inc_nonce(who@),
    {
        let zero = numeric::zero_u32();
        let nonce = *self.nonce.get(who.as_str()).unwrap_or(&zero);
        let new_nonce = nonce + numeric::one_u32();
        self.nonce.insert(who.clone(), new_nonce);
    }
}

} // verus!
