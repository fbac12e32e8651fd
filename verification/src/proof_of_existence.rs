//! The proof-of-existence pallet: a register of who has claimed which
//! content. A piece of content has at most one owner at a time.

use vstd::prelude::*;
use vstd::hash_map::StringHashMap;
use crate::support::{Dispatch, DispatchResult, Extrinsic};
use crate::types::{AccountId, Content};

verus! {

/// Why a claim is refused when the content already has an owner.
pub const ALREADY_CLAIMED: &'static str = "this content is already claimed";

/// Why a revocation is refused when the content has no owner.
pub const CLAIM_NOT_FOUND: &'static str = "claim does not exist";

/// Why a revocation is refused when the content belongs to another account.
pub const NOT_OWNER: &'static str = "this content is owned by someone else";

/// Whether `claims` lets an account claim `content`, and if not, why not.
pub open spec fn create_result(claims: Map<Seq<char>, Seq<char>>, content: Seq<char>) -> DispatchResult {
    if claims.contains_key(content) {
        Err(ALREADY_CLAIMED)
    } else {
        Ok(())
    }
}

/// The register after `caller` asked to claim `content`: the claim is entered
/// where the content was free, and nothing changes where it was not.
pub open spec fn after_create(
    claims: Map<Seq<char>, Seq<char>>,
    caller: Seq<char>,
    content: Seq<char>,
) -> Map<Seq<char>, Seq<char>> {
    if claims.contains_key(content) {
        claims
    } else {
        claims.insert(content, caller)
    }
}

/// Whether `claims` lets `caller` give up `content`, and if not, why not.
pub open spec fn revoke_result(
    claims: Map<Seq<char>, Seq<char>>,
    caller: Seq<char>,
    content: Seq<char>,
) -> DispatchResult {
    if !claims.contains_key(content) {
        Err(CLAIM_NOT_FOUND)
    } else if claims[content] != caller {
        Err(NOT_OWNER)
    } else {
        Ok(())
    }
}

/// The register after `caller` asked to give up `content`: the claim is
/// removed where `caller` owned it, and nothing changes where not.
pub open spec fn after_revoke(
    claims: Map<Seq<char>, Seq<char>>,
    caller: Seq<char>,
    content: Seq<char>,
) -> Map<Seq<char>, Seq<char>> {
    if claims.contains_key(content) && claims[content] == caller {
        claims.remove(content)
    } else {
        claims
    }
}

/// The owner of every piece of content that is claimed. Its view maps the
/// content's characters to the owner's.
pub struct Pallet {
    claims: StringHashMap<AccountId>,
}

impl View for Pallet {
    type V = Map<Seq<char>, Seq<char>>;

    closed spec fn view(&self) -> Map<Seq<char>, Seq<char>> {
        Map::new(
            |content: Seq<char>| self.claims@.contains_key(content),
            |content: Seq<char>| self.claims@[content]@,
        )
    }
}

/// The calls that the proof-of-existence pallet takes from outside.
pub enum Call {
    /// Claim `claim` for the caller.
    CreateClaim { claim: Content },
    /// Give up the caller's claim on `claim`.
    RevokeClaim { claim: Content },
}

impl Call {
    /// What the pallet answers when `caller` makes this call on `claims`.
    pub open spec fn result_on(self, claims: Map<Seq<char>, Seq<char>>, caller: Seq<char>) -> DispatchResult {
        match self {
            Call::CreateClaim { claim } => create_result(claims, claim@),
            Call::RevokeClaim { claim } => revoke_result(claims, caller, claim@),
        }
    }

    /// The register after `caller` made this call on `claims`.
    pub open spec fn apply_to(self, claims: Map<Seq<char>, Seq<char>>, caller: Seq<char>) -> Map<
        Seq<char>,
        Seq<char>,
    > {
        match self {
            Call::CreateClaim { claim } => after_create(claims, caller, claim@),
            Call::RevokeClaim { claim } => after_revoke(claims, caller, claim@),
        }
    }
}

/// The register after each of `calls` was made in turn, begun with `claims`.
/// A refused call changes nothing and does not keep the next from being made.
pub open spec fn after_calls(
    claims: Map<Seq<char>, Seq<char>>,
    calls: Seq<Extrinsic<AccountId, Call>>,
) -> Map<Seq<char>, Seq<char>>
    decreases calls.len(),
{
    if calls.len() == 0 {
        claims
    } else {
        calls.last().call.apply_to(after_calls(claims, calls.drop_last()), calls.last().caller@)
    }
}

/// Whether `ext`, made on `claims`, is a revocation of `content` that is
/// accepted.
pub open spec fn revokes(
    claims: Map<Seq<char>, Seq<char>>,
    ext: Extrinsic<AccountId, Call>,
    content: Seq<char>,
) -> bool {
    match ext.call {
        Call::RevokeClaim { claim } => claim@ == content && revoke_result(
            claims,
            ext.caller@,
            content,
        ) is Ok,
        Call::CreateClaim { .. } => false,
    }
}

/// A claim stands until it is revoked: where `content` is claimed and none of
/// `calls` is an accepted revocation of it, the content has the same owner
/// after the calls, and a further claim on it is refused.
pub proof fn claim_stands_until_revoked(
    claims: Map<Seq<char>, Seq<char>>,
    content: Seq<char>,
    calls: Seq<Extrinsic<AccountId, Call>>,
)
    requires
        claims.contains_key(content),
        forall|i: int|
            0 <= i < calls.len() ==> !revokes(
                after_calls(claims, calls.take(i)),
                #[trigger] calls[i],
                content,
            ),
    ensures
        after_calls(claims, calls).contains_key(content),
        after_calls(claims, calls)[content] == claims[content],
        create_result(after_calls(claims, calls), content) == Err::<(), &'static str>(
            ALREADY_CLAIMED,
        ),
    decreases calls.len(),
{
    if calls.len() > 0 {
        let earlier = calls.drop_last();
        assert forall|i: int| 0 <= i < earlier.len() implies !revokes(
            after_calls(claims, earlier.take(i)),
            #[trigger] earlier[i],
            content,
        ) by {
            assert(earlier.take(i) =~= calls.take(i));
            assert(earlier[i] == calls[i]);
        }
        claim_stands_until_revoked(claims, content, earlier);
        assert(calls.take(calls.len() - 1) =~= earlier);
        assert(!revokes(after_calls(claims, earlier), calls[calls.len() - 1], content));
    }
}

/// A piece of content is claimed by one account at a time: after `first`
/// claimed `content` with success, no claim on it is accepted, whoever makes
/// it and whatever calls are made in between, as long as none of these is an
/// accepted revocation of `content`.
pub proof fn claim_is_exclusive(
    claims: Map<Seq<char>, Seq<char>>,
    first: Seq<char>,
    content: Seq<char>,
    calls: Seq<Extrinsic<AccountId, Call>>,
)
    requires
        create_result(claims, content) is Ok,
        forall|i: int|
            0 <= i < calls.len() ==> !revokes(
                after_calls(after_create(claims, first, content), calls.take(i)),
                #[trigger] calls[i],
                content,
            ),
    ensures
        after_calls(after_create(claims, first, content), calls)[content] == first,
        create_result(after_calls(after_create(claims, first, content), calls), content) == Err::<
            (),
            &'static str,
        >(ALREADY_CLAIMED),
{
    claim_stands_until_revoked(after_create(claims, first, content), content, calls);
}

impl Pallet {
    /// A register without claims.
    pub fn new() -> (pallet: Self)
        ensures
            pallet@ == Map::<Seq<char>, Seq<char>>::empty(),
    {
        Self { claims: StringHashMap::new() }
    }

    /// The owner of `claim`, if it has one.
    pub fn get_claim(&self, claim: &Content) -> (owner: Option<&AccountId>)
        ensures
            match owner {
                Some(account) => self@.contains_key(claim@) && account@ == self@[claim@],
                None => !self@.contains_key(claim@),
            },
    {
        self.claims.get(claim)
    }

    /// Enters `caller` as the owner of `claim`, or refuses with
    /// [`ALREADY_CLAIMED`] where the content has an owner, and changes nothing.
    pub fn create_claim(&mut self, caller: AccountId, claim: Content) -> (r: DispatchResult)
        ensures
            r == create_result(old(self)@, claim@),
            final(self)@ == after_create(old(self)@, caller@, claim@),
    {
        if self.claims.contains_key(claim) {
            return Err(ALREADY_CLAIMED);
        }
        self.claims.insert(claim.to_owned(), caller);
        Ok(())
    }

    /// Removes the claim of `caller` on `claim`, or refuses and changes
    /// nothing: with [`CLAIM_NOT_FOUND`] where the content has no owner, with
    /// [`NOT_OWNER`] where its owner is another account.
    pub fn revoke_claim(&mut self, caller: AccountId, claim: Content) -> (r: DispatchResult)
        ensures
            r == revoke_result(old(self)@, caller@, claim@),
            final(self)@ == after_revoke(old(self)@, caller@, claim@),
            r is Ok <==> old(self)@.contains_key(claim@) && old(self)@[claim@] == caller@,
    {
        let owner = self.get_claim(&claim).ok_or(CLAIM_NOT_FOUND)?;
        if caller != *owner {
            return Err(NOT_OWNER);
        }
        self.claims.remove(claim);
        Ok(())
    }
}

impl Dispatch for Pallet {
    type Caller = AccountId;

    type Call = Call;

    /// Carries out `call` for `caller`: a claim goes to
    /// [`Pallet::create_claim`], a revocation to [`Pallet::revoke_claim`].
    fn dispatch(&mut self, caller: AccountId, call: Call) -> (r: DispatchResult)
        ensures
            r == call.result_on(old(self)@, caller@),
            final(self)@ == call.apply_to(old(self)@, caller@),
    {
        match call {
            Call::CreateClaim { claim } => self.create_claim(caller, claim),
            Call::RevokeClaim { claim } => self.revoke_claim(caller, claim),
        }
    }
}

} // verus!
