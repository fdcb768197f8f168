//! The inherents: what a block author puts into a block that no transaction carries.
//!
//! Every set of inherents begins with the time. The functions that end in `_at` take the time;
//! the others read the system's clock. Types that a set only passes on (what the relay chain
//! says of the parachain, who the author is) are the caller's own.
//!
//! What makes sets over and over, as blocks come, gets its inherents as a value that makes a set
//! for each block: [`ImportInherents`], [`ParachainInherents`] or [`InstantSealInherents`].
use crate::components::{ParaId, RelayChainNodeId};
use vstd::prelude::*;

verus! {

/// The provider of the time inherent, as `sp_timestamp` has it. Nothing of what is inside is known
/// here: a set of inherents passes it on.
#[verifier::external_type_specification]
#[verifier::external_body]
pub struct ExTimeProvider(sp_timestamp::InherentDataProvider);

/// `sp_timestamp::InherentDataProvider::from_system_time` reads the system's clock. Two calls may
/// give two times, so nothing is claimed of the provider that comes back. The function panics on a
/// machine whose clock stands before the year 1970, which no argument decides.
pub assume_specification[ sp_timestamp::InherentDataProvider::from_system_time ]() -> (time:
    sp_timestamp::InherentDataProvider)
;

/// Whether `time` is one that a reading of the system's clock gave.
pub open spec fn read_from_clock(time: sp_timestamp::InherentDataProvider) -> bool {
    call_ensures(sp_timestamp::InherentDataProvider::from_system_time, (), time)
}

/// Why a set of inherents could not be put together.
#[derive(Clone, Copy, Debug, PartialEq, Eq, Structural)]
pub enum InherentsError {
    /// What the relay chain says of the parachain is not there.
    NoParachainInherent,
}

impl InherentsError {
    /// The error in words.
    pub open spec fn worded(self) -> Seq<char> {
        match self {
            InherentsError::NoParachainInherent => "Failed to create parachain inherent"@,
        }
    }

    /// Puts the error into words.
    pub fn message(&self) -> (message: &'static str)
        ensures
            message@ == self.worded(),
    {
        match self {
            InherentsError::NoParachainInherent => "Failed to create parachain inherent",
        }
    }
}

/// What a node that stands alone claims the relay chain says, so that a runtime that is made for
/// a parachain runs on it.
#[derive(Clone, Copy, Debug, PartialEq, Eq, Structural)]
pub struct MockValidationData {
    pub current_para_block: u32,
    pub relay_offset: u32,
    pub relay_blocks_per_para_block: u32,
}

impl MockValidationData {
    /// The claim of a relay chain that never moves.
    pub open spec fn still() -> MockValidationData {
        MockValidationData { current_para_block: 0, relay_offset: 0, relay_blocks_per_para_block: 0 }
    }

    /// Makes the claim of a relay chain that never moves.
    pub fn new() -> (mock: MockValidationData)
        ensures
            mock == MockValidationData::still(),
    {
        MockValidationData { current_para_block: 0, relay_offset: 0, relay_blocks_per_para_block: 0 }
    }
}

/// What imported blocks are checked against at a given time: the time alone.
pub fn import_inherents_at<T>(time: T) -> (inherents: Result<(T,), InherentsError>)
    ensures
        inherents == Ok::<(T,), InherentsError>((time,)),
{
    Ok((time,))
}

/// What imported blocks are checked against now: the time that the clock gives, and that alone. It
/// is always there.
pub fn import_inherents() -> (inherents: Result<
    (sp_timestamp::InherentDataProvider,),
    InherentsError,
>)
    ensures
        inherents is Ok,
        read_from_clock(inherents->Ok_0.0),
{
    import_inherents_at(sp_timestamp::InherentDataProvider::from_system_time())
}

/// What the collator of a parachain puts into a block at a given time: the time, what the relay
/// chain says of the parachain, and who the author is. Without the second there is no block.
pub fn parachain_inherents_at<T, P, A>(time: T, parachain_inherent: Option<P>, author: A) -> (
inherents: Result<(T, P, A), InherentsError>)
    ensures
        inherents == (match parachain_inherent {
            Some(parachain_inherent) => Ok::<(T, P, A), InherentsError>(
                (time, parachain_inherent, author),
            ),
            None => Err(InherentsError::NoParachainInherent),
        }),
{
    match parachain_inherent {
        Some(parachain_inherent) => Ok((time, parachain_inherent, author)),
        None => Err(InherentsError::NoParachainInherent),
    }
}

/// What the collator of a parachain puts into a block now. Whatever time the clock gives, the set is
/// there exactly where what the relay chain says is, and it holds the time, that and the author as
/// given.
pub fn parachain_inherents<P, A>(parachain_inherent: Option<P>, author: A) -> (inherents: Result<
    (sp_timestamp::InherentDataProvider, P, A),
    InherentsError,
>)
    ensures
        match parachain_inherent {
            Some(parachain_inherent) => {
                &&& inherents is Ok
                &&& read_from_clock(inherents->Ok_0.0)
                &&& inherents->Ok_0.1 == parachain_inherent
                &&& inherents->Ok_0.2 == author
            },
            None => inherents == Err::<
                (sp_timestamp::InherentDataProvider, P, A),
                InherentsError,
            >(InherentsError::NoParachainInherent),
        },
{
    parachain_inherents_at(
        sp_timestamp::InherentDataProvider::from_system_time(),
        parachain_inherent,
        author,
    )
}

/// What a node that stands alone puts into a block at a given time: the time, and the claim of a
/// relay chain that never moves.
pub fn instant_seal_inherents_at<T>(time: T) -> (inherents: Result<
    (T, MockValidationData),
    InherentsError,
>)
    ensures
        inherents == Ok::<(T, MockValidationData), InherentsError>(
            (time, MockValidationData::still()),
        ),
{
    Ok((time, MockValidationData::new()))
}

/// What a node that stands alone puts into a block now: the time that the clock gives, and the claim
/// of a relay chain that never moves. It is always there.
pub fn instant_seal_inherents() -> (inherents: Result<
    (sp_timestamp::InherentDataProvider, MockValidationData),
    InherentsError,
>)
    ensures
        inherents is Ok,
        read_from_clock(inherents->Ok_0.0),
        inherents->Ok_0.1 == MockValidationData::still(),
{
    instant_seal_inherents_at(sp_timestamp::InherentDataProvider::from_system_time())
}

/// What makes the inherents that imported blocks are checked against.
#[derive(Clone, Copy, Debug, PartialEq, Eq, Structural)]
pub struct ImportInherents;

impl ImportInherents {
    /// Makes the inherents that one block is checked against. Whichever block it is, and whatever
    /// comes with it, they are the time that the clock gives, and that alone.
    pub fn create<B, X>(&self, _block: B, _extra: X) -> (inherents: Result<
        (sp_timestamp::InherentDataProvider,),
        InherentsError,
    >)
        ensures
            inherents is Ok,
            read_from_clock(inherents->Ok_0.0),
    {
        import_inherents()
    }
}

/// What the relay chain is asked, at one of its blocks, of a parachain.
#[derive(Clone, Copy, Debug, PartialEq, Eq)]
pub struct ParachainInherentQuery<R, V> {
    pub relay_parent: R,
    pub relay_chain_client: RelayChainNodeId,
    pub relay_chain_backend: RelayChainNodeId,
    pub validation_data: V,
    pub para_id: ParaId,
}

/// What makes the inherents that the collator of a parachain puts into its blocks.
#[derive(Clone, Copy, Debug, PartialEq, Eq, Structural)]
pub struct ParachainInherents {
    /// The relay chain node whose client is asked.
    pub relay_chain_client: RelayChainNodeId,
    /// The relay chain node whose backend is read.
    pub relay_chain_backend: RelayChainNodeId,
    pub para_id: ParaId,
}

impl ParachainInherents {
    /// What the relay chain is to be asked for one block: of this parachain, at the block's relay
    /// parent, under its validation data.
    pub fn query<R, V>(&self, relay_parent: R, validation_data: V) -> (query:
        ParachainInherentQuery<R, V>)
        ensures
            query == (ParachainInherentQuery {
                relay_parent,
                relay_chain_client: self.relay_chain_client,
                relay_chain_backend: self.relay_chain_backend,
                validation_data,
                para_id: self.para_id,
            }),
    {
        ParachainInherentQuery {
            relay_parent,
            relay_chain_client: self.relay_chain_client,
            relay_chain_backend: self.relay_chain_backend,
            validation_data,
            para_id: self.para_id,
        }
    }

    /// Makes the inherents of one block, given what the relay chain answered. Whichever block it
    /// is, they are there exactly where an answer is, and they are the time that the clock gives,
    /// that answer and the author, in this order.
    pub fn create<B, P, A>(
        &self,
        _block: B,
        parachain_inherent: Option<P>,
        author: A,
    ) -> (inherents: Result<(sp_timestamp::InherentDataProvider, P, A), InherentsError>)
        ensures
            match parachain_inherent {
                Some(parachain_inherent) => {
                    &&& inherents is Ok
                    &&& read_from_clock(inherents->Ok_0.0)
                    &&& inherents->Ok_0.1 == parachain_inherent
                    &&& inherents->Ok_0.2 == author
                },
                None => {
                    &&& inherents is Err
                    &&& inherents->Err_0 == InherentsError::NoParachainInherent
                    &&& inherents->Err_0.worded() == "Failed to create parachain inherent"@
                },
            },
    {
        parachain_inherents(parachain_inherent, author)
    }
}

/// What makes the inherents that a node that stands alone puts into its blocks.
#[derive(Clone, Copy, Debug, PartialEq, Eq, Structural)]
pub struct InstantSealInherents;

impl InstantSealInherents {
    /// Makes the inherents of one block. Whichever block it is, and whatever comes with it, they
    /// are the time that the clock gives, and the claim of a relay chain that never moves.
    pub fn create<B, X>(&self, _block: B, _extra: X) -> (inherents: Result<
        (sp_timestamp::InherentDataProvider, MockValidationData),
        InherentsError,
    >)
        ensures
            inherents is Ok,
            read_from_clock(inherents->Ok_0.0),
            inherents->Ok_0.1 == MockValidationData::still(),
    {
        instant_seal_inherents()
    }
}

} // verus!
