//! Consuls, patricians and the nomination of new consuls.
//!
//! Consuls validate blocks and patricians propose them. A consul may nominate
//! a patrician for consul; the nomination is filed among the proposals under
//! a content hash computed over the proposer and the nomination itself.

pub mod types;

use crate::hvc::types::{encode_preimage, preimage, zero_hash, Decision, Proposal};
use crate::primitives::{AccountId, BlockNumber, ContentHash, Moment};
use sp_runtime::traits::{BlakeTwo256, ConstU32};
use sp_runtime::BoundedVec;
use vstd::prelude::*;

verus! {

broadcast use vstd::array::group_array_axioms;

/// The most consuls there may be.
pub const MAX_CONSULS: u32 = 32;

/// The most patricians there may be.
pub const MAX_PATRICIANS: u32 = 64;

/// The most terms of office that may be on record.
pub const MAX_TERMS: u32 = 96;

/// The most proposals that may be on file.
pub const MAX_PROPOSALS: u32 = 16;

/// The most consuls that may be assigned to one proposal.
pub const MAX_ASSIGNMENTS: u32 = 8;

/// The most bytes a reason may have.
pub const MAX_REASON_LENGTH: u32 = 256;

/// How long a proposal stays open, in units of the clock.
pub const PROPOSAL_DURATION: u32 = 7;

/// The consuls, in order.
pub type Consuls = BoundedVec<AccountId, ConstU32<MAX_CONSULS>>;

/// The patricians, in order.
pub type Patricians = BoundedVec<AccountId, ConstU32<MAX_PATRICIANS>>;

/// The proposals on file, each with its proposer, oldest first.
pub type Proposals = BoundedVec<(AccountId, Proposal), ConstU32<MAX_PROPOSALS>>;

/// The terms of office: each elite member with the moment its office ends.
pub type Terms = BoundedVec<(AccountId, Moment), ConstU32<MAX_TERMS>>;

/// The consuls assigned to one proposal.
pub type Assignments = BoundedVec<AccountId, ConstU32<MAX_ASSIGNMENTS>>;

/// The decisions taken on one proposal, each with the consul that took it.
pub type Decisions = BoundedVec<(AccountId, Decision), ConstU32<MAX_ASSIGNMENTS>>;

/// The reason given with a decision.
pub type Reason = BoundedVec<u8, ConstU32<MAX_REASON_LENGTH>>;

/// The accounts that `consuls` holds, in order.
pub uninterp spec fn consul_accounts(consuls: Consuls) -> Seq<AccountId>;

/// The accounts that `patricians` holds, in order.
pub uninterp spec fn patrician_accounts(patricians: Patricians) -> Seq<AccountId>;

/// The entries that `proposals` holds, in order.
pub uninterp spec fn proposal_entries(proposals: Proposals) -> Seq<(AccountId, Proposal)>;

/// The Blake2b digest of 256 bits of `data`.
pub uninterp spec fn blake2_256(data: Seq<u8>) -> ContentHash;

/// `BoundedVec::try_from` a vector: the accounts as the consuls where there
/// are no more than `MAX_CONSULS` of them; else the accounts are handed back.
#[verifier::external_body]
fn consuls_from(accounts: Vec<AccountId>) -> (made: Result<Consuls, Vec<AccountId>>)
    ensures
        made is Ok <==> accounts@.len() <= MAX_CONSULS,
        made matches Ok(consuls) ==> consul_accounts(consuls) == accounts@,
        made matches Err(back) ==> back == accounts,
{
    BoundedVec::try_from(accounts)
}

/// `BoundedVec::try_from` a vector: the accounts as the patricians where
/// there are no more than `MAX_PATRICIANS` of them; else the accounts are
/// handed back.
#[verifier::external_body]
fn patricians_from(accounts: Vec<AccountId>) -> (made: Result<Patricians, Vec<AccountId>>)
    ensures
        made is Ok <==> accounts@.len() <= MAX_PATRICIANS,
        made matches Ok(patricians) ==> patrician_accounts(patricians) == accounts@,
        made matches Err(back) ==> back == accounts,
{
    BoundedVec::try_from(accounts)
}

/// `BoundedVec::as_ref`: the vector inside, which holds the consuls.
#[verifier::external_body]
fn consuls_as_vec(consuls: &Consuls) -> (accounts: &Vec<AccountId>)
    ensures
        accounts@ == consul_accounts(*consuls),
{
    consuls.as_ref()
}

/// `BoundedVec::as_ref`: the vector inside, which holds the patricians.
#[verifier::external_body]
fn patricians_as_vec(patricians: &Patricians) -> (accounts: &Vec<AccountId>)
    ensures
        accounts@ == patrician_accounts(*patricians),
{
    patricians.as_ref()
}

/// `BoundedVec::new`: a bounded vector that holds nothing.
#[verifier::external_body]
fn no_proposals() -> (proposals: Proposals)
    ensures
        proposal_entries(proposals) == Seq::<(AccountId, Proposal)>::empty(),
{
    BoundedVec::new()
}

/// `Vec::len` on the vector that `BoundedVec::deref` hands out: the number of
/// proposals on file.
#[verifier::external_body]
fn proposals_len(proposals: &Proposals) -> (n: usize)
    ensures
        n == proposal_entries(*proposals).len(),
{
    proposals.len()
}

/// `BoundedVec::try_push`: below the bound the entry is appended; at the bound
/// the vector is left alone and the entry is handed back.
#[verifier::external_body]
fn proposals_try_push(proposals: &mut Proposals, entry: (AccountId, Proposal)) -> (pushed: Result<
    (),
    (AccountId, Proposal),
>)
    ensures
        pushed is Ok <==> proposal_entries(*old(proposals)).len() < MAX_PROPOSALS,
        pushed is Ok ==> proposal_entries(*final(proposals)) == proposal_entries(
            *old(proposals),
        ).push(entry),
        pushed matches Err(back) ==> back == entry && *final(proposals) == *old(proposals),
{
    proposals.try_push(entry)
}

/// `Hash::hash` of `BlakeTwo256`: the Blake2b digest of 256 bits of `data`,
/// as its 32 bytes.
#[verifier::external_body]
fn blake2_256_of(data: &[u8]) -> (digest: ContentHash)
    ensures
        digest == blake2_256(data@),
{
    <BlakeTwo256 as sp_runtime::traits::Hash>::hash(data).0
}

/// What the module reports on success.
#[derive(Debug, PartialEq, Eq)]
pub enum Event {
    /// A candidate was nominated for consul.
    ConsulNominated { who: AccountId },
    /// A consul was added.
    ConsulAdded { who: AccountId },
    /// A consul was removed.
    ConsulRemoved { who: AccountId },
    /// A consul was assigned to validate a proposal.
    ConsulAssigned { who: AccountId, proposal: ContentHash },
    /// A candidate was nominated for patrician.
    PatricianNominated { who: AccountId },
    /// A patrician was added.
    PatricianAdded { who: AccountId },
    /// A patrician was removed.
    PatricianRemoved { who: AccountId },
    /// A consul began to validate a block.
    BlockProposed { who: AccountId, number: BlockNumber },
    /// A consul rejected a block.
    BlockRejected { who: AccountId, number: BlockNumber, reason: Option<Reason> },
    /// A consul asked for more information on a block.
    BlockNeedsInfo { who: AccountId, number: BlockNumber, reason: Option<Reason> },
    /// A consul approved a block.
    BlockPreApproved { who: AccountId, number: BlockNumber },
    /// Every consul assigned to a block approved it.
    BlockApproved { who: AccountId, number: BlockNumber },
    /// A term of office was renewed.
    TermRenewed { who: AccountId, term: Moment },
    /// A term of office ran out.
    TermExpired { who: AccountId, term: Moment },
    /// A consul let a deadline pass.
    DeadlinePassed { who: AccountId },
    /// A consul decided on a proposal.
    NewDecision { who: AccountId, proposal: ContentHash, decision: Decision },
}

/// Why an operation of the module failed.
#[derive(Clone, Copy, Debug, PartialEq, Eq, Structural)]
pub enum Error {
    /// No value was set.
    NoneValue,
    /// A stored number would exceed its range.
    StorageOverflow,
    /// The consul is not assigned to the proposal.
    NotAssignedConsul,
    /// The account that acts as a consul is none.
    InvalidConsul,
    /// The candidate is a consul already.
    AlreadyConsul,
    /// There is no room for another consul.
    TooManyConsuls,
    /// The account that is to be a patrician is none.
    InvalidPatrician,
    /// There is no room for another patrician.
    TooManyPatricians,
    /// A candidate is not valid.
    InvalidCandidate,
    /// The block is invalid or missing.
    InvalidBlock,
    /// The block is in no state to be decided on.
    InvalidBlockState,
    /// The proposal is invalid or missing.
    InvalidProposal,
    /// There is no room for another proposal.
    TooManyProposals,
    /// The deadline has passed.
    DeadlinePassed,
    /// The signature is invalid or missing.
    InvalidSignature,
    /// The text is too long.
    StringTooLong,
}

/// The moment at which a nomination made at `now` lapses.
pub open spec fn expiry_of(now: Moment) -> int {
    now + PROPOSAL_DURATION
}

/// The nomination of `candidate` as it is hashed: with the placeholder in
/// place of the hash.
pub open spec fn nomination_draft(candidate: AccountId, expiry: Moment) -> Proposal {
    Proposal::ConsulNomination(zero_hash(), candidate, expiry)
}

/// The content hash of the nomination of `candidate` by `proposer` that
/// lapses at `expiry`. It depends on these three alone.
pub open spec fn nomination_hash(
    proposer: AccountId,
    candidate: AccountId,
    expiry: Moment,
) -> ContentHash {
    blake2_256(preimage(proposer, nomination_draft(candidate, expiry)))
}

/// The failure, if any, of taking the given accounts as the consuls and the
/// patricians: more consuls, or else more patricians, than there may be.
pub open spec fn roles_error(consuls: Seq<AccountId>, patricians: Seq<AccountId>) -> Option<Error> {
    if consuls.len() > MAX_CONSULS {
        Some(Error::TooManyConsuls)
    } else if patricians.len() > MAX_PATRICIANS {
        Some(Error::TooManyPatricians)
    } else {
        None
    }
}

/// The records of the module.
#[derive(Debug, PartialEq, Eq)]
pub struct Pallet {
    /// The consuls.
    pub consuls: Consuls,
    /// The patricians.
    pub patricians: Patricians,
    /// The proposals on file.
    pub proposals: Proposals,
}

impl Pallet {
    /// `who` is a consul.
    pub open spec fn has_consul(&self, who: AccountId) -> bool {
        consul_accounts(self.consuls).contains(who)
    }

    /// `who` is a patrician.
    pub open spec fn has_patrician(&self, who: AccountId) -> bool {
        patrician_accounts(self.patricians).contains(who)
    }

    /// The proposals on file, each with its proposer, oldest first.
    pub open spec fn filed(&self) -> Seq<(AccountId, Proposal)> {
        proposal_entries(self.proposals)
    }

    /// The failure, if any, of filing one more proposal.
    pub open spec fn filing_error(&self) -> Option<Error> {
        if self.filed().len() >= MAX_PROPOSALS {
            Some(Error::TooManyProposals)
        } else {
            None
        }
    }

    /// The failure, if any, of the nomination of `candidate` by `proposer`:
    /// the proposer must be a consul, the candidate a patrician and no consul,
    /// and there must be room for the proposal. The first check that fails
    /// names the failure.
    pub open spec fn nomination_error(&self, proposer: AccountId, candidate: AccountId) -> Option<
        Error,
    > {
        if !self.has_consul(proposer) {
            Some(Error::InvalidConsul)
        } else if !self.has_patrician(candidate) {
            Some(Error::InvalidPatrician)
        } else if self.has_consul(candidate) {
            Some(Error::AlreadyConsul)
        } else {
            self.filing_error()
        }
    }

    /// The records after `entry` was filed: the roles as in `before`, and the
    /// proposals of `before` followed by `entry`.
    pub open spec fn filed_after(&self, before: &Pallet, entry: (AccountId, Proposal)) -> bool {
        &&& self.consuls == before.consuls
        &&& self.patricians == before.patricians
        &&& self.filed() == before.filed().push(entry)
    }

    /// The module with the given consuls and patricians and no proposal on
    /// file.
    pub fn new(consuls: Consuls, patricians: Patricians) -> (pallet: Self)
        ensures
            pallet.consuls == consuls,
            pallet.patricians == patricians,
            pallet.filed() == Seq::<(AccountId, Proposal)>::empty(),
    {
        Pallet { consuls, patricians, proposals: no_proposals() }
    }

    /// The module with the given accounts as its consuls and patricians, in
    /// the order given, and no proposal on file, provided there are no more
    /// than `MAX_CONSULS` consuls and `MAX_PATRICIANS` patricians.
    pub fn with_roles(consuls: Vec<AccountId>, patricians: Vec<AccountId>) -> (outcome: Result<
        Pallet,
        Error,
    >)
        ensures
            match roles_error(consuls@, patricians@) {
                Some(e) => outcome == Err::<Pallet, Error>(e),
                None => outcome matches Ok(pallet) && consul_accounts(pallet.consuls) == consuls@
                    && patrician_accounts(pallet.patricians) == patricians@ && pallet.filed()
                    == Seq::<(AccountId, Proposal)>::empty(),
            },
    {
        let consuls = match consuls_from(consuls) {
            Ok(consuls) => consuls,
            Err(_) => {
                return Err(Error::TooManyConsuls);
            },
        };
        let patricians = match patricians_from(patricians) {
            Ok(patricians) => patricians,
            Err(_) => {
                return Err(Error::TooManyPatricians);
            },
        };
        Ok(Pallet::new(consuls, patricians))
    }

    /// Whether `who` is a consul.
    pub fn is_consul(&self, who: AccountId) -> (yes: bool)
        ensures
            yes == self.has_consul(who),
    {
        contains(consuls_as_vec(&self.consuls), who)
    }

    /// Whether `who` is a patrician.
    pub fn is_patrician(&self, who: AccountId) -> (yes: bool)
        ensures
            yes == self.has_patrician(who),
    {
        contains(patricians_as_vec(&self.patricians), who)
    }

    /// Nominates the patrician `candidate` for consul on behalf of the consul
    /// `proposer`, at the clock reading `now`.
    ///
    /// The nomination lapses `PROPOSAL_DURATION` after `now` and is filed
    /// under its content hash.
    pub fn propose_consul(
        &mut self,
        proposer: AccountId,
        candidate: AccountId,
        now: Moment,
    ) -> (outcome: Result<Event, Error>)
        requires
            expiry_of(now) <= u64::MAX,
        ensures
            match old(self).nomination_error(proposer, candidate) {
                Some(e) => outcome == Err::<Event, Error>(e) && *final(self) == *old(self),
                None => {
                    &&& outcome == Ok::<Event, Error>(Event::ConsulNominated { who: candidate })
                    &&& final(self).filed_after(
                        old(self),
                        (
                            proposer,
                            Proposal::ConsulNomination(
                                nomination_hash(proposer, candidate, expiry_of(now) as Moment),
                                candidate,
                                expiry_of(now) as Moment,
                            ),
                        ),
                    )
                },
            },
    {
        if !self.is_consul(proposer) {
            return Err(Error::InvalidConsul);
        }
        if !self.is_patrician(candidate) {
            return Err(Error::InvalidPatrician);
        }
        if self.is_consul(candidate) {
            return Err(Error::AlreadyConsul);
        }
        let expiry: Moment = now + PROPOSAL_DURATION as u64;
        let proposal_without_hash = Proposal::ConsulNomination([0u8; 32], candidate, expiry);
        let proposal_hash = content_hash(proposer, &proposal_without_hash);
        self.file_nomination(proposer, candidate, expiry, proposal_hash)
    }

    /// Files the nomination of `candidate` by `proposer` that lapses at
    /// `expiry`, under the content hash `hash`, if there is room for it.
    pub fn file_nomination(
        &mut self,
        proposer: AccountId,
        candidate: AccountId,
        expiry: Moment,
        hash: ContentHash,
    ) -> (outcome: Result<Event, Error>)
        ensures
            match old(self).filing_error() {
                Some(e) => outcome == Err::<Event, Error>(e) && *final(self) == *old(self),
                None => {
                    &&& outcome == Ok::<Event, Error>(Event::ConsulNominated { who: candidate })
                    &&& final(self).filed_after(
                        old(self),
                        (proposer, Proposal::ConsulNomination(hash, candidate, expiry)),
                    )
                },
            },
    {
        if proposals_len(&self.proposals) >= MAX_PROPOSALS as usize {
            return Err(Error::TooManyProposals);
        }
        let proposal = Proposal::ConsulNomination(hash, candidate, expiry);
        match proposals_try_push(&mut self.proposals, (proposer, proposal)) {
            Ok(()) => Ok(Event::ConsulNominated { who: candidate }),
            Err(_) => Err(Error::TooManyProposals),
        }
    }
}

/// A consul's nomination of a patrician that is no consul is accepted while
/// there is room for one more proposal.
pub proof fn law_valid_nomination_is_accepted(
    pallet: Pallet,
    proposer: AccountId,
    candidate: AccountId,
)
    requires
        pallet.has_consul(proposer),
        pallet.has_patrician(candidate),
        !pallet.has_consul(candidate),
        pallet.filed().len() < MAX_PROPOSALS,
    ensures
        pallet.nomination_error(proposer, candidate) is None,
{
}

/// A nomination by an account that is no consul fails as `InvalidConsul`,
/// whoever the candidate is and however many proposals are on file.
pub proof fn law_proposer_must_be_consul(pallet: Pallet, proposer: AccountId, candidate: AccountId)
    requires
        !pallet.has_consul(proposer),
    ensures
        pallet.nomination_error(proposer, candidate) == Some(Error::InvalidConsul),
{
}

/// A consul's nomination of a candidate that is a consul already fails as
/// `AlreadyConsul`, though the candidate is a patrician.
pub proof fn law_consul_is_not_nominated(pallet: Pallet, proposer: AccountId, candidate: AccountId)
    requires
        pallet.has_consul(proposer),
        pallet.has_patrician(candidate),
        pallet.has_consul(candidate),
    ensures
        pallet.nomination_error(proposer, candidate) == Some(Error::AlreadyConsul),
{
}

/// Up to `MAX_CONSULS` consuls and `MAX_PATRICIANS` patricians are accepted;
/// one more of either is rejected.
pub proof fn law_roles_are_bounded(consuls: Seq<AccountId>, patricians: Seq<AccountId>)
    ensures
        consuls.len() <= MAX_CONSULS && patricians.len() <= MAX_PATRICIANS ==> roles_error(
            consuls,
            patricians,
        ) is None,
        consuls.len() > MAX_CONSULS ==> roles_error(consuls, patricians) == Some(
            Error::TooManyConsuls,
        ),
        consuls.len() <= MAX_CONSULS && patricians.len() > MAX_PATRICIANS ==> roles_error(
            consuls,
            patricians,
        ) == Some(Error::TooManyPatricians),
{
}

/// With `MAX_PROPOSALS` on file no proposal is accepted; with one fewer, one
/// more is.
pub proof fn law_proposals_are_bounded(pallet: Pallet)
    ensures
        pallet.filed().len() >= MAX_PROPOSALS ==> pallet.filing_error() == Some(
            Error::TooManyProposals,
        ),
        pallet.filed().len() == MAX_PROPOSALS - 1 ==> pallet.filing_error() is None,
{
}

/// The content hash of `draft`, made by `proposer`: the digest of the
/// encoding of the pair.
pub fn content_hash(proposer: AccountId, draft: &Proposal) -> (hash: ContentHash)
    ensures
        hash == blake2_256(preimage(proposer, *draft)),
{
    let bytes = encode_preimage(proposer, draft);
    blake2_256_of(bytes.as_slice())
}

/// Whether `who` is among `accounts`.
fn contains(accounts: &Vec<AccountId>, who: AccountId) -> (found: bool)
    ensures
        found == accounts@.contains(who),
{
    let mut i: usize = 0;
    while i < accounts.len()
        invariant
            i <= accounts.len(),
            forall|j: int| 0 <= j < i ==> accounts@[j] != who,
        decreases accounts.len() - i,
    {
        if accounts[i] == who {
            return true;
        }
        i += 1;
    }
    false
}

} // verus!
