use parity_scale_codec::Encode;
use sp_runtime::traits::BlakeTwo256;
use sp_runtime::BoundedVec;
use telurean_pallets::hvc::types::{encode_preimage, Decision, Proposal};
use telurean_pallets::hvc::{
    content_hash, Consuls, Error, Event, Pallet, Patricians, MAX_CONSULS, MAX_PATRICIANS,
    MAX_PROPOSALS, PROPOSAL_DURATION,
};

fn pallet_with(consuls: Vec<u64>, patricians: Vec<u64>) -> Pallet {
    Pallet::new(
        BoundedVec::try_from(consuls).unwrap(),
        BoundedVec::try_from(patricians).unwrap(),
    )
}

/// The digest that the host's hasher gives to the pair of the proposer and
/// the nomination with a zeroed hash, encoded by the host's codec.
fn host_hash(proposer: u64, candidate: u64, expiry: u64) -> [u8; 32] {
    <BlakeTwo256 as sp_runtime::traits::Hash>::hash_of(&(
        proposer,
        (0u8, [0u8; 32], candidate, expiry),
    ))
    .0
}

#[test]
fn nomination_is_filed_under_its_content_hash() {
    let mut pallet = pallet_with(vec![1, 2], vec![10, 11]);
    let now = 1_000u64;
    assert_eq!(pallet.propose_consul(1, 10, now), Ok(Event::ConsulNominated { who: 10 }));

    let expiry = now + PROPOSAL_DURATION as u64;
    assert_eq!(expiry, 1_007);
    assert_eq!(pallet.proposals.len(), 1);
    assert_eq!(
        pallet.proposals[0],
        (1, Proposal::ConsulNomination(host_hash(1, 10, expiry), 10, expiry))
    );
    // The roles are as before.
    assert_eq!(pallet.consuls.to_vec(), vec![1, 2]);
    assert_eq!(pallet.patricians.to_vec(), vec![10, 11]);
}

#[test]
fn nominations_are_appended_in_order() {
    let mut pallet = pallet_with(vec![1, 2], vec![10, 11]);
    assert!(pallet.propose_consul(1, 10, 5).is_ok());
    assert!(pallet.propose_consul(2, 11, 6).is_ok());
    // The same nomination may be filed again: nothing forbids it.
    assert!(pallet.propose_consul(1, 10, 5).is_ok());
    let filed: Vec<(u64, Proposal)> = pallet.proposals.to_vec();
    assert_eq!(
        filed,
        vec![
            (1, Proposal::ConsulNomination(host_hash(1, 10, 12), 10, 12)),
            (2, Proposal::ConsulNomination(host_hash(2, 11, 13), 11, 13)),
            (1, Proposal::ConsulNomination(host_hash(1, 10, 12), 10, 12)),
        ]
    );
}

#[test]
fn content_hash_depends_on_proposer_candidate_and_expiry() {
    let draft =
        |candidate: u64, expiry: u64| Proposal::ConsulNomination([0u8; 32], candidate, expiry);
    let hash = content_hash(1, &draft(10, 100));
    assert_eq!(hash, content_hash(1, &draft(10, 100)));
    assert_eq!(hash, host_hash(1, 10, 100));
    assert_ne!(hash, content_hash(2, &draft(10, 100)));
    assert_ne!(hash, content_hash(1, &draft(11, 100)));
    assert_ne!(hash, content_hash(1, &draft(10, 101)));
    assert_ne!(hash, [0u8; 32]);
    // A known digest: proposer 1 nominates candidate 2 until moment 3.
    let known = content_hash(1, &draft(2, 3));
    assert_eq!(known, sp_crypto_digest(&encode_preimage(1, &draft(2, 3))));
}

/// Blake2b-256 by the host's hasher over raw bytes.
fn sp_crypto_digest(bytes: &[u8]) -> [u8; 32] {
    <BlakeTwo256 as sp_runtime::traits::Hash>::hash(bytes).0
}

#[test]
fn preimage_is_the_encoding_of_proposer_and_draft() {
    let draft = Proposal::ConsulNomination([0u8; 32], 0x0102, 0x0a0b0c0d);
    let mut expected: Vec<u8> = vec![7, 0, 0, 0, 0, 0, 0, 0];
    expected.push(0);
    expected.extend_from_slice(&[0u8; 32]);
    expected.extend_from_slice(&[0x02, 0x01, 0, 0, 0, 0, 0, 0]);
    expected.extend_from_slice(&[0x0d, 0x0c, 0x0b, 0x0a, 0, 0, 0, 0]);
    assert_eq!(encode_preimage(7, &draft), expected);
    assert_eq!(expected.len(), 57);
}

#[test]
fn proposals_encode_by_variant() {
    let mut hash = [0u8; 32];
    hash[0] = 0xaa;
    hash[31] = 0xbb;

    let consul = Proposal::ConsulNomination(hash, 1, 2).encode();
    assert_eq!(consul.len(), 1 + 32 + 8 + 8);
    assert_eq!(consul[0], 0);
    assert_eq!(&consul[1..33], &hash[..]);
    assert_eq!(&consul[33..41], &1u64.to_le_bytes()[..]);
    assert_eq!(&consul[41..49], &2u64.to_le_bytes()[..]);

    let patrician = Proposal::PatricianNomination(hash, 1, 2).encode();
    assert_eq!(patrician[0], 1);
    assert_eq!(&patrician[1..], &consul[1..]);

    let block = Proposal::NewBlock(hash, u64::MAX).encode();
    assert_eq!(block.len(), 1 + 32 + 8);
    assert_eq!(block[0], 2);
    assert_eq!(&block[1..33], &hash[..]);
    assert_eq!(&block[33..], &[0xff; 8][..]);
}

#[test]
fn proposals_encode_as_the_host_codec_encodes_them() {
    let mut hash = [0u8; 32];
    for (i, byte) in hash.iter_mut().enumerate() {
        *byte = i as u8 * 3;
    }
    let cases = [(0u64, 0u64), (1, 2), (u64::MAX, 0x0123_4567_89ab_cdef)];
    for (who, when) in cases {
        assert_eq!(
            Proposal::ConsulNomination(hash, who, when).encode(),
            (0u8, hash, who, when).encode()
        );
        assert_eq!(
            Proposal::PatricianNomination(hash, who, when).encode(),
            (1u8, hash, who, when).encode()
        );
        assert_eq!(Proposal::NewBlock(hash, when).encode(), (2u8, hash, when).encode());
        assert_eq!(
            encode_preimage(who, &Proposal::NewBlock(hash, when)),
            (who, (2u8, hash, when)).encode()
        );
    }
}

#[test]
fn proposer_must_be_a_consul() {
    let mut pallet = pallet_with(vec![1, 2], vec![10, 11]);
    // Whatever the candidate is: a patrician, a consul, a stranger, the caller.
    for candidate in [10u64, 1, 99, 3] {
        assert_eq!(pallet.propose_consul(3, candidate, 0), Err(Error::InvalidConsul));
    }
    // A patrician is no consul.
    assert_eq!(pallet.propose_consul(10, 11, 0), Err(Error::InvalidConsul));
    assert!(pallet.proposals.is_empty());
}

#[test]
fn candidate_must_be_a_patrician() {
    let mut pallet = pallet_with(vec![1, 2], vec![10, 11]);
    assert_eq!(pallet.propose_consul(1, 99, 0), Err(Error::InvalidPatrician));
    // A consul that is no patrician is rejected as no patrician.
    assert_eq!(pallet.propose_consul(1, 2, 0), Err(Error::InvalidPatrician));
    assert!(pallet.proposals.is_empty());
}

#[test]
fn candidate_must_not_be_a_consul_already() {
    let mut pallet = pallet_with(vec![1, 2, 10], vec![10, 11]);
    assert_eq!(pallet.propose_consul(1, 10, 0), Err(Error::AlreadyConsul));
    // A consul may not nominate itself either.
    assert_eq!(pallet.propose_consul(10, 10, 0), Err(Error::AlreadyConsul));
    assert!(pallet.proposals.is_empty());
    assert!(pallet.propose_consul(10, 11, 0).is_ok());
}

#[test]
fn proposals_are_bounded() {
    let mut pallet = pallet_with(vec![1], vec![10]);
    for i in 0..MAX_PROPOSALS as u64 {
        assert_eq!(pallet.proposals.len() as u64, i);
        assert_eq!(pallet.propose_consul(1, 10, i), Ok(Event::ConsulNominated { who: 10 }));
    }
    assert_eq!(pallet.proposals.len(), MAX_PROPOSALS as usize);
    let before: Vec<(u64, Proposal)> = pallet.proposals.to_vec();

    assert_eq!(pallet.propose_consul(1, 10, 100), Err(Error::TooManyProposals));
    assert_eq!(
        pallet.file_nomination(1, 10, 100, [1u8; 32]),
        Err(Error::TooManyProposals)
    );
    assert_eq!(pallet.proposals.to_vec(), before);
    // The role checks still come first.
    assert_eq!(pallet.propose_consul(2, 10, 100), Err(Error::InvalidConsul));
    assert_eq!(pallet.propose_consul(1, 11, 100), Err(Error::InvalidPatrician));
}

#[test]
fn nomination_is_filed_with_the_hash_given() {
    let mut pallet = pallet_with(vec![], vec![]);
    assert_eq!(
        pallet.file_nomination(4, 5, 6, [9u8; 32]),
        Ok(Event::ConsulNominated { who: 5 })
    );
    assert_eq!(pallet.proposals.to_vec(), vec![(4, Proposal::ConsulNomination([9u8; 32], 5, 6))]);
}

#[test]
fn roles_are_looked_up_in_the_lists() {
    let pallet = pallet_with(vec![3, 1, 2], vec![2, 7]);
    assert!(pallet.is_consul(1) && pallet.is_consul(2) && pallet.is_consul(3));
    assert!(!pallet.is_consul(7) && !pallet.is_consul(0));
    assert!(pallet.is_patrician(2) && pallet.is_patrician(7));
    assert!(!pallet.is_patrician(1));
    let nobody = pallet_with(vec![], vec![]);
    assert!(!nobody.is_consul(0) && !nobody.is_patrician(0));
}

#[test]
fn roles_are_taken_in_order_up_to_their_bounds() {
    let pallet = Pallet::with_roles(vec![3, 1, 2], vec![9, 8]).unwrap();
    assert_eq!(pallet.consuls.to_vec(), vec![3, 1, 2]);
    assert_eq!(pallet.patricians.to_vec(), vec![9, 8]);
    assert!(pallet.proposals.is_empty());

    let full = Pallet::with_roles(
        (0..MAX_CONSULS as u64).collect(),
        (0..MAX_PATRICIANS as u64).collect(),
    )
    .unwrap();
    assert_eq!(full.consuls.len(), MAX_CONSULS as usize);
    assert_eq!(full.patricians.len(), MAX_PATRICIANS as usize);

    assert_eq!(
        Pallet::with_roles((0..MAX_CONSULS as u64 + 1).collect(), vec![]),
        Err(Error::TooManyConsuls)
    );
    assert_eq!(
        Pallet::with_roles(vec![], (0..MAX_PATRICIANS as u64 + 1).collect()),
        Err(Error::TooManyPatricians)
    );
    // Too many consuls are reported before too many patricians.
    assert_eq!(
        Pallet::with_roles(
            (0..MAX_CONSULS as u64 + 1).collect(),
            (0..MAX_PATRICIANS as u64 + 1).collect()
        ),
        Err(Error::TooManyConsuls)
    );
    assert_eq!(Pallet::with_roles(vec![], vec![]), Ok(pallet_with(vec![], vec![])));
}

#[test]
fn role_lists_are_bounded() {
    assert!(Consuls::try_from(vec![0u64; MAX_CONSULS as usize]).is_ok());
    assert!(Consuls::try_from(vec![0u64; MAX_CONSULS as usize + 1]).is_err());
    assert!(Patricians::try_from(vec![0u64; MAX_PATRICIANS as usize]).is_ok());
    assert!(Patricians::try_from(vec![0u64; MAX_PATRICIANS as usize + 1]).is_err());
}

#[test]
fn expiry_reaches_the_end_of_the_clock() {
    let mut pallet = pallet_with(vec![1], vec![10]);
    let now = u64::MAX - PROPOSAL_DURATION as u64;
    assert!(pallet.propose_consul(1, 10, now).is_ok());
    assert_eq!(
        pallet.proposals[0],
        (1, Proposal::ConsulNomination(host_hash(1, 10, u64::MAX), 10, u64::MAX))
    );
}

#[test]
fn decisions_are_distinct() {
    assert_ne!(Decision::Approved, Decision::Rejected);
    assert_ne!(Decision::Rejected, Decision::NeedsInfo);
    assert_ne!(Decision::Approved, Decision::NeedsInfo);
}
