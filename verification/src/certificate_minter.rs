use std::collections::HashMap;
use vstd::prelude::*;

use crate::Address;

verus! {

broadcast use vstd::std_specs::hash::group_hash_axioms;

/// Identifier of a grant.
pub type GrantId = u64;

/// What a completion certificate records about the grant it celebrates.
#[derive(Clone, Debug, PartialEq, Eq)]
pub struct CertificateMetadata {
    pub grant_id: GrantId,
    pub dao: Address,
    pub grantee: Address,
    pub completion_date: u64,
    pub total_streamed: u128,
    pub repo_url: String,
    pub description: String,
}

/// The minter's state: the last token id handed out, each token's owner
/// and each token's metadata.
pub struct CertificateMinter {
    pub last_token_id: u32,
    pub owners: HashMap<u32, Address>,
    pub metadata: HashMap<u32, CertificateMetadata>,
}

/// `m` records grant `grant_id` of `dao`, completed by `grantee` at `now`.
pub open spec fn metadata_is(
    m: CertificateMetadata,
    grant_id: GrantId,
    dao: Address,
    grantee: Address,
    now: u64,
    total_streamed: u128,
    repo_url: Seq<char>,
    description: Seq<char>,
) -> bool {
    &&& m.grant_id == grant_id
    &&& m.dao == dao
    &&& m.grantee == grantee
    &&& m.completion_date == now
    &&& m.total_streamed == total_streamed
    &&& m.repo_url@ == repo_url
    &&& m.description@ == description
}

impl CertificateMinter {
    /// Well-formedness: every token id in use lies between 1 and the last
    /// one handed out, and every owned token has metadata.
    pub open spec fn wf(&self) -> bool {
        &&& forall|id: u32| #[trigger]
            self.owners@.contains_key(id) ==> 1 <= id <= self.last_token_id
        &&& forall|id: u32| #[trigger]
            self.owners@.contains_key(id) ==> self.metadata@.contains_key(id)
        &&& forall|id: u32| #[trigger]
            self.metadata@.contains_key(id) ==> self.owners@.contains_key(id)
    }

    /// A minter that has minted nothing.
    pub fn new() -> (m: Self)
        ensures
            m.wf(),
            m.last_token_id == 0,
            m.owners@ == Map::<u32, Address>::empty(),
            m.metadata@ == Map::<u32, CertificateMetadata>::empty(),
    {
        CertificateMinter { last_token_id: 0, owners: HashMap::new(), metadata: HashMap::new() }
    }

    /// Mints the next token, one past the last, to `to`.
    fn sequential_mint(&mut self, to: Address) -> (id: u32)
        requires
            old(self).last_token_id < u32::MAX,
        ensures
            id == old(self).last_token_id + 1,
            final(self).last_token_id == id,
            final(self).owners@ == old(self).owners@.insert(id, to),
            final(self).metadata@ == old(self).metadata@,
    {
        let id: u32 = self.last_token_id + 1;
        self.last_token_id = id;
        self.owners.insert(id, to);
        id
    }

    /// Mints a soulbound completion certificate for grant `grant_id` to its
    /// `grantee`, recording the DAO, the amount streamed, the repository and
    /// a description, dated `now`; returns the token id, one past the last.
    pub fn mint_completion_certificate(
        &mut self,
        grant_id: GrantId,
        dao: Address,
        grantee: Address,
        total_streamed: u128,
        repo_url: String,
        description: String,
        now: u64,
    ) -> (token_id: u32)
        requires
            old(self).wf(),
            old(self).last_token_id < u32::MAX,
        ensures
            final(self).wf(),
            token_id == old(self).last_token_id + 1,
            final(self).last_token_id == token_id,
            final(self).owners@ == old(self).owners@.insert(token_id, grantee),
            final(self).metadata@ == old(self).metadata@.insert(
                token_id,
                final(self).metadata@[token_id],
            ),
            metadata_is(
                final(self).metadata@[token_id],
                grant_id,
                dao,
                grantee,
                now,
                total_streamed,
                repo_url@,
                description@,
            ),
    {
        let token_id: u32 = self.sequential_mint(grantee);
        let metadata = CertificateMetadata {
            grant_id,
            dao,
            grantee,
            completion_date: now,
            total_streamed,
            repo_url,
            description,
        };
        self.metadata.insert(token_id, metadata);
        token_id
    }

    /// The metadata of token `token_id`.
    pub fn get_certificate_metadata(&self, token_id: u32) -> (m: &CertificateMetadata)
        requires
            self.metadata@.contains_key(token_id),
        ensures
            *m == self.metadata@[token_id],
    {
        self.metadata.get(&token_id).unwrap()
    }
}

} // verus!
