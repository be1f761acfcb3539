//! The signing authority that mints on an organizer's behalf.
//!
//! The authority is not a stored secret: the ledger derives it from a fixed
//! tag, the organizer's identity and a one-byte nonce. A request signed by it
//! names those three seeds.

use vstd::prelude::*;

use crate::identity::Identity;

verus! {

/// The tag that opens the seeds of every manager authority: the ASCII bytes
/// of `manager`.
pub open spec fn manager_tag() -> Seq<u8> {
    seq![109u8, 97u8, 110u8, 97u8, 103u8, 101u8, 114u8]
}

/// The seeds of the authority that mints for `organizer`: the tag, the
/// organizer's identity, the nonce.
pub open spec fn manager_seeds(organizer: Identity, bump: u8) -> Seq<Seq<u8>> {
    seq![manager_tag(), organizer@, seq![bump]]
}

/// The tag spells `manager`.
pub proof fn lemma_tag_spells_manager()
    ensures
        manager_tag() == "manager"@.map_values(|c: char| c as u8),
{
    reveal_strlit("manager");
    assert(manager_tag() =~= "manager"@.map_values(|c: char| c as u8));
}

/// Lists the seeds of the authority that mints for `organizer`. The same
/// organizer and nonce always give the same seeds.
pub fn manager_signer_seeds(organizer: &Identity, bump: u8) -> (r: Vec<Vec<u8>>)
    ensures
        r.deep_view() == manager_seeds(*organizer, bump),
{
    let mut tag: Vec<u8> = Vec::new();
    tag.push(109u8);
    tag.push(97u8);
    tag.push(110u8);
    tag.push(97u8);
    tag.push(103u8);
    tag.push(101u8);
    tag.push(114u8);
    assert(tag@ =~= manager_tag());
    let mut nonce: Vec<u8> = Vec::new();
    nonce.push(bump);
    assert(nonce@ =~= seq![bump]);
    let mut seeds: Vec<Vec<u8>> = Vec::new();
    seeds.push(tag);
    seeds.push(organizer.to_vec());
    seeds.push(nonce);
    assert(seeds.deep_view() =~= manager_seeds(*organizer, bump)) by {
        assert(seeds@[0].deep_view() =~= manager_tag());
        assert(seeds@[1].deep_view() =~= organizer@);
        assert(seeds@[2].deep_view() =~= seq![bump]);
    }
    seeds
}

} // verus!
