//! Account identities, the little-endian encoding of campaign ids, and the
//! derivation of a vault's address from its creator and campaign.

use vstd::prelude::*;

verus! {

/// A 32-byte account key.
#[derive(Clone, Copy, Debug, PartialEq, Eq)]
pub struct Identity {
    pub bytes: [u8; 32],
}

impl View for Identity {
    type V = Seq<u8>;

    open spec fn view(&self) -> Seq<u8> {
        self.bytes@
    }
}

impl Identity {
    pub fn new(bytes: [u8; 32]) -> (r: Identity)
        ensures
            r@ == bytes@,
    {
        Identity { bytes }
    }

    /// Key equality, byte by byte: the one authorization predicate that every
    /// operation of the vault uses.
    pub fn same_as(&self, other: &Identity) -> (r: bool)
        ensures
            r == (self@ == other@),
    {
        let mut i: usize = 0;
        while i < 32
            invariant
                i <= 32,
                self@.len() == 32,
                other@.len() == 32,
                forall|j: int| 0 <= j < i ==> self@[j] == other@[j],
            decreases 32 - i,
        {
            if self.bytes[i] != other.bytes[i] {
                return false;
            }
            i = i + 1;
        }
        assert(self@ =~= other@);
        true
    }

    /// The key as a byte vector.
    pub fn to_vec(&self) -> (r: Vec<u8>)
        ensures
            r@ == self@,
    {
        let mut v: Vec<u8> = Vec::new();
        let mut i: usize = 0;
        while i < 32
            invariant
                i <= 32,
                self@.len() == 32,
                v@ =~= self@.subrange(0, i as int),
            decreases 32 - i,
        {
            v.push(self.bytes[i]);
            i = i + 1;
        }
        v
    }
}

/// The `k` low bytes of `n`, least significant first.
pub open spec fn le_bytes(n: nat, k: nat) -> Seq<u8>
    decreases k,
{
    if k == 0 {
        Seq::empty()
    } else {
        seq![(n % 256) as u8] + le_bytes(n / 256, (k - 1) as nat)
    }
}

/// The number that a little-endian byte sequence encodes.
pub open spec fn le_value(s: Seq<u8>) -> nat
    decreases s.len(),
{
    if s.len() == 0 {
        0
    } else {
        s[0] as nat + 256 * le_value(s.drop_first())
    }
}

pub open spec fn pow256(k: nat) -> nat
    decreases k,
{
    if k == 0 {
        1
    } else {
        256 * pow256((k - 1) as nat)
    }
}

/// Reading back the `k` low bytes of a number below `256^k` gives the number.
pub proof fn lemma_le_round_trip(n: nat, k: nat)
    requires
        n < pow256(k),
    ensures
        le_value(le_bytes(n, k)) == n,
    decreases k,
{
    if k > 0 {
        let s = le_bytes(n, k);
        assert(s.drop_first() =~= le_bytes(n / 256, (k - 1) as nat));
        assert(n / 256 < pow256((k - 1) as nat)) by (nonlinear_arith)
            requires
                n < 256 * pow256((k - 1) as nat),
        ;
        lemma_le_round_trip(n / 256, (k - 1) as nat);
    }
}

proof fn lemma_pow256_8()
    ensures
        pow256(8) == 0x1_0000_0000_0000_0000,
{
    reveal_with_fuel(pow256, 9);
}

/// The eight little-endian bytes of a campaign id.
pub fn u64_le_bytes(n: u64) -> (r: Vec<u8>)
    ensures
        r@ == le_bytes(n as nat, 8),
{
    let mut v: Vec<u8> = Vec::new();
    let mut x: u64 = n;
    let mut i: usize = 0;
    while i < 8
        invariant
            i <= 8,
            v@ + le_bytes(x as nat, (8 - i) as nat) == le_bytes(n as nat, 8),
        decreases 8 - i,
    {
        let b: u8 = (x % 256) as u8;
        let ghost rest = le_bytes((x / 256) as nat, (8 - i - 1) as nat);
        assert(le_bytes(x as nat, (8 - i) as nat) == seq![b] + rest);
        assert(v@ + (seq![b] + rest) =~= v@.push(b) + rest);
        v.push(b);
        x = x / 256;
        i = i + 1;
    }
    assert(v@ + le_bytes(x as nat, 0) =~= v@);
    v
}

/// The seed that opens every vault address.
pub open spec fn vault_tag() -> Seq<u8> {
    seq![118u8, 97u8, 117u8, 108u8, 116u8]
}

/// The seeds of a vault's address: the tag, the creator's key and the campaign
/// id in eight little-endian bytes.
pub open spec fn vault_seeds(creator: Seq<u8>, campaign_id: u64) -> Seq<Seq<u8>> {
    seq![vault_tag(), creator, le_bytes(campaign_id as nat, 8)]
}

/// What the program-address search returns for a list of seeds and a program
/// key: the address and its bump, or nothing where no bump gives one.
pub uninterp spec fn program_address(seeds: Seq<Seq<u8>>, program_id: Seq<u8>) -> Option<(Seq<u8>, u8)>;

pub open spec fn address_view(r: Option<([u8; 32], u8)>) -> Option<(Seq<u8>, u8)> {
    match r {
        Some((a, b)) => Some((a@, b)),
        None => None,
    }
}

/// Relies on `Pubkey::try_find_program_address` of anchor_lang (solana-address):
/// the address and bump it finds, or its giving up, depend on the seeds and the
/// program key alone.
#[verifier::external_body]
fn find_program_address(seeds: &Vec<Vec<u8>>, program_id: &[u8; 32]) -> (r: Option<([u8; 32], u8)>)
    ensures
        address_view(r) == program_address(seeds.deep_view(), program_id@),
{
    let refs: Vec<&[u8]> = seeds.iter().map(|s| s.as_slice()).collect();
    let program = anchor_lang::prelude::Pubkey::new_from_array(*program_id);
    anchor_lang::prelude::Pubkey::try_find_program_address(&refs, &program).map(
        |(a, b)| (a.to_bytes(), b),
    )
}

/// The seeds of the vault of `creator` for `campaign_id`.
pub fn vault_seed_list(creator: &Identity, campaign_id: u64) -> (r: Vec<Vec<u8>>)
    ensures
        r.deep_view() == vault_seeds(creator@, campaign_id),
{
    let mut tag: Vec<u8> = Vec::new();
    tag.push(118u8);
    tag.push(97u8);
    tag.push(117u8);
    tag.push(108u8);
    tag.push(116u8);
    let key = creator.to_vec();
    let id = u64_le_bytes(campaign_id);
    let mut seeds: Vec<Vec<u8>> = Vec::new();
    seeds.push(tag);
    seeds.push(key);
    seeds.push(id);
    proof {
        let t = seeds@[0];
        let k = seeds@[1];
        let d = seeds@[2];
        assert(t.deep_view() =~= vault_tag());
        assert(k.deep_view() =~= creator@);
        assert(d.deep_view() =~= le_bytes(campaign_id as nat, 8));
        assert(seeds.deep_view() =~= vault_seeds(creator@, campaign_id));
    }
    seeds
}

/// The address of a vault and its bump under `program_id`: the program
/// address of the vault's seeds. The same arguments always give the same
/// result.
pub fn derive_identity(program_id: &Identity, creator: &Identity, campaign_id: u64) -> (r: Option<(Identity, u8)>)
    ensures
        match r {
            Some((a, b)) => program_address(vault_seeds(creator@, campaign_id), program_id@) == Some((a@, b)),
            None => program_address(vault_seeds(creator@, campaign_id), program_id@) is None,
        },
{
    let seeds = vault_seed_list(creator, campaign_id);
    match find_program_address(&seeds, &program_id.bytes) {
        Some((a, b)) => Some((Identity { bytes: a }, b)),
        None => None,
    }
}

/// Distinct (creator, campaign) pairs give distinct seed lists, so the address
/// search is run on distinct inputs.
pub proof fn lemma_vault_seeds_injective(c1: Seq<u8>, id1: u64, c2: Seq<u8>, id2: u64)
    requires
        vault_seeds(c1, id1) == vault_seeds(c2, id2),
    ensures
        c1 == c2,
        id1 == id2,
{
    assert(vault_seeds(c1, id1)[1] == c1);
    assert(vault_seeds(c2, id2)[1] == c2);
    assert(vault_seeds(c1, id1)[2] == le_bytes(id1 as nat, 8));
    assert(vault_seeds(c2, id2)[2] == le_bytes(id2 as nat, 8));
    lemma_pow256_8();
    lemma_le_round_trip(id1 as nat, 8);
    lemma_le_round_trip(id2 as nat, 8);
}

} // verus!
