use vstd::prelude::*;

verus! {

/// Length in bytes of an account key.
pub const PUBKEY_LEN: usize = 32;

/// Address of the on-chain program whose accounts this library decodes,
/// in its canonical base58 rendering.
pub const QUARRY_MINE_PUBKEY: &'static str = "QMNeHCGYnLVDn1icRAfQZpjPLBNkfGbSKRB83G5d8KB";

/// A 32-byte fixed-length account identifier. Received as a byte array in a
/// request body and round-tripped unchanged into responses.
#[derive(Debug, PartialEq, Eq)]
pub struct Pubkey {
    bytes: Vec<u8>,
}

impl View for Pubkey {
    type V = Seq<u8>;

    closed spec fn view(&self) -> Seq<u8> {
        self.bytes@
    }
}

impl Pubkey {
    /// A key is well-formed when it holds exactly 32 bytes; every
    /// constructor of this type establishes this.
    pub open spec fn wf(&self) -> bool {
        self@.len() == PUBKEY_LEN
    }

    /// Builds a key from raw bytes; rejects any length other than 32.
    pub fn from_bytes(bytes: Vec<u8>) -> (r: Option<Pubkey>)
        ensures
            match r {
                Some(k) => bytes@.len() == PUBKEY_LEN && k@ == bytes@,
                None => bytes@.len() != PUBKEY_LEN,
            },
    {
        if bytes.len() == PUBKEY_LEN {
            Some(Pubkey { bytes })
        } else {
            None
        }
    }

    /// Builds a key from bytes already known to be exactly 32.
    pub(crate) fn from_exact(bytes: Vec<u8>) -> (r: Pubkey)
        requires
            bytes@.len() == PUBKEY_LEN,
        ensures
            r@ == bytes@,
            r.wf(),
    {
        Pubkey { bytes }
    }

    /// The key's bytes, unchanged.
    pub fn as_bytes(&self) -> (r: &Vec<u8>)
        ensures
            r@ == self@,
    {
        &self.bytes
    }
}

/// Pubkey config object for requests to use.
pub struct PubkeyConfig {
    pub pubkey: Pubkey,
}

/// The byte sequence and ownership metadata returned verbatim by the RPC
/// layer for one key; it exists only for the duration of one request.
pub struct RawAccount {
    /// The program that owns the account.
    pub owner: Pubkey,
    /// The account's raw data bytes, exactly as stored on chain.
    pub data: Vec<u8>,
}

/// The byte offset, within a quarry account's raw data, of the staked-token
/// mint identifier: the tag comes first, then the parent identifier, then
/// the mint. A program-account query for the quarries of one mint filters by
/// a byte comparison at this offset.
pub const QUARRY_TOKEN_MINT_OFFSET: usize = 40;

/// The byte-comparison filter that selects the quarries of one staked-token
/// mint: the offset to compare at, and the bytes that must match there.
pub fn quarry_token_mint_filter(lp_token_mint: &Pubkey) -> (r: (usize, Vec<u8>))
    ensures
        r.0 == QUARRY_TOKEN_MINT_OFFSET,
        r.1@ == lp_token_mint@,
{
    let bytes = vstd::slice::slice_to_vec(lp_token_mint.as_bytes().as_slice());
    (QUARRY_TOKEN_MINT_OFFSET, bytes)
}

/// Keeps, in order, the key of each (key, account) pair that a
/// program-account query returned.
pub fn collect_account_keys(accounts: Vec<(Pubkey, RawAccount)>) -> (r: Vec<Pubkey>)
    ensures
        r@.len() == accounts@.len(),
        forall|i: int| 0 <= i < accounts@.len() ==> r@[i]@ == accounts@[i].0@,
{
    let mut keys: Vec<Pubkey> = Vec::new();
    let mut rest = accounts;
    let ghost all = rest@;
    while rest.len() > 0
        invariant
            keys@.len() + rest@.len() == all.len(),
            rest@ =~= all.subrange(keys@.len() as int, all.len() as int),
            forall|i: int| 0 <= i < keys@.len() ==> keys@[i]@ == all[i].0@,
        decreases rest@.len(),
    {
        let (k, _account) = rest.remove(0);
        keys.push(k);
    }
    keys
}

} // verus!
