use vstd::prelude::*;
use vstd::bytes::{
    spec_u128_from_le_bytes, spec_u16_from_le_bytes, spec_u64_from_le_bytes, u128_from_le_bytes,
    u16_from_le_bytes, u64_from_le_bytes,
};
use vstd::slice::{slice_subrange, slice_to_vec};
use crate::account::{Pubkey, RawAccount};

verus! {

// An on-chain account is a raw byte blob: an 8-byte tag identifying the
// record layout, followed by the record's fields in a fixed order, each
// little-endian and of fixed width. The three layouts decoded here are a
// versioned wire format owned by the on-chain program; the byte offsets
// below are that contract and must not drift.

/// Width of the leading layout tag.
pub const TAG_LEN: usize = 8;

/// Bytes a rewarder record occupies, tag included.
pub const REWARDER_ACCOUNT_LEN: usize = 260;

/// Bytes a quarry record occupies, tag included.
pub const QUARRY_ACCOUNT_LEN: usize = 140;

/// Bytes a miner record occupies, tag included.
pub const MINER_ACCOUNT_LEN: usize = 145;

/// Why a byte buffer failed to decode. Decoding is all-or-nothing: on any
/// of these, no partial record is produced.
#[derive(Clone, Copy, Debug, PartialEq, Eq, Structural)]
pub enum DecodeError {
    /// The leading tag does not match the expected record layout.
    WrongType,
    /// Fewer bytes than the expected layout requires.
    Truncated,
    /// The bytes carry a value no field of the layout admits
    /// (a flag byte that is neither 0 nor 1).
    InvalidData,
}

/// The tag of the rewarder layout.
pub open spec fn spec_rewarder_tag() -> Seq<u8> {
    seq![0x53u8, 0x03u8, 0xcbu8, 0xaeu8, 0xf4u8, 0x1eu8, 0xacu8, 0xc6u8]
}

/// The tag of the quarry layout.
pub open spec fn spec_quarry_tag() -> Seq<u8> {
    seq![0xf3u8, 0xf8u8, 0x36u8, 0xb6u8, 0xf0u8, 0x55u8, 0x09u8, 0x4du8]
}

/// The tag of the miner layout.
pub open spec fn spec_miner_tag() -> Seq<u8> {
    seq![0xdfu8, 0x71u8, 0x0fu8, 0x36u8, 0x7bu8, 0x7au8, 0x8cu8, 0x64u8]
}

/// The tag of the rewarder layout, as bytes.
pub fn rewarder_tag() -> (t: Vec<u8>)
    ensures
        t@ == spec_rewarder_tag(),
{
    let mut t: Vec<u8> = Vec::new();
    t.push(0x53);
    t.push(0x03);
    t.push(0xcb);
    t.push(0xae);
    t.push(0xf4);
    t.push(0x1e);
    t.push(0xac);
    t.push(0xc6);
    proof {
        assert(t@ =~= spec_rewarder_tag());
    }
    t
}

/// The tag of the quarry layout, as bytes.
pub fn quarry_tag() -> (t: Vec<u8>)
    ensures
        t@ == spec_quarry_tag(),
{
    let mut t: Vec<u8> = Vec::new();
    t.push(0xf3);
    t.push(0xf8);
    t.push(0x36);
    t.push(0xb6);
    t.push(0xf0);
    t.push(0x55);
    t.push(0x09);
    t.push(0x4d);
    proof {
        assert(t@ =~= spec_quarry_tag());
    }
    t
}

/// The tag of the miner layout, as bytes.
pub fn miner_tag() -> (t: Vec<u8>)
    ensures
        t@ == spec_miner_tag(),
{
    let mut t: Vec<u8> = Vec::new();
    t.push(0xdf);
    t.push(0x71);
    t.push(0x0f);
    t.push(0x36);
    t.push(0x7b);
    t.push(0x7a);
    t.push(0x8c);
    t.push(0x64);
    proof {
        assert(t@ =~= spec_miner_tag());
    }
    t
}

/// Whether the buffer opens with the given tag.
fn has_tag(data: &Vec<u8>, tag: &Vec<u8>) -> (r: bool)
    requires
        data@.len() >= tag@.len(),
    ensures
        r == (data@.subrange(0, tag@.len() as int) == tag@),
{
    let mut i: usize = 0;
    while i < tag.len()
        invariant
            i <= tag@.len(),
            data@.len() >= tag@.len(),
            forall|j: int| 0 <= j < i ==> data@[j] == tag@[j],
        decreases tag@.len() - i,
    {
        if data[i] != tag[i] {
            proof {
                assert(data@.subrange(0, tag@.len() as int)[i as int] != tag@[i as int]);
            }
            return false;
        }
        i += 1;
    }
    proof {
        assert(data@.subrange(0, tag@.len() as int) =~= tag@);
    }
    true
}

/// The 16-bit little-endian integer at `off`.
fn read_u16(data: &Vec<u8>, off: usize) -> (r: u16)
    requires
        off + 2 <= data@.len(),
    ensures
        r == spec_u16_from_le_bytes(data@.subrange(off as int, off as int + 2)),
{
    let n = data.len();
    assert(off + 2 <= n);
    u16_from_le_bytes(slice_subrange(data.as_slice(), off, off + 2))
}

/// The 64-bit little-endian integer at `off`.
fn read_u64(data: &Vec<u8>, off: usize) -> (r: u64)
    requires
        off + 8 <= data@.len(),
    ensures
        r == spec_u64_from_le_bytes(data@.subrange(off as int, off as int + 8)),
{
    let n = data.len();
    assert(off + 8 <= n);
    u64_from_le_bytes(slice_subrange(data.as_slice(), off, off + 8))
}

/// The 128-bit little-endian integer at `off`.
fn read_u128(data: &Vec<u8>, off: usize) -> (r: u128)
    requires
        off + 16 <= data@.len(),
    ensures
        r == spec_u128_from_le_bytes(data@.subrange(off as int, off as int + 16)),
{
    let n = data.len();
    assert(off + 16 <= n);
    u128_from_le_bytes(slice_subrange(data.as_slice(), off, off + 16))
}

/// The signed 64-bit little-endian integer denoted by an 8-byte sequence,
/// in two's complement.
pub open spec fn spec_i64_from_le_bytes(s: Seq<u8>) -> int {
    let u = spec_u64_from_le_bytes(s);
    if u < 0x8000000000000000 {
        u as int
    } else {
        u - 0x10000000000000000
    }
}

/// The signed 64-bit little-endian integer at `off`.
fn read_i64(data: &Vec<u8>, off: usize) -> (r: i64)
    requires
        off + 8 <= data@.len(),
    ensures
        r as int == spec_i64_from_le_bytes(data@.subrange(off as int, off as int + 8)),
{
    let u = read_u64(data, off);
    if u < 0x8000000000000000 {
        u as i64
    } else {
        -1i64 - ((u64::MAX - u) as i64)
    }
}

/// The 32-byte identifier at `off`.
fn read_pubkey(data: &Vec<u8>, off: usize) -> (r: Pubkey)
    requires
        off + 32 <= data@.len(),
    ensures
        r@ == data@.subrange(off as int, off as int + 32),
        r.wf(),
{
    let n = data.len();
    assert(off + 32 <= n);
    let bytes = slice_to_vec(slice_subrange(data.as_slice(), off, off + 32));
    Pubkey::from_exact(bytes)
}

/// Global configuration for a reward-distribution pool: its authorities,
/// fee accounting, pause flag, and the count of child pools it manages.
#[derive(Debug)]
pub struct Rewarder {
    /// Key the pool's program address was derived from.
    pub base: Pubkey,
    /// Bump seed for the program address.
    pub bump: u8,
    /// Authority who controls the rewarder.
    pub authority: Pubkey,
    /// Pending authority which must accept the authority.
    pub pending_authority: Pubkey,
    /// Number of quarries the rewarder manages.
    pub num_quarries: u16,
    /// Amount of reward tokens distributed per year.
    pub annual_rewards_rate: u64,
    /// Total amount of reward shares allocated to quarries.
    pub total_rewards_shares: u64,
    /// Mint wrapper.
    pub mint_wrapper: Pubkey,
    /// Mint of the rewards token.
    pub rewards_token_mint: Pubkey,
    /// Account that claim fees are placed in.
    pub claim_fee_token_account: Pubkey,
    /// Maximum fee on each claim, in thousands of basis points.
    pub max_claim_fee_kbps: u64,
    /// Authority allowed to pause the rewarder.
    pub pause_authority: Pubkey,
    /// Whether instructions on the rewarder are paused.
    pub is_paused: bool,
}

/// Field-by-field correspondence between a decoded rewarder and the raw
/// bytes it was decoded from: each field sits at its fixed offset past the
/// 8-byte tag, integers little-endian.
pub open spec fn rewarder_matches_bytes(w: Rewarder, s: Seq<u8>) -> bool {
    &&& w.base@ == s.subrange(8, 40)
    &&& w.bump == s[40]
    &&& w.authority@ == s.subrange(41, 73)
    &&& w.pending_authority@ == s.subrange(73, 105)
    &&& w.num_quarries == spec_u16_from_le_bytes(s.subrange(105, 107))
    &&& w.annual_rewards_rate == spec_u64_from_le_bytes(s.subrange(107, 115))
    &&& w.total_rewards_shares == spec_u64_from_le_bytes(s.subrange(115, 123))
    &&& w.mint_wrapper@ == s.subrange(123, 155)
    &&& w.rewards_token_mint@ == s.subrange(155, 187)
    &&& w.claim_fee_token_account@ == s.subrange(187, 219)
    &&& w.max_claim_fee_kbps == spec_u64_from_le_bytes(s.subrange(219, 227))
    &&& w.pause_authority@ == s.subrange(227, 259)
    &&& w.is_paused == (s[259] == 1)
}

/// Whether decoding a buffer as a rewarder succeeds, and if not, why:
/// a buffer too short to carry a tag is truncated; then a tag mismatch is
/// the wrong type, checked before anything else is read; then a buffer
/// shorter than the layout is truncated; then a pause flag that is neither
/// 0 nor 1 is invalid.
pub open spec fn rewarder_decode_outcome(s: Seq<u8>) -> Result<(), DecodeError> {
    if s.len() < 8 {
        Err(DecodeError::Truncated)
    } else if s.subrange(0, 8) != spec_rewarder_tag() {
        Err(DecodeError::WrongType)
    } else if s.len() < REWARDER_ACCOUNT_LEN {
        Err(DecodeError::Truncated)
    } else if s[259] != 0 && s[259] != 1 {
        Err(DecodeError::InvalidData)
    } else {
        Ok(())
    }
}

/// Decodes a rewarder record from raw account bytes. Succeeds exactly when
/// the buffer carries the rewarder tag, is long enough for the layout, and
/// its pause flag is a valid boolean; the decoded fields then match the
/// bytes at their fixed offsets. Bytes past the layout are ignored.
pub fn try_decode_rewarder(data: &Vec<u8>) -> (r: Result<Rewarder, DecodeError>)
    ensures
        match r {
            Ok(w) => rewarder_decode_outcome(data@) is Ok && rewarder_matches_bytes(w, data@),
            Err(e) => rewarder_decode_outcome(data@) == Err::<(), DecodeError>(e),
        },
{
    if data.len() < TAG_LEN {
        return Err(DecodeError::Truncated);
    }
    let tag = rewarder_tag();
    if !has_tag(data, &tag) {
        return Err(DecodeError::WrongType);
    }
    if data.len() < REWARDER_ACCOUNT_LEN {
        return Err(DecodeError::Truncated);
    }
    let flag = data[259];
    if flag != 0 && flag != 1 {
        return Err(DecodeError::InvalidData);
    }
    Ok(Rewarder {
        base: read_pubkey(data, 8),
        bump: data[40],
        authority: read_pubkey(data, 41),
        pending_authority: read_pubkey(data, 73),
        num_quarries: read_u16(data, 105),
        annual_rewards_rate: read_u64(data, 107),
        total_rewards_shares: read_u64(data, 115),
        mint_wrapper: read_pubkey(data, 123),
        rewards_token_mint: read_pubkey(data, 155),
        claim_fee_token_account: read_pubkey(data, 187),
        max_claim_fee_kbps: read_u64(data, 219),
        pause_authority: read_pubkey(data, 227),
        is_paused: flag == 1,
    })
}

impl Rewarder {
    /// Decodes the rewarder carried by a raw account's data bytes.
    pub fn wrap(account: &RawAccount) -> (r: Result<Self, DecodeError>)
        ensures
            match r {
                Ok(w) => rewarder_decode_outcome(account.data@) is Ok && rewarder_matches_bytes(
                    w,
                    account.data@,
                ),
                Err(e) => rewarder_decode_outcome(account.data@) == Err::<(), DecodeError>(e),
            },
    {
        try_decode_rewarder(&account.data)
    }
}

/// A child pool under a rewarder: the asset it stakes, its reward rate and
/// checkpoints, deposit totals, and participant count.
#[derive(Debug)]
pub struct Quarry {
    /// Rewarder that owns this quarry.
    pub rewarder_key: Pubkey,
    /// Staked-token mint this quarry is designated to.
    pub token_mint_key: Pubkey,
    /// Bump seed for the program address.
    pub bump: u8,
    /// Index of the quarry under its rewarder.
    pub index: u16,
    /// Decimals on the staked-token mint.
    pub token_mint_decimals: u8,
    /// Timestamp when quarry rewards cease.
    pub famine_ts: i64,
    /// Timestamp of the last checkpoint.
    pub last_update_ts: i64,
    /// Rewards per staked token, accumulated at the last checkpoint.
    pub rewards_per_token_stored: u128,
    /// Amount of rewards distributed to the quarry per year.
    pub annual_rewards_rate: u64,
    /// Reward shares allocated to this quarry.
    pub rewards_share: u64,
    /// Total number of tokens deposited into the quarry.
    pub total_tokens_deposited: u64,
    /// Number of miners.
    pub num_miners: u64,
}

/// Field-by-field correspondence between a decoded quarry and the raw
/// bytes it was decoded from.
pub open spec fn quarry_matches_bytes(q: Quarry, s: Seq<u8>) -> bool {
    &&& q.rewarder_key@ == s.subrange(8, 40)
    &&& q.token_mint_key@ == s.subrange(40, 72)
    &&& q.bump == s[72]
    &&& q.index == spec_u16_from_le_bytes(s.subrange(73, 75))
    &&& q.token_mint_decimals == s[75]
    &&& q.famine_ts as int == spec_i64_from_le_bytes(s.subrange(76, 84))
    &&& q.last_update_ts as int == spec_i64_from_le_bytes(s.subrange(84, 92))
    &&& q.rewards_per_token_stored == spec_u128_from_le_bytes(s.subrange(92, 108))
    &&& q.annual_rewards_rate == spec_u64_from_le_bytes(s.subrange(108, 116))
    &&& q.rewards_share == spec_u64_from_le_bytes(s.subrange(116, 124))
    &&& q.total_tokens_deposited == spec_u64_from_le_bytes(s.subrange(124, 132))
    &&& q.num_miners == spec_u64_from_le_bytes(s.subrange(132, 140))
}

/// Whether decoding a buffer as a quarry succeeds, and if not, why.
/// The quarry layout has no flag byte, so only the tag and the length
/// are checked.
pub open spec fn quarry_decode_outcome(s: Seq<u8>) -> Result<(), DecodeError> {
    if s.len() < 8 {
        Err(DecodeError::Truncated)
    } else if s.subrange(0, 8) != spec_quarry_tag() {
        Err(DecodeError::WrongType)
    } else if s.len() < QUARRY_ACCOUNT_LEN {
        Err(DecodeError::Truncated)
    } else {
        Ok(())
    }
}

/// Decodes a quarry record from raw account bytes. Succeeds exactly when
/// the buffer carries the quarry tag and is long enough for the layout;
/// the decoded fields then match the bytes at their fixed offsets.
pub fn try_decode_quarry(data: &Vec<u8>) -> (r: Result<Quarry, DecodeError>)
    ensures
        match r {
            Ok(q) => quarry_decode_outcome(data@) is Ok && quarry_matches_bytes(q, data@),
            Err(e) => quarry_decode_outcome(data@) == Err::<(), DecodeError>(e),
        },
{
    if data.len() < TAG_LEN {
        return Err(DecodeError::Truncated);
    }
    let tag = quarry_tag();
    if !has_tag(data, &tag) {
        return Err(DecodeError::WrongType);
    }
    if data.len() < QUARRY_ACCOUNT_LEN {
        return Err(DecodeError::Truncated);
    }
    Ok(Quarry {
        rewarder_key: read_pubkey(data, 8),
        token_mint_key: read_pubkey(data, 40),
        bump: data[72],
        index: read_u16(data, 73),
        token_mint_decimals: data[75],
        famine_ts: read_i64(data, 76),
        last_update_ts: read_i64(data, 84),
        rewards_per_token_stored: read_u128(data, 92),
        annual_rewards_rate: read_u64(data, 108),
        rewards_share: read_u64(data, 116),
        total_tokens_deposited: read_u64(data, 124),
        num_miners: read_u64(data, 132),
    })
}

impl Quarry {
    /// Decodes the quarry carried by a raw account's data bytes.
    pub fn wrap(account: &RawAccount) -> (r: Result<Self, DecodeError>)
        ensures
            match r {
                Ok(q) => quarry_decode_outcome(account.data@) is Ok && quarry_matches_bytes(
                    q,
                    account.data@,
                ),
                Err(e) => quarry_decode_outcome(account.data@) == Err::<(), DecodeError>(e),
            },
    {
        try_decode_quarry(&account.data)
    }
}

/// A participant's position within a quarry: its staked balance, unclaimed
/// reward accounting, and assigned index.
#[derive(Debug)]
pub struct Miner {
    /// Quarry this miner works on.
    pub quarry_key: Pubkey,
    /// Authority who manages this miner.
    pub authority: Pubkey,
    /// Bump seed for the program address.
    pub bump: u8,
    /// Token account holding the miner's staked tokens.
    pub token_vault_key: Pubkey,
    /// Amount of tokens the miner may claim; reset to 0 on each claim.
    pub rewards_earned: u64,
    /// Checkpoint of the quarry's rewards paid per staked token.
    pub rewards_per_token_paid: u128,
    /// Number of tokens the miner holds.
    pub balance: u64,
    /// Index of the miner, assigned monotonically under its quarry.
    pub index: u64,
}

/// Field-by-field correspondence between a decoded miner and the raw
/// bytes it was decoded from.
pub open spec fn miner_matches_bytes(m: Miner, s: Seq<u8>) -> bool {
    &&& m.quarry_key@ == s.subrange(8, 40)
    &&& m.authority@ == s.subrange(40, 72)
    &&& m.bump == s[72]
    &&& m.token_vault_key@ == s.subrange(73, 105)
    &&& m.rewards_earned == spec_u64_from_le_bytes(s.subrange(105, 113))
    &&& m.rewards_per_token_paid == spec_u128_from_le_bytes(s.subrange(113, 129))
    &&& m.balance == spec_u64_from_le_bytes(s.subrange(129, 137))
    &&& m.index == spec_u64_from_le_bytes(s.subrange(137, 145))
}

/// Whether decoding a buffer as a miner succeeds, and if not, why.
pub open spec fn miner_decode_outcome(s: Seq<u8>) -> Result<(), DecodeError> {
    if s.len() < 8 {
        Err(DecodeError::Truncated)
    } else if s.subrange(0, 8) != spec_miner_tag() {
        Err(DecodeError::WrongType)
    } else if s.len() < MINER_ACCOUNT_LEN {
        Err(DecodeError::Truncated)
    } else {
        Ok(())
    }
}

/// Decodes a miner record from raw account bytes. Succeeds exactly when
/// the buffer carries the miner tag and is long enough for the layout;
/// the decoded fields then match the bytes at their fixed offsets.
pub fn try_decode_miner(data: &Vec<u8>) -> (r: Result<Miner, DecodeError>)
    ensures
        match r {
            Ok(m) => miner_decode_outcome(data@) is Ok && miner_matches_bytes(m, data@),
            Err(e) => miner_decode_outcome(data@) == Err::<(), DecodeError>(e),
        },
{
    if data.len() < TAG_LEN {
        return Err(DecodeError::Truncated);
    }
    let tag = miner_tag();
    if !has_tag(data, &tag) {
        return Err(DecodeError::WrongType);
    }
    if data.len() < MINER_ACCOUNT_LEN {
        return Err(DecodeError::Truncated);
    }
    Ok(Miner {
        quarry_key: read_pubkey(data, 8),
        authority: read_pubkey(data, 40),
        bump: data[72],
        token_vault_key: read_pubkey(data, 73),
        rewards_earned: read_u64(data, 105),
        rewards_per_token_paid: read_u128(data, 113),
        balance: read_u64(data, 129),
        index: read_u64(data, 137),
    })
}

impl Miner {
    /// Decodes the miner carried by a raw account's data bytes.
    pub fn wrap(account: &RawAccount) -> (r: Result<Self, DecodeError>)
        ensures
            match r {
                Ok(m) => miner_decode_outcome(account.data@) is Ok && miner_matches_bytes(
                    m,
                    account.data@,
                ),
                Err(e) => miner_decode_outcome(account.data@) == Err::<(), DecodeError>(e),
            },
    {
        try_decode_miner(&account.data)
    }
}

/// Which of the three record layouts a caller expects.
#[derive(Clone, Copy, Debug, PartialEq, Eq, Structural)]
pub enum RecordKind {
    Rewarder,
    Quarry,
    Miner,
}

/// A decoded record of any of the three layouts.
#[derive(Debug)]
pub enum DecodedRecord {
    Rewarder(Rewarder),
    Quarry(Quarry),
    Miner(Miner),
}

/// The tag of each record layout.
pub open spec fn spec_tag(kind: RecordKind) -> Seq<u8> {
    match kind {
        RecordKind::Rewarder => spec_rewarder_tag(),
        RecordKind::Quarry => spec_quarry_tag(),
        RecordKind::Miner => spec_miner_tag(),
    }
}

/// The minimum buffer length of each record layout, tag included.
pub open spec fn spec_min_len(kind: RecordKind) -> int {
    match kind {
        RecordKind::Rewarder => REWARDER_ACCOUNT_LEN as int,
        RecordKind::Quarry => QUARRY_ACCOUNT_LEN as int,
        RecordKind::Miner => MINER_ACCOUNT_LEN as int,
    }
}

/// Whether decoding a buffer as the given layout succeeds, and if not, why.
pub open spec fn decode_outcome(kind: RecordKind, s: Seq<u8>) -> Result<(), DecodeError> {
    match kind {
        RecordKind::Rewarder => rewarder_decode_outcome(s),
        RecordKind::Quarry => quarry_decode_outcome(s),
        RecordKind::Miner => miner_decode_outcome(s),
    }
}

/// Decodes raw account bytes as the expected record layout: the decode
/// table keyed by the leading tag. Succeeds exactly when the layout-specific
/// decoder does, and then yields that layout's record.
pub fn decode(data: &Vec<u8>, expected: RecordKind) -> (r: Result<DecodedRecord, DecodeError>)
    ensures
        match r {
            Ok(rec) => decode_outcome(expected, data@) is Ok && (match expected {
                RecordKind::Rewarder => rec matches DecodedRecord::Rewarder(w)
                    && rewarder_matches_bytes(w, data@),
                RecordKind::Quarry => rec matches DecodedRecord::Quarry(q) && quarry_matches_bytes(
                    q,
                    data@,
                ),
                RecordKind::Miner => rec matches DecodedRecord::Miner(m) && miner_matches_bytes(
                    m,
                    data@,
                ),
            }),
            Err(e) => decode_outcome(expected, data@) == Err::<(), DecodeError>(e),
        },
{
    match expected {
        RecordKind::Rewarder => match try_decode_rewarder(data) {
            Ok(w) => Ok(DecodedRecord::Rewarder(w)),
            Err(e) => Err(e),
        },
        RecordKind::Quarry => match try_decode_quarry(data) {
            Ok(q) => Ok(DecodedRecord::Quarry(q)),
            Err(e) => Err(e),
        },
        RecordKind::Miner => match try_decode_miner(data) {
            Ok(m) => Ok(DecodedRecord::Miner(m)),
            Err(e) => Err(e),
        },
    }
}

/// Decoding a buffer whose leading tag is not the expected layout's tag
/// fails with the type-mismatch error — and with it, since decoding is
/// all-or-nothing, returns no record at all.
pub proof fn lemma_decode_wrong_tag(kind: RecordKind, s: Seq<u8>)
    requires
        s.len() >= 8,
        s.subrange(0, 8) != spec_tag(kind),
    ensures
        decode_outcome(kind, s) == Err::<(), DecodeError>(DecodeError::WrongType),
{
}

/// Decoding a buffer shorter than the layout's minimum length fails with
/// the truncation error, as long as the tag itself does not already
/// mismatch: a buffer too short to carry a tag is truncated whatever its
/// bytes, and one that carries the expected tag but stops before the end
/// of the layout is truncated too.
pub proof fn lemma_decode_truncated(kind: RecordKind, s: Seq<u8>)
    requires
        s.len() < spec_min_len(kind),
        s.len() < 8 || s.subrange(0, 8) == spec_tag(kind),
    ensures
        decode_outcome(kind, s) == Err::<(), DecodeError>(DecodeError::Truncated),
{
}

} // verus!
