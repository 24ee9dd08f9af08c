use vstd::prelude::*;
use crate::account::Pubkey;
use crate::decode::{
    miner_matches_bytes, quarry_matches_bytes, rewarder_matches_bytes, Miner, Quarry, Rewarder,
};
use crate::network::{spec_network_name, Network, NetworkConfig};

verus! {

// Decoded records are re-shaped into a JSON-friendly tree before they leave
// the library: every 32-byte identifier becomes an explicit array of 32
// numbers in [0, 255] — never a string encoding, which would be ambiguous —
// and every 128-bit accumulator becomes a decimal string, since a plain
// JSON number would lose precision past 64 bits.

/// A JSON value, as this library emits it. Object keys keep the order in
/// which they were inserted.
#[derive(Debug, PartialEq, Eq)]
pub enum JsonValue {
    Bool(bool),
    UInt(u64),
    Int(i64),
    Str(String),
    Array(Vec<JsonValue>),
    Object(Vec<(String, JsonValue)>),
}

/// Whether `j` renders the byte string `bytes`: an array of exactly as many
/// numeric elements, element `i` carrying the value of byte `i`.
pub open spec fn is_u8_array(j: JsonValue, bytes: Seq<u8>) -> bool {
    match j {
        JsonValue::Array(elems) => {
            &&& elems@.len() == bytes.len()
            &&& forall|i: int| 0 <= i < bytes.len() ==> elems@[i] == JsonValue::UInt(
                bytes[i] as u64,
            )
        },
        _ => false,
    }
}

/// The character for one decimal digit.
pub open spec fn spec_digit_char(d: int) -> char {
    if d == 0 {
        '0'
    } else if d == 1 {
        '1'
    } else if d == 2 {
        '2'
    } else if d == 3 {
        '3'
    } else if d == 4 {
        '4'
    } else if d == 5 {
        '5'
    } else if d == 6 {
        '6'
    } else if d == 7 {
        '7'
    } else if d == 8 {
        '8'
    } else {
        '9'
    }
}

/// The decimal rendering of a number: most significant digit first, no
/// leading zero except for zero itself.
pub open spec fn spec_decimal(n: nat) -> Seq<char>
    decreases n,
{
    if n < 10 {
        seq![spec_digit_char(n as int)]
    } else {
        spec_decimal(n / 10) + seq![spec_digit_char((n % 10) as int)]
    }
}

/// The one-character string for one decimal digit.
fn digit_str(d: u8) -> (r: &'static str)
    requires
        d < 10,
    ensures
        r@ == seq![spec_digit_char(d as int)],
{
    proof {
        reveal_strlit("0");
        reveal_strlit("1");
        reveal_strlit("2");
        reveal_strlit("3");
        reveal_strlit("4");
        reveal_strlit("5");
        reveal_strlit("6");
        reveal_strlit("7");
        reveal_strlit("8");
        reveal_strlit("9");
    }
    let r = match d {
        0 => "0",
        1 => "1",
        2 => "2",
        3 => "3",
        4 => "4",
        5 => "5",
        6 => "6",
        7 => "7",
        8 => "8",
        _ => "9",
    };
    proof {
        assert(r@ =~= seq![spec_digit_char(d as int)]);
    }
    r
}

/// The decimal rendering of a 128-bit value, digit by digit.
pub fn decimal_string(n: u128) -> (s: String)
    ensures
        s@ == spec_decimal(n as nat),
    decreases n,
{
    if n < 10 {
        digit_str(n as u8).to_owned()
    } else {
        let mut s = decimal_string(n / 10);
        s.append(digit_str((n % 10) as u8));
        s
    }
}

/// Renders a 32-byte identifier as an array of 32 numbers, order-preserving.
pub fn pubkey_to_json(key: &Pubkey) -> (j: JsonValue)
    ensures
        is_u8_array(j, key@),
{
    let bytes = key.as_bytes();
    let mut elems: Vec<JsonValue> = Vec::new();
    let mut i: usize = 0;
    while i < bytes.len()
        invariant
            i <= bytes@.len(),
            bytes@ == key@,
            elems@.len() == i,
            forall|k: int| 0 <= k < i ==> elems@[k] == JsonValue::UInt(bytes@[k] as u64),
        decreases bytes@.len() - i,
    {
        elems.push(JsonValue::UInt(bytes[i] as u64));
        i += 1;
    }
    JsonValue::Array(elems)
}

/// Whether `j` renders the network config: one field carrying the
/// selector's canonical name.
pub open spec fn network_config_json_shape(j: JsonValue, c: NetworkConfig) -> bool {
    match j {
        JsonValue::Object(fs) => {
            &&& fs@.len() == 1
            &&& fs@[0].0@ == "variant"@
            &&& fs@[0].1 matches JsonValue::Str(s) && s@ == spec_network_name(c.variant)
        },
        _ => false,
    }
}

/// Renders a network config as JSON.
pub fn network_config_to_json(c: &NetworkConfig) -> (j: JsonValue)
    ensures
        network_config_json_shape(j, *c),
{
    let mut fs: Vec<(String, JsonValue)> = Vec::new();
    fs.push(("variant".to_owned(), JsonValue::Str(Network::fetch_str(c.variant).to_owned())));
    JsonValue::Object(fs)
}

/// Whether `j` renders a rewarder record: its fields in declaration order,
/// every identifier as a 32-byte array, the pause flag as a boolean.
pub open spec fn rewarder_json_shape(j: JsonValue, w: Rewarder) -> bool {
    match j {
        JsonValue::Object(fs) => {
            &&& fs@.len() == 13
            &&& fs@[0].0@ == "base"@ && is_u8_array(fs@[0].1, w.base@)
            &&& fs@[1].0@ == "bump"@ && fs@[1].1 == JsonValue::UInt(w.bump as u64)
            &&& fs@[2].0@ == "authority"@ && is_u8_array(fs@[2].1, w.authority@)
            &&& fs@[3].0@ == "pending_authority"@ && is_u8_array(fs@[3].1, w.pending_authority@)
            &&& fs@[4].0@ == "num_quarries"@ && fs@[4].1 == JsonValue::UInt(w.num_quarries as u64)
            &&& fs@[5].0@ == "annual_rewards_rate"@ && fs@[5].1 == JsonValue::UInt(
                w.annual_rewards_rate,
            )
            &&& fs@[6].0@ == "total_rewards_shares"@ && fs@[6].1 == JsonValue::UInt(
                w.total_rewards_shares,
            )
            &&& fs@[7].0@ == "mint_wrapper"@ && is_u8_array(fs@[7].1, w.mint_wrapper@)
            &&& fs@[8].0@ == "rewards_token_mint"@ && is_u8_array(fs@[8].1, w.rewards_token_mint@)
            &&& fs@[9].0@ == "claim_fee_token_account"@ && is_u8_array(
                fs@[9].1,
                w.claim_fee_token_account@,
            )
            &&& fs@[10].0@ == "max_claim_fee_kbps"@ && fs@[10].1 == JsonValue::UInt(
                w.max_claim_fee_kbps,
            )
            &&& fs@[11].0@ == "pause_authority"@ && is_u8_array(fs@[11].1, w.pause_authority@)
            &&& fs@[12].0@ == "is_paused"@ && fs@[12].1 == JsonValue::Bool(w.is_paused)
        },
        _ => false,
    }
}

/// Renders a rewarder record as JSON.
pub fn rewarder_to_json(w: &Rewarder) -> (j: JsonValue)
    ensures
        rewarder_json_shape(j, *w),
{
    let mut fs: Vec<(String, JsonValue)> = Vec::new();
    fs.push(("base".to_owned(), pubkey_to_json(&w.base)));
    fs.push(("bump".to_owned(), JsonValue::UInt(w.bump as u64)));
    fs.push(("authority".to_owned(), pubkey_to_json(&w.authority)));
    fs.push(("pending_authority".to_owned(), pubkey_to_json(&w.pending_authority)));
    fs.push(("num_quarries".to_owned(), JsonValue::UInt(w.num_quarries as u64)));
    fs.push(("annual_rewards_rate".to_owned(), JsonValue::UInt(w.annual_rewards_rate)));
    fs.push(("total_rewards_shares".to_owned(), JsonValue::UInt(w.total_rewards_shares)));
    fs.push(("mint_wrapper".to_owned(), pubkey_to_json(&w.mint_wrapper)));
    fs.push(("rewards_token_mint".to_owned(), pubkey_to_json(&w.rewards_token_mint)));
    fs.push(("claim_fee_token_account".to_owned(), pubkey_to_json(&w.claim_fee_token_account)));
    fs.push(("max_claim_fee_kbps".to_owned(), JsonValue::UInt(w.max_claim_fee_kbps)));
    fs.push(("pause_authority".to_owned(), pubkey_to_json(&w.pause_authority)));
    fs.push(("is_paused".to_owned(), JsonValue::Bool(w.is_paused)));
    JsonValue::Object(fs)
}

/// Whether `j` renders a quarry record: its fields in declaration order,
/// identifiers as 32-byte arrays, timestamps as signed numbers, and the
/// 128-bit accumulator as a decimal string.
pub open spec fn quarry_json_shape(j: JsonValue, q: Quarry) -> bool {
    match j {
        JsonValue::Object(fs) => {
            &&& fs@.len() == 12
            &&& fs@[0].0@ == "rewarder_key"@ && is_u8_array(fs@[0].1, q.rewarder_key@)
            &&& fs@[1].0@ == "token_mint_key"@ && is_u8_array(fs@[1].1, q.token_mint_key@)
            &&& fs@[2].0@ == "bump"@ && fs@[2].1 == JsonValue::UInt(q.bump as u64)
            &&& fs@[3].0@ == "index"@ && fs@[3].1 == JsonValue::UInt(q.index as u64)
            &&& fs@[4].0@ == "token_mint_decimals"@ && fs@[4].1 == JsonValue::UInt(
                q.token_mint_decimals as u64,
            )
            &&& fs@[5].0@ == "famine_ts"@ && fs@[5].1 == JsonValue::Int(q.famine_ts)
            &&& fs@[6].0@ == "last_update_ts"@ && fs@[6].1 == JsonValue::Int(q.last_update_ts)
            &&& fs@[7].0@ == "rewards_per_token_stored"@ && (fs@[7].1 matches JsonValue::Str(s)
                && s@ == spec_decimal(q.rewards_per_token_stored as nat))
            &&& fs@[8].0@ == "annual_rewards_rate"@ && fs@[8].1 == JsonValue::UInt(
                q.annual_rewards_rate,
            )
            &&& fs@[9].0@ == "rewards_share"@ && fs@[9].1 == JsonValue::UInt(q.rewards_share)
            &&& fs@[10].0@ == "total_tokens_deposited"@ && fs@[10].1 == JsonValue::UInt(
                q.total_tokens_deposited,
            )
            &&& fs@[11].0@ == "num_miners"@ && fs@[11].1 == JsonValue::UInt(q.num_miners)
        },
        _ => false,
    }
}

/// Renders a quarry record as JSON.
pub fn quarry_to_json(q: &Quarry) -> (j: JsonValue)
    ensures
        quarry_json_shape(j, *q),
{
    let mut fs: Vec<(String, JsonValue)> = Vec::new();
    fs.push(("rewarder_key".to_owned(), pubkey_to_json(&q.rewarder_key)));
    fs.push(("token_mint_key".to_owned(), pubkey_to_json(&q.token_mint_key)));
    fs.push(("bump".to_owned(), JsonValue::UInt(q.bump as u64)));
    fs.push(("index".to_owned(), JsonValue::UInt(q.index as u64)));
    fs.push(("token_mint_decimals".to_owned(), JsonValue::UInt(q.token_mint_decimals as u64)));
    fs.push(("famine_ts".to_owned(), JsonValue::Int(q.famine_ts)));
    fs.push(("last_update_ts".to_owned(), JsonValue::Int(q.last_update_ts)));
    fs.push((
        "rewards_per_token_stored".to_owned(),
        JsonValue::Str(decimal_string(q.rewards_per_token_stored)),
    ));
    fs.push(("annual_rewards_rate".to_owned(), JsonValue::UInt(q.annual_rewards_rate)));
    fs.push(("rewards_share".to_owned(), JsonValue::UInt(q.rewards_share)));
    fs.push(("total_tokens_deposited".to_owned(), JsonValue::UInt(q.total_tokens_deposited)));
    fs.push(("num_miners".to_owned(), JsonValue::UInt(q.num_miners)));
    JsonValue::Object(fs)
}

/// Whether `j` renders a miner record: its fields in declaration order,
/// identifiers as 32-byte arrays, and the 128-bit checkpoint as a decimal
/// string.
pub open spec fn miner_json_shape(j: JsonValue, m: Miner) -> bool {
    match j {
        JsonValue::Object(fs) => {
            &&& fs@.len() == 8
            &&& fs@[0].0@ == "quarry_key"@ && is_u8_array(fs@[0].1, m.quarry_key@)
            &&& fs@[1].0@ == "authority"@ && is_u8_array(fs@[1].1, m.authority@)
            &&& fs@[2].0@ == "bump"@ && fs@[2].1 == JsonValue::UInt(m.bump as u64)
            &&& fs@[3].0@ == "token_vault_key"@ && is_u8_array(fs@[3].1, m.token_vault_key@)
            &&& fs@[4].0@ == "rewards_earned"@ && fs@[4].1 == JsonValue::UInt(m.rewards_earned)
            &&& fs@[5].0@ == "rewards_per_token_paid"@ && (fs@[5].1 matches JsonValue::Str(s)
                && s@ == spec_decimal(m.rewards_per_token_paid as nat))
            &&& fs@[6].0@ == "balance"@ && fs@[6].1 == JsonValue::UInt(m.balance)
            &&& fs@[7].0@ == "index"@ && fs@[7].1 == JsonValue::UInt(m.index)
        },
        _ => false,
    }
}

/// Renders a miner record as JSON.
pub fn miner_to_json(m: &Miner) -> (j: JsonValue)
    ensures
        miner_json_shape(j, *m),
{
    let mut fs: Vec<(String, JsonValue)> = Vec::new();
    fs.push(("quarry_key".to_owned(), pubkey_to_json(&m.quarry_key)));
    fs.push(("authority".to_owned(), pubkey_to_json(&m.authority)));
    fs.push(("bump".to_owned(), JsonValue::UInt(m.bump as u64)));
    fs.push(("token_vault_key".to_owned(), pubkey_to_json(&m.token_vault_key)));
    fs.push(("rewards_earned".to_owned(), JsonValue::UInt(m.rewards_earned)));
    fs.push((
        "rewards_per_token_paid".to_owned(),
        JsonValue::Str(decimal_string(m.rewards_per_token_paid)),
    ));
    fs.push(("balance".to_owned(), JsonValue::UInt(m.balance)));
    fs.push(("index".to_owned(), JsonValue::UInt(m.index)));
    JsonValue::Object(fs)
}

/// Every element of a rendered byte array is a number in [0, 255], and the
/// order of the elements is the order of the bytes.
pub proof fn lemma_u8_array_elements(j: JsonValue, bytes: Seq<u8>)
    requires
        is_u8_array(j, bytes),
    ensures
        j matches JsonValue::Array(elems) && elems@.len() == bytes.len() && forall|i: int|
            0 <= i < bytes.len() ==> ((#[trigger] elems@[i]) matches JsonValue::UInt(v) && v
                == bytes[i] && v <= 255),
{
}

/// Decoding a rewarder, then re-encoding it to JSON, renders each of its
/// seven identifier fields as exactly 32 numeric elements, order-preserving
/// relative to the identifier's bytes in the input buffer.
pub proof fn lemma_rewarder_json_identifiers(s: Seq<u8>, w: Rewarder, j: JsonValue)
    requires
        rewarder_matches_bytes(w, s),
        rewarder_json_shape(j, w),
    ensures
        j matches JsonValue::Object(fs) && {
            &&& is_u8_array(fs@[0].1, s.subrange(8, 40))
            &&& is_u8_array(fs@[2].1, s.subrange(41, 73))
            &&& is_u8_array(fs@[3].1, s.subrange(73, 105))
            &&& is_u8_array(fs@[7].1, s.subrange(123, 155))
            &&& is_u8_array(fs@[8].1, s.subrange(155, 187))
            &&& is_u8_array(fs@[9].1, s.subrange(187, 219))
            &&& is_u8_array(fs@[11].1, s.subrange(227, 259))
        },
{
}

/// Decoding a quarry, then re-encoding it to JSON, renders each of its two
/// identifier fields as exactly 32 numeric elements, order-preserving
/// relative to the identifier's bytes in the input buffer.
pub proof fn lemma_quarry_json_identifiers(s: Seq<u8>, q: Quarry, j: JsonValue)
    requires
        quarry_matches_bytes(q, s),
        quarry_json_shape(j, q),
    ensures
        j matches JsonValue::Object(fs) && {
            &&& is_u8_array(fs@[0].1, s.subrange(8, 40))
            &&& is_u8_array(fs@[1].1, s.subrange(40, 72))
        },
{
}

/// Decoding a miner, then re-encoding it to JSON, renders each of its three
/// identifier fields as exactly 32 numeric elements, order-preserving
/// relative to the identifier's bytes in the input buffer.
pub proof fn lemma_miner_json_identifiers(s: Seq<u8>, m: Miner, j: JsonValue)
    requires
        miner_matches_bytes(m, s),
        miner_json_shape(j, m),
    ensures
        j matches JsonValue::Object(fs) && {
            &&& is_u8_array(fs@[0].1, s.subrange(8, 40))
            &&& is_u8_array(fs@[1].1, s.subrange(40, 72))
            &&& is_u8_array(fs@[3].1, s.subrange(73, 105))
        },
{
}

} // verus!
