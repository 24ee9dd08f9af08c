use vstd::prelude::*;
use crate::account::{PubkeyConfig, RawAccount};
use crate::decode::{
    miner_decode_outcome, miner_matches_bytes, quarry_decode_outcome, quarry_matches_bytes,
    rewarder_decode_outcome, rewarder_matches_bytes, DecodeError, Miner, Quarry, RecordKind,
    Rewarder,
};
use crate::json::{
    miner_json_shape, miner_to_json, network_config_json_shape, network_config_to_json,
    quarry_json_shape, quarry_to_json, rewarder_json_shape, rewarder_to_json, JsonValue,
};
use crate::network::{Network, NetworkConfig};

verus! {

// Within one request the pipeline is strictly sequential: resolve the
// cluster, fetch over RPC, decode, respond. The fetch itself is I/O and
// happens outside this library; the functions here take its outcome and
// decide the response. No retry is attempted anywhere: a failure becomes
// the single error response at once.

/// A failure of the RPC layer, as the transport hands it back.
#[derive(Clone, Copy, Debug, PartialEq, Eq, Structural)]
pub enum TransportError {
    /// The endpoint could not be reached or the call itself failed.
    Rpc,
    /// The queried account does not exist on the cluster.
    NotFound,
}

/// Everything that can go wrong between receiving a request and responding,
/// each kind kept apart so a response can say which stage failed.
#[derive(Clone, Copy, Debug, PartialEq, Eq, Structural)]
pub enum GatewayError {
    /// The block height could not be fetched.
    FetchBlockheight(TransportError),
    /// The account could not be fetched.
    FetchAccount(TransportError),
    /// The fetched account's bytes did not decode as the requested record.
    Wrap(RecordKind, DecodeError),
}

/// The human-readable description of a failure, naming the stage that
/// failed, as the error response carries it.
pub open spec fn spec_error_message(e: GatewayError) -> Seq<char> {
    match e {
        GatewayError::FetchBlockheight(_) => "Failed to fetch blockheight"@,
        GatewayError::FetchAccount(_) => "Failed to fetch account"@,
        GatewayError::Wrap(kind, _) => match kind {
            RecordKind::Rewarder => "Failed to wrap Rewarder"@,
            RecordKind::Quarry => "Failed to wrap Quarry"@,
            RecordKind::Miner => "Failed to wrap Miner"@,
        },
    }
}

impl GatewayError {
    /// The error string the HTTP surface sends for this failure.
    pub fn message(&self) -> (m: String)
        ensures
            m@ == spec_error_message(*self),
    {
        match self {
            GatewayError::FetchBlockheight(_) => "Failed to fetch blockheight".to_owned(),
            GatewayError::FetchAccount(_) => "Failed to fetch account".to_owned(),
            GatewayError::Wrap(kind, _) => match kind {
                RecordKind::Rewarder => "Failed to wrap Rewarder".to_owned(),
                RecordKind::Quarry => "Failed to wrap Quarry".to_owned(),
                RecordKind::Miner => "Failed to wrap Miner".to_owned(),
            },
        }
    }
}

/// An account-fetch request: which cluster to query and which key to fetch.
pub struct FetchAccountRequest {
    pub network_config: NetworkConfig,
    pub pubkey_config: PubkeyConfig,
}

/// The response of the block-height endpoint.
#[derive(Debug, PartialEq, Eq)]
pub struct FetchBlockheightResponse {
    pub network_config: NetworkConfig,
    pub blockheight: u64,
}

impl FetchBlockheightResponse {
    /// Builds the response for a fetched height on a network.
    pub fn new(blockheight: u64, network: Network) -> (r: Self)
        ensures
            r.network_config == (NetworkConfig { variant: network }),
            r.blockheight == blockheight,
    {
        Self { network_config: NetworkConfig { variant: network }, blockheight }
    }
}

/// The response of the rewarder endpoint.
#[derive(Debug)]
pub struct FetchRewarderResponse {
    pub network_config: NetworkConfig,
    pub rewarder: Rewarder,
}

/// The response of the quarry endpoint.
#[derive(Debug)]
pub struct FetchQuarryResponse {
    pub network_config: NetworkConfig,
    pub quarry: Quarry,
}

/// The response of the miner endpoint.
#[derive(Debug)]
pub struct FetchMinerResponse {
    pub network_config: NetworkConfig,
    pub miner: Miner,
}

/// The decision the block-height endpoint takes once the RPC call has
/// returned: a fetched height becomes the response carrying that height
/// exactly; a transport failure becomes the single error, with no retry.
pub fn blockheight_response(config: NetworkConfig, fetched: Result<u64, TransportError>) -> (r:
    Result<FetchBlockheightResponse, GatewayError>)
    ensures
        match fetched {
            Ok(h) => r matches Ok(resp) && resp.network_config == config && resp.blockheight == h,
            Err(t) => r == Err::<FetchBlockheightResponse, GatewayError>(
                GatewayError::FetchBlockheight(t),
            ),
        },
{
    match fetched {
        Ok(h) => Ok(FetchBlockheightResponse::new(h, config.variant)),
        Err(t) => Err(GatewayError::FetchBlockheight(t)),
    }
}

/// The decision the rewarder endpoint takes once the account fetch has
/// returned: a fetched account is decoded, and either the decoded record is
/// returned with the request's network config, or the stage that failed is;
/// a transport failure short-circuits before any decoding.
pub fn rewarder_response(config: NetworkConfig, fetched: Result<RawAccount, TransportError>) -> (r:
    Result<FetchRewarderResponse, GatewayError>)
    ensures
        match fetched {
            Ok(account) => match r {
                Ok(resp) => {
                    &&& resp.network_config == config
                    &&& rewarder_decode_outcome(account.data@) is Ok
                    &&& rewarder_matches_bytes(resp.rewarder, account.data@)
                },
                Err(e) => e matches GatewayError::Wrap(RecordKind::Rewarder, de)
                    && rewarder_decode_outcome(account.data@) == Err::<(), DecodeError>(de),
            },
            Err(t) => r matches Err(e) && e == GatewayError::FetchAccount(t),
        },
{
    match fetched {
        Ok(account) => match Rewarder::wrap(&account) {
            Ok(w) => Ok(FetchRewarderResponse { network_config: config, rewarder: w }),
            Err(de) => Err(GatewayError::Wrap(RecordKind::Rewarder, de)),
        },
        Err(t) => Err(GatewayError::FetchAccount(t)),
    }
}

/// The decision the quarry endpoint takes once the account fetch has
/// returned; as for the rewarder, with the quarry layout.
pub fn quarry_response(config: NetworkConfig, fetched: Result<RawAccount, TransportError>) -> (r:
    Result<FetchQuarryResponse, GatewayError>)
    ensures
        match fetched {
            Ok(account) => match r {
                Ok(resp) => {
                    &&& resp.network_config == config
                    &&& quarry_decode_outcome(account.data@) is Ok
                    &&& quarry_matches_bytes(resp.quarry, account.data@)
                },
                Err(e) => e matches GatewayError::Wrap(RecordKind::Quarry, de)
                    && quarry_decode_outcome(account.data@) == Err::<(), DecodeError>(de),
            },
            Err(t) => r matches Err(e) && e == GatewayError::FetchAccount(t),
        },
{
    match fetched {
        Ok(account) => match Quarry::wrap(&account) {
            Ok(q) => Ok(FetchQuarryResponse { network_config: config, quarry: q }),
            Err(de) => Err(GatewayError::Wrap(RecordKind::Quarry, de)),
        },
        Err(t) => Err(GatewayError::FetchAccount(t)),
    }
}

/// The decision the miner endpoint takes once the account fetch has
/// returned; as for the rewarder, with the miner layout.
pub fn miner_response(config: NetworkConfig, fetched: Result<RawAccount, TransportError>) -> (r:
    Result<FetchMinerResponse, GatewayError>)
    ensures
        match fetched {
            Ok(account) => match r {
                Ok(resp) => {
                    &&& resp.network_config == config
                    &&& miner_decode_outcome(account.data@) is Ok
                    &&& miner_matches_bytes(resp.miner, account.data@)
                },
                Err(e) => e matches GatewayError::Wrap(RecordKind::Miner, de)
                    && miner_decode_outcome(account.data@) == Err::<(), DecodeError>(de),
            },
            Err(t) => r matches Err(e) && e == GatewayError::FetchAccount(t),
        },
{
    match fetched {
        Ok(account) => match Miner::wrap(&account) {
            Ok(m) => Ok(FetchMinerResponse { network_config: config, miner: m }),
            Err(de) => Err(GatewayError::Wrap(RecordKind::Miner, de)),
        },
        Err(t) => Err(GatewayError::FetchAccount(t)),
    }
}

/// Whether `j` renders a block-height response: the network config echoed
/// back, and the height exactly as fetched, with no loss of precision.
pub open spec fn blockheight_response_json_shape(j: JsonValue, resp: FetchBlockheightResponse)
    -> bool {
    match j {
        JsonValue::Object(fs) => {
            &&& fs@.len() == 2
            &&& fs@[0].0@ == "network_config"@ && network_config_json_shape(
                fs@[0].1,
                resp.network_config,
            )
            &&& fs@[1].0@ == "blockheight"@ && fs@[1].1 == JsonValue::UInt(resp.blockheight)
        },
        _ => false,
    }
}

/// Renders a block-height response as JSON.
pub fn blockheight_response_to_json(resp: &FetchBlockheightResponse) -> (j: JsonValue)
    ensures
        blockheight_response_json_shape(j, *resp),
{
    let mut fs: Vec<(String, JsonValue)> = Vec::new();
    fs.push(("network_config".to_owned(), network_config_to_json(&resp.network_config)));
    fs.push(("blockheight".to_owned(), JsonValue::UInt(resp.blockheight)));
    JsonValue::Object(fs)
}

/// Whether `j` renders a rewarder response: the network config echoed back,
/// and the decoded record under its own key.
pub open spec fn rewarder_response_json_shape(j: JsonValue, resp: FetchRewarderResponse) -> bool {
    match j {
        JsonValue::Object(fs) => {
            &&& fs@.len() == 2
            &&& fs@[0].0@ == "network_config"@ && network_config_json_shape(
                fs@[0].1,
                resp.network_config,
            )
            &&& fs@[1].0@ == "rewarder"@ && rewarder_json_shape(fs@[1].1, resp.rewarder)
        },
        _ => false,
    }
}

/// Renders a rewarder response as JSON.
pub fn rewarder_response_to_json(resp: &FetchRewarderResponse) -> (j: JsonValue)
    ensures
        rewarder_response_json_shape(j, *resp),
{
    let mut fs: Vec<(String, JsonValue)> = Vec::new();
    fs.push(("network_config".to_owned(), network_config_to_json(&resp.network_config)));
    fs.push(("rewarder".to_owned(), rewarder_to_json(&resp.rewarder)));
    JsonValue::Object(fs)
}

/// Whether `j` renders a quarry response.
pub open spec fn quarry_response_json_shape(j: JsonValue, resp: FetchQuarryResponse) -> bool {
    match j {
        JsonValue::Object(fs) => {
            &&& fs@.len() == 2
            &&& fs@[0].0@ == "network_config"@ && network_config_json_shape(
                fs@[0].1,
                resp.network_config,
            )
            &&& fs@[1].0@ == "quarry"@ && quarry_json_shape(fs@[1].1, resp.quarry)
        },
        _ => false,
    }
}

/// Renders a quarry response as JSON.
pub fn quarry_response_to_json(resp: &FetchQuarryResponse) -> (j: JsonValue)
    ensures
        quarry_response_json_shape(j, *resp),
{
    let mut fs: Vec<(String, JsonValue)> = Vec::new();
    fs.push(("network_config".to_owned(), network_config_to_json(&resp.network_config)));
    fs.push(("quarry".to_owned(), quarry_to_json(&resp.quarry)));
    JsonValue::Object(fs)
}

/// Whether `j` renders a miner response.
pub open spec fn miner_response_json_shape(j: JsonValue, resp: FetchMinerResponse) -> bool {
    match j {
        JsonValue::Object(fs) => {
            &&& fs@.len() == 2
            &&& fs@[0].0@ == "network_config"@ && network_config_json_shape(
                fs@[0].1,
                resp.network_config,
            )
            &&& fs@[1].0@ == "miner"@ && miner_json_shape(fs@[1].1, resp.miner)
        },
        _ => false,
    }
}

/// Renders a miner response as JSON.
pub fn miner_response_to_json(resp: &FetchMinerResponse) -> (j: JsonValue)
    ensures
        miner_response_json_shape(j, *resp),
{
    let mut fs: Vec<(String, JsonValue)> = Vec::new();
    fs.push(("network_config".to_owned(), network_config_to_json(&resp.network_config)));
    fs.push(("miner".to_owned(), miner_to_json(&resp.miner)));
    JsonValue::Object(fs)
}

} // verus!
