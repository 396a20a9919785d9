use vstd::prelude::*;
use vstd::string::StringExecFns;
use crate::error::SignError;
use crate::ledger::{admits, ledger_after, AccessLedger};
use crate::payload::{hex_bytes, is_hex_text, payload_digest, signing_digest};

verus! {

/// The account of the signing service that every request is sent to.
pub const MPC_CONTRACT_ACCOUNT_ID: &'static str = "v2.multichain-mpc.testnet";

/// The compute budget attached to the delegated call, in teragas.
pub const SIGN_GAS_TGAS: u64 = 100;

/// The delegated call that the host has to issue: `sign(payload, path,
/// key_version)` on `receiver`, with `gas_tgas` teragas attached.
#[derive(Debug, PartialEq, Eq)]
pub struct SignRequest {
    pub receiver: String,
    pub payload: [u8; 32],
    pub path: String,
    pub key_version: u32,
    pub gas_tgas: u64,
}

/// What a `SignRequest` holds, as mathematical values.
pub struct SignRequestView {
    pub receiver: Seq<char>,
    pub payload: Seq<u8>,
    pub path: Seq<char>,
    pub key_version: u32,
    pub gas_tgas: u64,
}

impl View for SignRequest {
    type V = SignRequestView;

    open spec fn view(&self) -> SignRequestView {
        SignRequestView {
            receiver: self.receiver@,
            payload: self.payload@,
            path: self.path@,
            key_version: self.key_version,
            gas_tgas: self.gas_tgas,
        }
    }
}

/// The request that carries `digest`: to the fixed signing service, with
/// the fixed budget, path and key version as given.
pub open spec fn request_with(digest: Seq<u8>, path: Seq<char>, key_version: u32) -> SignRequestView {
    SignRequestView {
        receiver: MPC_CONTRACT_ACCOUNT_ID@,
        payload: digest,
        path,
        key_version,
        gas_tgas: SIGN_GAS_TGAS,
    }
}

/// The request for a hex payload: it carries the reversed Keccak-256 digest
/// of the bytes that the payload stands for.
pub open spec fn request_for(payload: Seq<char>, path: Seq<char>, key_version: u32) -> SignRequestView {
    request_with(signing_digest(hex_bytes(payload)), path, key_version)
}

impl SignRequest {
    /// The request that asks the signing service to sign `digest`.
    pub fn new(digest: [u8; 32], path: String, key_version: u32) -> (request: SignRequest)
        ensures
            request@ == request_with(digest@, path@, key_version),
    {
        SignRequest {
            receiver: String::from_str(MPC_CONTRACT_ACCOUNT_ID),
            payload: digest,
            path,
            key_version,
            gas_tgas: SIGN_GAS_TGAS,
        }
    }
}

/// Turns a hex payload into the delegated call. Path and key version are
/// handed on as they are; only the payload can be refused.
pub fn dispatch(raw_payload_hex: &str, path: String, key_version: u32) -> (outcome: Result<
    SignRequest,
    SignError,
>)
    ensures
        match outcome {
            Ok(request) => is_hex_text(raw_payload_hex@) && request@ == request_for(
                raw_payload_hex@,
                path@,
                key_version,
            ),
            Err(e) => !is_hex_text(raw_payload_hex@) && e == SignError::MalformedPayload,
        },
{
    match payload_digest(raw_payload_hex) {
        Ok(digest) => Ok(SignRequest::new(digest, path, key_version)),
        Err(e) => Err(e),
    }
}

/// The proxy's state: the ledger of admitted requests.
pub struct Contract {
    users_to_time: AccessLedger,
}

impl View for Contract {
    type V = Map<Seq<char>, u64>;

    closed spec fn view(&self) -> Map<Seq<char>, u64> {
        self.users_to_time@
    }
}

impl Default for Contract {
    fn default() -> (contract: Contract)
        ensures
            contract@ == Map::<Seq<char>, u64>::empty(),
    {
        Contract { users_to_time: AccessLedger::new() }
    }
}

impl Contract {
    /// A proxy that starts from the given ledger.
    pub fn with_ledger(ledger: AccessLedger) -> (contract: Contract)
        ensures
            contract@ == ledger@,
    {
        Contract { users_to_time: ledger }
    }

    /// The time of `caller`'s last admitted request, if it ever had one.
    pub fn last_admitted(&self, caller: &str) -> (last: Option<u64>)
        ensures
            last == (if self@.contains_key(caller@) {
                Some(self@[caller@])
            } else {
                None
            }),
    {
        self.users_to_time.last_admitted(caller)
    }

    /// Handles one request of `caller` at time `now`.
    ///
    /// The rate limit comes first: a refused caller gets `RateLimited` and
    /// nothing changes. An admitted request is recorded before the payload
    /// is looked at, so a malformed payload still uses up the caller's
    /// window. On success the result is the call to hand to the signer.
    pub fn sign(
        &mut self,
        caller: &str,
        now: u64,
        rlp_payload: String,
        path: String,
        key_version: u32,
    ) -> (outcome: Result<SignRequest, SignError>)
        ensures
            final(self)@ == ledger_after(old(self)@, caller@, now),
            match outcome {
                Ok(request) => {
                    &&& admits(old(self)@, caller@, now)
                    &&& is_hex_text(rlp_payload@)
                    &&& request@ == request_for(rlp_payload@, path@, key_version)
                },
                Err(SignError::RateLimited) => !admits(old(self)@, caller@, now),
                Err(SignError::MalformedPayload) => {
                    &&& admits(old(self)@, caller@, now)
                    &&& !is_hex_text(rlp_payload@)
                },
            },
    {
        match self.users_to_time.check_and_record(caller, now) {
            Ok(()) => dispatch(rlp_payload.as_str(), path, key_version),
            Err(e) => Err(e),
        }
    }
}

} // verus!
