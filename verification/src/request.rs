//! The one transient entity of the benchmark: an unsigned simulation
//! request that is structurally well-formed enough to serialize but is
//! guaranteed to fail the remote evaluator's sanitization, because it
//! carries no signer.

use vstd::prelude::*;

verus! {

/// Length in bytes of an account identifier on the wire.
pub const TARGET_ID_LEN: usize = 32;

/// An unsigned transaction envelope holding exactly one instruction,
/// addressed to a synthetically generated account identifier, with no
/// payload, no account metadata, no signer and no recent-blockhash
/// reference.
pub struct SimRequest {
    /// The instruction's target account identifier.
    pub program_target: Vec<u8>,
    /// The instruction's payload bytes.
    pub instruction_data: Vec<u8>,
    /// How many account references the instruction carries.
    pub account_metas: u64,
    /// How many signers the envelope carries.
    pub num_signers: u64,
    /// Whether the envelope references a recent blockhash.
    pub has_recent_blockhash: bool,
}

impl SimRequest {
    /// The request parses structurally: its target identifier has the
    /// exact length of an account identifier.
    pub open spec fn structurally_parseable(self) -> bool {
        self.program_target@.len() == TARGET_ID_LEN
    }

    /// The remote evaluator's basic validity check (sanitization): an
    /// envelope passes only if at least one signer is present.
    pub open spec fn semantically_valid(self) -> bool {
        self.num_signers >= 1
    }

    /// The exact shape of every request the factory builds: a fresh
    /// full-length target identifier, empty payload, no accounts, no
    /// signer, no blockhash.
    pub open spec fn factory_shape(self) -> bool {
        &&& self.program_target@.len() == TARGET_ID_LEN
        &&& self.instruction_data@.len() == 0
        &&& self.account_metas == 0
        &&& self.num_signers == 0
        &&& !self.has_recent_blockhash
    }
}

/// Builds the factory's request around a given target identifier.
pub fn build_request(target: Vec<u8>) -> (r: SimRequest)
    requires
        target@.len() == TARGET_ID_LEN,
    ensures
        r.factory_shape(),
        r.program_target@ == target@,
{
    SimRequest {
        program_target: target,
        instruction_data: Vec::new(),
        account_metas: 0,
        num_signers: 0,
        has_recent_blockhash: false,
    }
}

/// Relies on solana_sdk's `Pubkey::new_unique`: a 32-byte account
/// identifier drawn from a per-process counter, fresh on every call.
#[verifier::external_body]
fn fresh_target_id() -> (r: Vec<u8>)
    ensures
        r@.len() == TARGET_ID_LEN,
{
    solana_sdk::pubkey::Pubkey::new_unique().to_bytes().to_vec()
}

/// The transaction factory: builds one simulation request with a fresh,
/// effectively-unique target identifier. No inputs, no error conditions.
pub fn fresh_request() -> (r: SimRequest)
    ensures
        r.factory_shape(),
{
    build_request(fresh_target_id())
}

/// The validity check the remote evaluator applies before simulating:
/// returns whether the request would pass sanitization.
pub fn sanitize(req: &SimRequest) -> (ok: bool)
    ensures
        ok == req.semantically_valid(),
{
    req.num_signers >= 1
}

/// Every request of the factory's shape parses structurally yet fails
/// the validity check: its rejection is the intended outcome of each
/// call, not an error condition.
pub proof fn lemma_factory_request_rejected(r: SimRequest)
    requires
        r.factory_shape(),
    ensures
        r.structurally_parseable(),
        !r.semantically_valid(),
{
}

} // verus!
