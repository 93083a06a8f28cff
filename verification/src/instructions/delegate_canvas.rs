//! Handing the canvas over to the rollup.

use crate::instructions::initialize_canvas::CANVAS_SEED;
use crate::state::Pubkey;
use vstd::prelude::*;
use vstd::slice::slice_to_vec;

verus! {

/// The accounts of the delegation: the authority, who signs and pays, and
/// the address of the canvas.
#[derive(Clone, Copy, Debug, PartialEq, Eq)]
pub struct DelegateCanvas {
    pub authority: Pubkey,
    pub canvas: Pubkey,
}

/// The settings of a delegation.
#[derive(Clone, Copy, Debug, PartialEq, Eq)]
pub struct DelegateConfig {
    /// How often the rollup commits the account, in milliseconds.
    pub commit_frequency_ms: u32,
    /// The validator that the account is delegated to, if one is chosen.
    pub validator: Option<Pubkey>,
}

/// What the delegation asks of the delegation framework: that `payer` hand
/// the account at `account`, whose address is derived from `seeds`, over to
/// the rollup, with the settings `config`.
#[derive(Clone, Debug, PartialEq, Eq)]
pub struct DelegateRequest {
    pub payer: Pubkey,
    pub account: Pubkey,
    pub seeds: Vec<Vec<u8>>,
    pub config: DelegateConfig,
}

/// The settings that the rollup SDK uses by default.
///
/// Trusted: calls `ephemeral_rollups_sdk::cpi::DelegateConfig::default()` and
/// copies the two fields of what it returns. The contract repeats what the
/// SDK's source sets: the largest commit interval, and no validator.
#[verifier::external_body]
fn default_delegate_config() -> (config: DelegateConfig)
    ensures
        config.commit_frequency_ms == u32::MAX,
        config.validator is None,
{
    let config = ephemeral_rollups_sdk::cpi::DelegateConfig::default();
    DelegateConfig {
        commit_frequency_ms: config.commit_frequency_ms,
        validator: config.validator.map(|key| Pubkey(key.to_bytes())),
    }
}

/// Names what is to be delegated: the canvas, found by the canvas seed, paid
/// for by the authority, with the default settings. The caller of this
/// function hands the request to the delegation framework and passes on
/// whatever the framework answers.
pub fn handle_delegate_canvas(ctx: &DelegateCanvas) -> (request: DelegateRequest)
    ensures
        request.payer == ctx.authority,
        request.account == ctx.canvas,
        request.seeds@.len() == 1,
        request.seeds@[0]@ == CANVAS_SEED@,
        request.config.commit_frequency_ms == u32::MAX,
        request.config.validator is None,
{
    let mut seeds: Vec<Vec<u8>> = Vec::new();
    seeds.push(slice_to_vec(&CANVAS_SEED));
    DelegateRequest {
        payer: ctx.authority,
        account: ctx.canvas,
        seeds,
        config: default_delegate_config(),
    }
}

} // verus!
