//! The configuration record: who administers the deployment and who
//! receives the entry fees. There is one such record, written once.

use vstd::prelude::*;
use crate::error::ErrorCode;
use crate::pubkey::Pubkey;

verus! {

/// The configuration of a deployment.
#[derive(Clone, Copy, Debug, PartialEq, Eq)]
pub struct ProgramConfig {
    /// The administrator that created the record.
    pub authority: Pubkey,
    /// The identity that receives the entry fees.
    pub treasury: Pubkey,
    /// The bump seed of the address under which the host keeps the record.
    pub bump: u8,
}

/// Published when the configuration has been written.
#[derive(Clone, Copy, Debug, PartialEq, Eq)]
pub struct ConfigInitialized {
    pub authority: Pubkey,
    pub treasury: Pubkey,
}

/// What the host hands to `initialize_config`.
#[derive(Clone, Copy, Debug, PartialEq, Eq)]
pub struct InitializeConfig {
    /// The record at the configuration's key: `None` while nothing has been
    /// written there.
    pub config: Option<ProgramConfig>,
    /// The caller, who becomes the authority.
    pub authority: Pubkey,
    /// The bump seed to keep in the record.
    pub bump: u8,
}

impl InitializeConfig {
    /// Why the configuration cannot be written, if it cannot.
    pub open spec fn rejection(self) -> Option<ErrorCode> {
        if self.config is Some {
            Some(ErrorCode::AlreadyInitialized)
        } else {
            None
        }
    }

    /// The record that a successful initialization writes.
    pub open spec fn written(self, treasury: Pubkey) -> ProgramConfig {
        ProgramConfig { authority: self.authority, treasury, bump: self.bump }
    }

    /// The context after a successful initialization.
    pub open spec fn initialized(self, treasury: Pubkey) -> InitializeConfig {
        InitializeConfig { config: Some(self.written(treasury)), authority: self.authority, bump: self.bump }
    }

    /// The event of a successful initialization.
    pub open spec fn event(self, treasury: Pubkey) -> ConfigInitialized {
        ConfigInitialized { authority: self.authority, treasury }
    }
}

/// Writes the configuration record, with the caller as authority.
///
/// The record is written once: where one exists already the call fails with
/// `AlreadyInitialized` and changes nothing.
pub fn initialize_config(ctx: &mut InitializeConfig, treasury: Pubkey) -> (r: Result<
    ConfigInitialized,
    ErrorCode,
>)
    ensures
        match old(ctx).rejection() {
            Some(e) => r == Err::<ConfigInitialized, ErrorCode>(e) && *final(ctx) == *old(ctx),
            None => r == Ok::<ConfigInitialized, ErrorCode>(old(ctx).event(treasury)) && *final(ctx)
                == old(ctx).initialized(treasury),
        },
        r is Ok <==> old(ctx).config is None,
        r is Err ==> *final(ctx) == *old(ctx),
        r is Ok ==> final(ctx).config == Some(old(ctx).written(treasury)),
{
    if ctx.config.is_some() {
        return Err(ErrorCode::AlreadyInitialized);
    }
    let config = ProgramConfig { authority: ctx.authority, treasury, bump: ctx.bump };
    ctx.config = Some(config);
    Ok(ConfigInitialized { authority: config.authority, treasury: config.treasury })
}

/// The configuration is written once: after a successful initialization
/// every further one fails with `AlreadyInitialized`, whoever calls and
/// whatever treasury is named.
pub proof fn lemma_config_is_written_once(ctx: InitializeConfig, treasury: Pubkey, again: InitializeConfig)
    requires
        ctx.rejection() is None,
        again.config == ctx.initialized(treasury).config,
    ensures
        again.rejection() == Some(ErrorCode::AlreadyInitialized),
{
}

} // verus!
