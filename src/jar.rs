use vstd::prelude::*;

use crate::key::Pubkey;

verus! {

/// The persisted record of one jar.
#[derive(Clone, Copy, Debug)]
pub struct TipJar {
    /// The only key allowed to withdraw; set once, at creation.
    pub owner: Pubkey,
    /// Running total of every deposit ever made; never decreased.
    pub total_tips: u64,
}

/// The account that holds a jar: its address, the value in custody, and the record.
#[derive(Clone, Copy, Debug)]
pub struct TipJarAccount {
    pub key: Pubkey,
    /// Custody balance: the value the jar currently holds.
    pub lamports: u64,
    pub data: TipJar,
}

/// A plain value-holding account (a payer, a tipper, a destination).
#[derive(Clone, Copy, Debug)]
pub struct SystemAccount {
    pub key: Pubkey,
    pub lamports: u64,
}

/// What the host hands to the initialization of a jar.
#[derive(Clone, Copy, Debug)]
pub struct InitializeTipJar {
    /// Address of the storage slot for the new record.
    pub tip_jar: Pubkey,
    /// Whether storage at that address is already allocated.
    pub tip_jar_in_use: bool,
    /// The account that funds the storage.
    pub payer: SystemAccount,
    /// The amount the host charges to allocate the record's storage.
    pub rent: u64,
}

/// What the host hands to a deposit.
#[derive(Clone, Copy, Debug)]
pub struct Tip {
    pub tip_jar: TipJarAccount,
    /// The sender; the host has checked its signature.
    pub tipper: SystemAccount,
}

/// What the host hands to a withdrawal.
#[derive(Clone, Copy, Debug)]
pub struct Withdraw {
    pub tip_jar: TipJarAccount,
    /// The signer of the withdrawal; the host has checked its signature.
    pub owner: Pubkey,
    pub destination: SystemAccount,
}

#[derive(Clone, Copy, Debug, PartialEq, Eq, Structural)]
pub enum TipJarError {
    /// A deposit of zero.
    ZeroTipNotAllowed,
    /// The running total would leave the range of `u64`.
    Overflow,
    /// The signer of a withdrawal is not the jar's owner.
    Unauthorized,
    /// A withdrawal from an empty jar.
    NothingToWithdraw,
    /// The record's storage is already allocated or cannot be funded.
    AllocationError,
    /// The value transfer of a deposit was rejected.
    TransferFailed,
}

/// Emitted when a jar is created.
#[derive(Clone, Copy, Debug)]
pub struct TipJarInitialized {
    pub tip_jar: Pubkey,
    pub owner: Pubkey,
}

/// Emitted on each successful deposit.
#[derive(Clone, Copy, Debug)]
pub struct Tipped {
    pub tip_jar: Pubkey,
    pub from: Pubkey,
    pub amount: u64,
}

/// Emitted on each successful withdrawal.
#[derive(Clone, Copy, Debug)]
pub struct Withdrawn {
    pub tip_jar: Pubkey,
    pub owner: Pubkey,
    pub destination: Pubkey,
    pub amount: u64,
}

/// The error an initialization fails with, if any.
pub open spec fn initialize_error(ctx: InitializeTipJar) -> Option<TipJarError> {
    if ctx.tip_jar_in_use || ctx.payer.lamports < ctx.rent {
        Some(TipJarError::AllocationError)
    } else {
        None
    }
}

/// Initialization as a transition: the context afterwards and the result.
pub open spec fn initialize_spec(ctx: InitializeTipJar, owner: Pubkey) -> (
    InitializeTipJar,
    Result<(TipJarAccount, TipJarInitialized), TipJarError>,
) {
    match initialize_error(ctx) {
        Some(e) => (ctx, Err(e)),
        None => (
            InitializeTipJar {
                tip_jar_in_use: true,
                payer: SystemAccount {
                    lamports: (ctx.payer.lamports - ctx.rent) as u64,
                    ..ctx.payer
                },
                ..ctx
            },
            Ok(
                (
                    TipJarAccount {
                        key: ctx.tip_jar,
                        lamports: 0,
                        data: TipJar { owner, total_tips: 0 },
                    },
                    TipJarInitialized { tip_jar: ctx.tip_jar, owner },
                ),
            ),
        ),
    }
}

/// The error a deposit fails with, if any. The overflow of the running total is
/// checked before the transfer is attempted, so that no value moves unrecorded.
pub open spec fn tip_error(ctx: Tip, amount: u64) -> Option<TipJarError> {
    if amount == 0 {
        Some(TipJarError::ZeroTipNotAllowed)
    } else if ctx.tip_jar.data.total_tips + amount > u64::MAX {
        Some(TipJarError::Overflow)
    } else if ctx.tipper.lamports < amount || ctx.tip_jar.lamports + amount > u64::MAX {
        Some(TipJarError::TransferFailed)
    } else {
        None
    }
}

/// The jar after a successful deposit of `amount`.
pub open spec fn credited(jar: TipJarAccount, amount: u64) -> TipJarAccount {
    TipJarAccount {
        lamports: (jar.lamports + amount) as u64,
        data: TipJar { total_tips: (jar.data.total_tips + amount) as u64, ..jar.data },
        ..jar
    }
}

/// A deposit as a transition: the context afterwards and the result.
pub open spec fn tip_spec(ctx: Tip, amount: u64) -> (Tip, Result<Tipped, TipJarError>) {
    match tip_error(ctx, amount) {
        Some(e) => (ctx, Err(e)),
        None => (
            Tip {
                tip_jar: credited(ctx.tip_jar, amount),
                tipper: SystemAccount {
                    lamports: (ctx.tipper.lamports - amount) as u64,
                    ..ctx.tipper
                },
            },
            Ok(Tipped { tip_jar: ctx.tip_jar.key, from: ctx.tipper.key, amount }),
        ),
    }
}

/// The error a withdrawal fails with, if any.
pub open spec fn withdraw_error(ctx: Withdraw) -> Option<TipJarError> {
    if ctx.tip_jar.data.owner@ != ctx.owner@ {
        Some(TipJarError::Unauthorized)
    } else if ctx.tip_jar.lamports == 0 {
        Some(TipJarError::NothingToWithdraw)
    } else {
        None
    }
}

/// A withdrawal as a transition: the context afterwards and the result.
pub open spec fn withdraw_spec(ctx: Withdraw) -> (
    Withdraw,
    Result<Withdrawn, TipJarError>,
) {
    match withdraw_error(ctx) {
        Some(e) => (ctx, Err(e)),
        None => (
            Withdraw {
                tip_jar: TipJarAccount { lamports: 0, ..ctx.tip_jar },
                destination: SystemAccount {
                    lamports: (ctx.destination.lamports + ctx.tip_jar.lamports) as u64,
                    ..ctx.destination
                },
                ..ctx
            },
            Ok(
                Withdrawn {
                    tip_jar: ctx.tip_jar.key,
                    owner: ctx.owner,
                    destination: ctx.destination.key,
                    amount: ctx.tip_jar.lamports,
                },
            ),
        ),
    }
}

/// Creates a jar owned by `owner` in the slot that `ctx` names, the payer funding
/// its storage. Anyone may create a jar for any owner.
pub fn initialize_tip_jar(ctx: &mut InitializeTipJar, owner: Pubkey) -> (r: Result<
    (TipJarAccount, TipJarInitialized),
    TipJarError,
>)
    ensures
        (*final(ctx), r) == initialize_spec(*old(ctx), owner),
{
    if ctx.tip_jar_in_use || ctx.payer.lamports < ctx.rent {
        return Err(TipJarError::AllocationError);
    }
    ctx.payer.lamports = ctx.payer.lamports - ctx.rent;
    ctx.tip_jar_in_use = true;
    let tip_jar = TipJarAccount {
        key: ctx.tip_jar,
        lamports: 0,
        data: TipJar { owner, total_tips: 0 },
    };
    Ok((tip_jar, TipJarInitialized { tip_jar: ctx.tip_jar, owner }))
}

/// Deposits `amount` from the tipper into the jar and adds it to the running
/// total; on any error nothing changes.
pub fn tip(ctx: &mut Tip, amount: u64) -> (r: Result<Tipped, TipJarError>)
    ensures
        (*final(ctx), r) == tip_spec(*old(ctx), amount),
{
    if amount == 0 {
        return Err(TipJarError::ZeroTipNotAllowed);
    }
    let total_tips = match ctx.tip_jar.data.total_tips.checked_add(amount) {
        Some(t) => t,
        None => return Err(TipJarError::Overflow),
    };
    if let Err(e) = transfer(&mut ctx.tipper, &mut ctx.tip_jar, amount) {
        return Err(e);
    }
    ctx.tip_jar.data.total_tips = total_tips;
    Ok(Tipped { tip_jar: ctx.tip_jar.key, from: ctx.tipper.key, amount })
}

/// Moves `amount` from `from` into the jar, all or nothing.
fn transfer(from: &mut SystemAccount, to: &mut TipJarAccount, amount: u64) -> (r: Result<
    (),
    TipJarError,
>)
    ensures
        (old(from).lamports < amount || old(to).lamports + amount > u64::MAX) ==> (r == Err::<
            (),
            TipJarError,
        >(TipJarError::TransferFailed) && *final(from) == *old(from) && *final(to) == *old(to)),
        !(old(from).lamports < amount || old(to).lamports + amount > u64::MAX) ==> (r is Ok
            && *final(from) == (SystemAccount {
            lamports: (old(from).lamports - amount) as u64,
            ..*old(from)
        }) && *final(to) == (TipJarAccount {
            lamports: (old(to).lamports + amount) as u64,
            ..*old(to)
        })),
{
    if from.lamports < amount {
        return Err(TipJarError::TransferFailed);
    }
    let lamports = match to.lamports.checked_add(amount) {
        Some(l) => l,
        None => return Err(TipJarError::TransferFailed),
    };
    from.lamports = from.lamports - amount;
    to.lamports = lamports;
    Ok(())
}

/// Moves the jar's whole balance to the destination, if the signer is the
/// owner and the jar is not empty. The running total is left as it is.
/// Where value moves, the host keeps the sum of all balances within `u64`, so
/// the destination can always take the jar's balance.
pub fn withdraw(ctx: &mut Withdraw) -> (r: Result<Withdrawn, TipJarError>)
    requires
        withdraw_error(*old(ctx)) is None ==> old(ctx).destination.lamports
            + old(ctx).tip_jar.lamports <= u64::MAX,
    ensures
        (*final(ctx), r) == withdraw_spec(*old(ctx)),
{
    let amount = ctx.tip_jar.lamports;
    if !ctx.tip_jar.data.owner.same_as(&ctx.owner) {
        return Err(TipJarError::Unauthorized);
    }
    if amount == 0 {
        return Err(TipJarError::NothingToWithdraw);
    }
    ctx.tip_jar.lamports = 0;
    ctx.destination.lamports = ctx.destination.lamports + amount;
    Ok(
        Withdrawn {
            tip_jar: ctx.tip_jar.key,
            owner: ctx.owner,
            destination: ctx.destination.key,
            amount,
        },
    )
}

} // verus!
