use vstd::prelude::*;

use crate::jar::{
    tip_spec, withdraw_spec, SystemAccount, Tip, TipJarAccount, TipJarError, Tipped, Withdraw,
    Withdrawn,
};
use crate::key::Pubkey;

verus! {

/// The sum of the amounts of a sequence of deposits.
pub open spec fn tips_total(tips: Seq<(SystemAccount, u64)>) -> int
    decreases tips.len(),
{
    if tips.len() == 0 {
        0
    } else {
        tips_total(tips.drop_last()) + tips.last().1
    }
}

/// The jar after the deposits of `tips` are made in order, each from its own
/// tipper.
pub open spec fn run_tips(jar: TipJarAccount, tips: Seq<(SystemAccount, u64)>) -> TipJarAccount
    decreases tips.len(),
{
    if tips.len() == 0 {
        jar
    } else {
        let before = run_tips(jar, tips.drop_last());
        tip_spec(Tip { tip_jar: before, tipper: tips.last().0 }, tips.last().1).0.tip_jar
    }
}

/// Whether each deposit of `tips`, made in order on `jar`, succeeds.
pub open spec fn all_tips_succeed(jar: TipJarAccount, tips: Seq<(SystemAccount, u64)>) -> bool {
    forall|i: int|
        0 <= i < tips.len() ==> (#[trigger] tip_spec(
            Tip { tip_jar: run_tips(jar, tips.take(i)), tipper: tips[i].0 },
            tips[i].1,
        )).1 is Ok
}

/// After any sequence of successful deposits, the running total and the custody
/// balance have each grown by exactly the sum of the deposited amounts, and the
/// owner is the same.
pub proof fn lemma_tips_add_up(jar: TipJarAccount, tips: Seq<(SystemAccount, u64)>)
    requires
        all_tips_succeed(jar, tips),
    ensures
        run_tips(jar, tips).data.total_tips == jar.data.total_tips + tips_total(tips),
        run_tips(jar, tips).lamports == jar.lamports + tips_total(tips),
        run_tips(jar, tips).data.owner == jar.data.owner,
        run_tips(jar, tips).key == jar.key,
    decreases tips.len(),
{
    if tips.len() > 0 {
        let n = tips.len() - 1;
        let prefix = tips.drop_last();
        assert forall|i: int| 0 <= i < prefix.len() implies (#[trigger] tip_spec(
            Tip { tip_jar: run_tips(jar, prefix.take(i)), tipper: prefix[i].0 },
            prefix[i].1,
        )).1 is Ok by {
            assert(prefix.take(i) =~= tips.take(i));
            assert(tip_spec(
                Tip { tip_jar: run_tips(jar, tips.take(i)), tipper: tips[i].0 },
                tips[i].1,
            ).1 is Ok);
        }
        lemma_tips_add_up(jar, prefix);
        assert(tips.take(n) =~= prefix);
        assert(tip_spec(
            Tip { tip_jar: run_tips(jar, tips.take(n)), tipper: tips[n].0 },
            tips[n].1,
        ).1 is Ok);
    }
}

/// A deposit of zero is always rejected, and changes nothing.
pub proof fn lemma_zero_tip_rejected(ctx: Tip)
    ensures
        tip_spec(ctx, 0) == (ctx, Err::<Tipped, TipJarError>(
            TipJarError::ZeroTipNotAllowed,
        )),
{
}

/// Once the running total is at its maximum, every deposit of a positive amount
/// fails with `Overflow` and changes neither the total nor any balance.
pub proof fn lemma_full_counter_rejects(ctx: Tip, amount: u64)
    requires
        ctx.tip_jar.data.total_tips == u64::MAX,
        amount > 0,
    ensures
        tip_spec(ctx, amount) == (ctx, Err::<Tipped, TipJarError>(
            TipJarError::Overflow,
        )),
{
}

/// A withdrawal signed by any key other than the owner's fails with
/// `Unauthorized` and changes nothing, whatever the balances.
pub proof fn lemma_only_owner_withdraws(ctx: Withdraw)
    requires
        ctx.owner@ != ctx.tip_jar.data.owner@,
    ensures
        withdraw_spec(ctx) == (ctx, Err::<Withdrawn, TipJarError>(TipJarError::Unauthorized)),
{
}

/// A successful withdrawal empties the jar and moves exactly its prior balance
/// to the destination, which the event names; a second withdrawal right after
/// fails with `NothingToWithdraw`.
pub proof fn lemma_withdraw_drains(ctx: Withdraw)
    requires
        ctx.destination.lamports + ctx.tip_jar.lamports <= u64::MAX,
        withdraw_spec(ctx).1 is Ok,
    ensures
        withdraw_spec(ctx).0.tip_jar.lamports == 0,
        withdraw_spec(ctx).0.destination.lamports == ctx.destination.lamports
            + ctx.tip_jar.lamports,
        withdraw_spec(ctx).1->Ok_0.amount == ctx.tip_jar.lamports,
        withdraw_spec(ctx).1->Ok_0.destination == ctx.destination.key,
        withdraw_spec(withdraw_spec(ctx).0) == (
            withdraw_spec(ctx).0,
            Err::<Withdrawn, TipJarError>(TipJarError::NothingToWithdraw),
        ),
{
}

/// A withdrawal, whatever its outcome, leaves the jar's record (owner and
/// running total) as it was.
pub proof fn lemma_withdraw_keeps_record(ctx: Withdraw)
    ensures
        withdraw_spec(ctx).0.tip_jar.data == ctx.tip_jar.data,
        withdraw_spec(ctx).0.tip_jar.key == ctx.tip_jar.key,
{
}

/// One operation on a jar: a deposit from a tipper, or a withdrawal signed by a
/// key to a destination.
pub enum JarStep {
    Deposit(SystemAccount, u64),
    Withdrawal(Pubkey, SystemAccount),
}

/// The jar after one operation, successful or not.
pub open spec fn apply_step(jar: TipJarAccount, step: JarStep) -> TipJarAccount {
    match step {
        JarStep::Deposit(tipper, amount) => tip_spec(Tip { tip_jar: jar, tipper }, amount).0.tip_jar,
        JarStep::Withdrawal(signer, destination) => withdraw_spec(
            Withdraw { tip_jar: jar, owner: signer, destination },
        ).0.tip_jar,
    }
}

/// The jar after the operations of `steps`, in order.
pub open spec fn run_steps(jar: TipJarAccount, steps: Seq<JarStep>) -> TipJarAccount
    decreases steps.len(),
{
    if steps.len() == 0 {
        jar
    } else {
        apply_step(run_steps(jar, steps.drop_last()), steps.last())
    }
}

/// The sum of the amounts of the deposits of `steps` that succeed, when the
/// operations are made in order on `jar`.
pub open spec fn accepted_total(jar: TipJarAccount, steps: Seq<JarStep>) -> int
    decreases steps.len(),
{
    if steps.len() == 0 {
        0
    } else {
        let before = run_steps(jar, steps.drop_last());
        accepted_total(jar, steps.drop_last()) + match steps.last() {
            JarStep::Deposit(tipper, amount) => if tip_spec(
                Tip { tip_jar: before, tipper },
                amount,
            ).1 is Ok {
                amount as int
            } else {
                0
            },
            JarStep::Withdrawal(_, _) => 0,
        }
    }
}

/// Over any history of deposits and withdrawals, successful or not, the running
/// total grows by exactly the sum of the deposits that succeeded, each counted
/// once; failed deposits and withdrawals add nothing, and the owner never changes.
pub proof fn lemma_total_counts_accepted_deposits(jar: TipJarAccount, steps: Seq<JarStep>)
    ensures
        run_steps(jar, steps).data.total_tips == jar.data.total_tips + accepted_total(jar, steps),
        run_steps(jar, steps).data.owner == jar.data.owner,
    decreases steps.len(),
{
    if steps.len() > 0 {
        lemma_total_counts_accepted_deposits(jar, steps.drop_last());
    }
}

/// A failed deposit changes no balance and no record.
pub proof fn lemma_failed_tip_changes_nothing(ctx: Tip, amount: u64)
    requires
        tip_spec(ctx, amount).1 is Err,
    ensures
        tip_spec(ctx, amount).0 == ctx,
{
}

} // verus!
