//! What opening a credit line, drawing, repaying and adding a memo come to, for every state and
//! every request.
use cosmwasm_std::StdError;
use vstd::prelude::*;

use crate::chain::{Attributes, Env};
use crate::error::{ErrorView, StdFailureView};
use crate::laws::shares::an_accrual_follows_the_share;
use crate::ledger::{Entry, Ledger, Refusals};
use crate::state::{DrawAction, DrawView};
use crate::text::{amount_of, decimal};

verus! {

/// Whether an entry counts `count`, where a missing one stands for zero.
pub open spec fn counts(slot: Option<Entry<u64>>, count: u64) -> bool {
    slot == Some(Entry::Value(count)) || (slot is None && count == 0)
}

/// Whether `bps` is the rate of the protocol fee: the stored one, zero where none is stored.
pub open spec fn fee_rate(state: Ledger, bps: u32) -> bool {
    state.protocol_fee == Some(Entry::Value(bps)) || (state.protocol_fee is None && bps == 0)
}

/// Whether `part` is `bps` basis points of `whole`, rounded down.
pub open spec fn is_rounded_part(part: int, whole: int, bps: u32) -> bool {
    part * 10_000 <= whole * bps < (part + 1) * 10_000
}

/// A credit line is opened exactly if the owner asks for it, the chain accepts the borrower, the
/// number of credit lines is known and both amounts are numbers of at most 128 bits. The record
/// under the next id then holds the borrower, both tokens and both amounts as requested, and is
/// active; the borrower is mapped to it; the number of credit lines grows by one; and nothing else
/// changes. The reply names the id.
pub proof fn a_credit_line_is_opened_as_requested(
    state: Ledger,
    refusals: Refusals,
    sender: Seq<char>,
    borrower: Seq<char>,
    collateral_denom: Seq<char>,
    collateral_amount: Seq<char>,
    credit_denom: Seq<char>,
    credit_amount: Seq<char>,
)
    ensures
        ({
            let step = state.create_credit_line(
                refusals,
                sender,
                borrower,
                collateral_denom,
                collateral_amount,
                credit_denom,
                credit_amount,
            );
            let after = step.ledger;
            let id = state.credit_line_count->Ok_0;
            &&& step.reply is Ok <==> {
                &&& state.config == Ok::<Seq<char>, StdError>(sender)
                &&& !refusals.contains_key(borrower)
                &&& state.credit_line_count is Ok
                &&& amount_of(collateral_amount) is Some
                &&& amount_of(credit_amount) is Some
            }
            &&& step.reply is Err ==> after == state
            &&& step.reply is Ok ==> {
                &&& after.credit_lines.get(id) matches Some(Entry::Value(line)) && {
                    &&& line.id == id
                    &&& line.borrower == borrower
                    &&& line.collateral_denom == collateral_denom
                    &&& amount_of(collateral_amount) == Some(line.collateral_amount)
                    &&& line.credit_denom == credit_denom
                    &&& amount_of(credit_amount) == Some(line.credit_amount)
                    &&& line.active
                }
                &&& id < u64::MAX ==> (after.credit_line_count matches Ok(count) && count == id + 1)
                &&& after.borrower_ids.get(borrower) == Some(Entry::Value(id))
                &&& forall|other: u64|
                    other != id ==> #[trigger] after.credit_lines.get(other)
                        == state.credit_lines.get(other)
                &&& forall|other: Seq<char>|
                    other != borrower ==> #[trigger] after.borrower_ids.get(other)
                        == state.borrower_ids.get(other)
                &&& after == Ledger {
                    credit_lines: after.credit_lines,
                    credit_line_count: after.credit_line_count,
                    borrower_ids: after.borrower_ids,
                    ..state
                }
            }
            &&& step.reply matches Ok(reply) ==> reply == seq![
                ("action"@, "create_credit_line"@),
                ("credit_line_id"@, decimal(id as nat)),
            ]
        }),
{
}

/// Why a credit line is not opened: the owner is unknown, someone else asks, the chain refuses the
/// borrower, the number of credit lines is unknown, or one of the amounts is not a number. Of
/// several reasons the first is reported.
pub proof fn a_credit_line_is_refused_for_the_first_reason(
    state: Ledger,
    refusals: Refusals,
    sender: Seq<char>,
    borrower: Seq<char>,
    collateral_denom: Seq<char>,
    collateral_amount: Seq<char>,
    credit_denom: Seq<char>,
    credit_amount: Seq<char>,
)
    ensures
        ({
            let reply = state.create_credit_line(
                refusals,
                sender,
                borrower,
                collateral_denom,
                collateral_amount,
                credit_denom,
                credit_amount,
            ).reply;
            let owned = state.config == Ok::<Seq<char>, StdError>(sender);
            let known = owned && !refusals.contains_key(borrower);
            let counted = known && state.credit_line_count is Ok;
            &&& (state.config matches Err(e) ==> reply == Err::<Attributes, _>(
                ErrorView::Std(StdFailureView::Backend(e)),
            ))
            &&& state.config is Ok && !owned ==> reply == Err::<Attributes, _>(
                ErrorView::Unauthorized,
            )
            &&& owned && !known ==> reply == Err::<Attributes, _>(
                ErrorView::Std(StdFailureView::Backend(refusals[borrower])),
            )
            &&& known ==> (state.credit_line_count matches Err(e) ==> reply == Err::<
                Attributes,
                _,
            >(ErrorView::Std(StdFailureView::Backend(e))))
            &&& counted && amount_of(collateral_amount) is None ==> reply == Err::<Attributes, _>(
                ErrorView::Std(
                    StdFailureView::ParseErr { target_type: "Uint128"@, msg: collateral_amount },
                ),
            )
            &&& counted && amount_of(collateral_amount) is Some && amount_of(credit_amount) is None
                ==> reply == Err::<Attributes, _>(
                ErrorView::Std(
                    StdFailureView::ParseErr { target_type: "Uint128"@, msg: credit_amount },
                ),
            )
        }),
{
}

/// A draw succeeds exactly if the credit line exists, its borrower asks, the number of its draws
/// is known and the amount is a number of at most 128 bits, whatever was drawn and repaid before.
/// The draw under the next id then holds the amount, the token, the block time and the sender, and
/// is not repaid; its audit trail has the one entry that records its creation; the number of draws
/// on the line grows by one; and nothing else changes. The reply names the line and the draw.
pub proof fn a_draw_is_recorded_as_requested(
    state: Ledger,
    env: Env,
    sender: Seq<char>,
    line_id: u64,
    amount: Seq<char>,
    denom: Seq<char>,
    id: u64,
)
    requires
        !(state.draw_counts.get(line_id) matches Some(Entry::Malformed(_))) ==> counts(
            state.draw_counts.get(line_id),
            id,
        ),
    ensures
        ({
            let step = state.create_draw(env, sender, line_id, amount, denom);
            let after = step.ledger;
            &&& step.reply is Ok <==> {
                &&& state.credit_lines.get(line_id) matches Some(Entry::Value(line))
                    && line.borrower == sender
                &&& !(state.draw_counts.get(line_id) matches Some(Entry::Malformed(_)))
                &&& amount_of(amount) is Some
            }
            &&& step.reply is Err ==> after == state
            &&& step.reply is Ok ==> {
                &&& after.draws.get((line_id, id)) matches Some(Entry::Value(draw)) && {
                    &&& draw.id == id
                    &&& draw.credit_line_id == line_id
                    &&& amount_of(amount) == Some(draw.amount)
                    &&& draw.denom == denom
                    &&& draw.drawn_at == env.block.time
                    &&& draw.drawn_by == sender
                    &&& !draw.repaid
                }
                &&& after.audit.get((line_id, id, 0)) matches Some(Entry::Value(entry)) && {
                    &&& entry.seq == 0
                    &&& entry.draw_id == id
                    &&& entry.credit_line_id == line_id
                    &&& entry.action == DrawAction::DrawCreated
                    &&& entry.timestamp == env.block.time
                    &&& entry.block_height == env.block.height
                    &&& entry.by == sender
                    &&& entry.memo.len() == 0
                }
                &&& id < u64::MAX ==> (after.draw_counts.get(line_id) matches Some(
                    Entry::Value(count),
                ) && count == id + 1)
                &&& after.audit_counts.get((line_id, id)) == Some(Entry::Value(1u64))
                &&& forall|l: u64, d: u64|
                    (l, d) != (line_id, id) ==> #[trigger] after.draws.get((l, d))
                        == state.draws.get((l, d))
                &&& forall|l: u64|
                    l != line_id ==> #[trigger] after.draw_counts.get(l) == state.draw_counts.get(l)
                &&& forall|l: u64, d: u64, s: u64|
                    (l, d, s) != (line_id, id, 0u64) ==> #[trigger] after.audit.get((l, d, s))
                        == state.audit.get((l, d, s))
                &&& forall|l: u64, d: u64|
                    (l, d) != (line_id, id) ==> #[trigger] after.audit_counts.get((l, d))
                        == state.audit_counts.get((l, d))
                &&& after == Ledger {
                    draws: after.draws,
                    draw_counts: after.draw_counts,
                    audit: after.audit,
                    audit_counts: after.audit_counts,
                    ..state
                }
            }
            &&& step.reply matches Ok(reply) ==> reply == seq![
                ("action"@, "create_draw"@),
                ("credit_line_id"@, decimal(line_id as nat)),
                ("draw_id"@, decimal(id as nat)),
            ]
        }),
{
}

/// In a sound state a draw succeeds exactly if the credit line exists, its borrower asks and the
/// amount is a number of at most 128 bits.
pub proof fn a_sound_state_takes_draws(
    state: Ledger,
    env: Env,
    sender: Seq<char>,
    line_id: u64,
    amount: Seq<char>,
    denom: Seq<char>,
)
    requires
        state.sound(),
    ensures
        state.create_draw(env, sender, line_id, amount, denom).reply is Ok <==> {
            &&& state.credit_lines.get(line_id) matches Some(Entry::Value(line)) && line.borrower
                == sender
            &&& amount_of(amount) is Some
        },
{
    assert(state.draw_count_sound(line_id));
}

/// Why a draw is refused: there is no such credit line, it does not decode, someone else asks, the
/// number of draws does not decode, or the amount is not a number. Of several reasons the first is
/// reported.
pub proof fn a_draw_is_refused_for_the_first_reason(
    state: Ledger,
    env: Env,
    sender: Seq<char>,
    line_id: u64,
    amount: Seq<char>,
    denom: Seq<char>,
)
    ensures
        ({
            let reply = state.create_draw(env, sender, line_id, amount, denom).reply;
            let drawn = state.credit_lines.get(line_id) matches Some(Entry::Value(line))
                && line.borrower == sender;
            let unknown = state.draw_counts.get(line_id) matches Some(Entry::Malformed(_));
            &&& state.credit_lines.get(line_id) is None ==> reply == Err::<Attributes, _>(
                ErrorView::CreditLineNotFound(line_id),
            )
            &&& (state.credit_lines.get(line_id) matches Some(Entry::Malformed(e)) ==> reply
                == Err::<Attributes, _>(ErrorView::Std(StdFailureView::Backend(e))))
            &&& (state.credit_lines.get(line_id) matches Some(Entry::Value(line)) ==> line.borrower
                != sender ==> reply == Err::<Attributes, _>(ErrorView::Unauthorized))
            &&& drawn ==> (state.draw_counts.get(line_id) matches Some(Entry::Malformed(e))
                ==> reply == Err::<Attributes, _>(ErrorView::Std(StdFailureView::Backend(e))))
            &&& drawn && !unknown && amount_of(amount) is None ==> reply == Err::<Attributes, _>(
                ErrorView::Std(StdFailureView::ParseErr { target_type: "Uint128"@, msg: amount }),
            )
        }),
{
}

/// Whether an entry with the given contents was put at the end of the audit trail of a draw, which
/// had `count` entries, with no other change to the audit trails.
pub open spec fn extends_trail(
    state: Ledger,
    after: Ledger,
    env: Env,
    sender: Seq<char>,
    line_id: u64,
    draw_id: u64,
    action: DrawAction,
    memo: Seq<char>,
    count: u64,
) -> bool {
    &&& after.audit.get((line_id, draw_id, count)) matches Some(Entry::Value(entry)) && {
        &&& entry.seq == count
        &&& entry.draw_id == draw_id
        &&& entry.credit_line_id == line_id
        &&& entry.action == action
        &&& entry.timestamp == env.block.time
        &&& entry.block_height == env.block.height
        &&& entry.by == sender
        &&& entry.memo == memo
    }
    &&& count < u64::MAX ==> (after.audit_counts.get((line_id, draw_id)) matches Some(
        Entry::Value(longer),
    ) && longer == count + 1)
    &&& forall|l: u64, d: u64, s: u64|
        (l, d, s) != (line_id, draw_id, count) ==> #[trigger] after.audit.get((l, d, s))
            == state.audit.get((l, d, s))
    &&& forall|l: u64, d: u64|
        (l, d) != (line_id, draw_id) ==> #[trigger] after.audit_counts.get((l, d))
            == state.audit_counts.get((l, d))
}

/// A repayment skims the protocol fee: with `n` the growth of the treasury and the bounty pool of
/// the market of the draw together, `n` is the rate of the fee on the amount of the draw, rounded
/// down. The treasury receives its share of `n`, rounded down. No other market is credited, and
/// where nothing is skimmed the pools stay untouched.
pub proof fn a_repayment_skims_the_protocol_fee(
    state: Ledger,
    env: Env,
    sender: Seq<char>,
    line_id: u64,
    draw_id: u64,
    bps: u32,
    share: u32,
)
    requires
        state.repay_draw(env, sender, line_id, draw_id).reply is Ok,
        state.protocol_fee == Some(Entry::Value(bps)) || (state.protocol_fee is None && bps == 0),
        state.draws.get((line_id, draw_id)) matches Some(Entry::Value(draw)) ==> {
            &&& draw.amount * bps < (u128::MAX + 1) * 10_000
            &&& match (state.market_shares.get(draw.denom), state.default_share) {
                (Some(Entry::Value(own)), _) => share == own,
                (_, Ok(default)) => share == default,
                (_, Err(_)) => share == 10_000,
            }
        },
    ensures
        state.draws.get((line_id, draw_id)) matches Some(Entry::Value(draw)) && {
            let after = state.repay_draw(env, sender, line_id, draw_id).ledger;
            let to_treasury = after.treasury_of(draw.denom) - state.treasury_of(draw.denom);
            let to_bounty = after.bounty_of(draw.denom) - state.bounty_of(draw.denom);
            let n = to_treasury + to_bounty;
            &&& n * 10_000 <= draw.amount * bps < (n + 1) * 10_000
            &&& n > 0 ==> to_treasury * 10_000 <= n * share < (to_treasury + 1) * 10_000
            &&& n == 0 ==> after.treasury == state.treasury && after.bounty == state.bounty
            &&& to_treasury >= 0
            &&& to_bounty >= 0
            &&& forall|other: Seq<char>|
                other != draw.denom ==> #[trigger] after.treasury.get(other) == state.treasury.get(
                    other,
                )
            &&& forall|other: Seq<char>|
                other != draw.denom ==> #[trigger] after.bounty.get(other) == state.bounty.get(
                    other,
                )
        },
{
    if let Some(Entry::Value(draw)) = state.draws.get((line_id, draw_id)) {
        let fee = draw.amount * bps / 10_000;
        lemma_rounded_part(draw.amount, bps);
        an_accrual_follows_the_share(state, draw.denom, fee as u128, share);
    }
}

proof fn lemma_rounded_part(amount: u128, bps: u32)
    ensures
        0 <= amount * bps / 10_000,
        is_rounded_part(amount * bps / 10_000, amount as int, bps),
{
    assert(0 <= amount * bps) by (nonlinear_arith)
        requires
            0 <= amount,
            0 <= bps,
    ;
}

/// A repayment of a draw, with `fee` the protocol fee on its amount, succeeds exactly if whoever
/// made the draw asks, the fee rate decodes, the fee can be accrued to the market of the draw and
/// the length of the audit trail decodes, whether or not the draw was repaid before. The draw is
/// then repaid and otherwise as it was; its audit trail has one entry more, which records the
/// repayment; the pools are those that accruing the fee leaves; and nothing else changes. The
/// reply names the line, the draw, and the fee where there is one.
pub proof fn a_repayment_is_recorded(
    state: Ledger,
    env: Env,
    sender: Seq<char>,
    line_id: u64,
    draw_id: u64,
    bps: u32,
    fee: u128,
    count: u64,
)
    requires
        state.draws.get((line_id, draw_id)) is Some,
        state.protocol_fee matches Some(Entry::Malformed(_)) || fee_rate(state, bps),
        state.draws.get((line_id, draw_id)) matches Some(Entry::Value(draw)) ==> is_rounded_part(
            fee as int,
            draw.amount as int,
            bps,
        ),
        state.audit_counts.get((line_id, draw_id)) matches Some(Entry::Malformed(_)) || counts(
            state.audit_counts.get((line_id, draw_id)),
            count,
        ),
    ensures
        ({
            let step = state.repay_draw(env, sender, line_id, draw_id);
            let after = step.ledger;
            &&& step.reply is Ok <==> {
                &&& state.draws.get((line_id, draw_id)) matches Some(Entry::Value(draw)) && {
                    &&& draw.drawn_by == sender
                    &&& state.accrue(draw.denom, fee).reply is Ok
                }
                &&& !(state.protocol_fee matches Some(Entry::Malformed(_)))
                &&& !(state.audit_counts.get((line_id, draw_id)) matches Some(Entry::Malformed(_)))
            }
            &&& step.reply is Ok ==> {
                &&& (state.draws.get((line_id, draw_id)) matches Some(Entry::Value(before)) ==> {
                    &&& after.draws.get((line_id, draw_id)) matches Some(Entry::Value(draw)) && {
                        &&& draw.repaid
                        &&& draw.id == before.id
                        &&& draw.credit_line_id == before.credit_line_id
                        &&& draw.amount == before.amount
                        &&& draw.denom == before.denom
                        &&& draw.drawn_at == before.drawn_at
                        &&& draw.drawn_by == before.drawn_by
                    }
                    &&& after.treasury == state.accrue(before.denom, fee).ledger.treasury
                    &&& after.bounty == state.accrue(before.denom, fee).ledger.bounty
                })
                &&& extends_trail(
                    state,
                    after,
                    env,
                    sender,
                    line_id,
                    draw_id,
                    DrawAction::Repaid,
                    Seq::empty(),
                    count,
                )
                &&& forall|l: u64, d: u64|
                    (l, d) != (line_id, draw_id) ==> #[trigger] after.draws.get((l, d))
                        == state.draws.get((l, d))
                &&& after == Ledger {
                    draws: after.draws,
                    audit: after.audit,
                    audit_counts: after.audit_counts,
                    treasury: after.treasury,
                    bounty: after.bounty,
                    ..state
                }
            }
            &&& step.reply matches Ok(reply) ==> {
                let named = seq![
                    ("action"@, "repay_draw"@),
                    ("credit_line_id"@, decimal(line_id as nat)),
                    ("draw_id"@, decimal(draw_id as nat)),
                ];
                &&& fee == 0 ==> reply == named
                &&& fee > 0 ==> reply == named.push(("protocol_fee_skimmed"@, decimal(fee as nat)))
            }
        }),
{
    if let Some(Entry::Value(draw)) = state.draws.get((line_id, draw_id)) {
        lemma_rounded_part(draw.amount, bps);
    }
}

/// Why a repayment is refused: there is no such draw, it does not decode, someone else asks, the
/// fee rate does not decode, the fee cannot be accrued, or the length of the audit trail does not
/// decode. Of several reasons the first is reported. Up to the accrual nothing has changed; at the
/// last, the fee is accrued and the draw is marked already.
pub proof fn a_repayment_is_refused_for_the_first_reason(
    state: Ledger,
    env: Env,
    sender: Seq<char>,
    line_id: u64,
    draw_id: u64,
    bps: u32,
    fee: u128,
)
    requires
        state.protocol_fee matches Some(Entry::Malformed(_)) || fee_rate(state, bps),
        state.draws.get((line_id, draw_id)) matches Some(Entry::Value(draw)) ==> is_rounded_part(
            fee as int,
            draw.amount as int,
            bps,
        ),
    ensures
        ({
            let step = state.repay_draw(env, sender, line_id, draw_id);
            &&& state.draws.get((line_id, draw_id)) is None ==> step.reply == Err::<Attributes, _>(
                ErrorView::DrawNotFound(draw_id, line_id),
            ) && step.ledger == state
            &&& (state.draws.get((line_id, draw_id)) matches Some(Entry::Malformed(e))
                ==> step.reply == Err::<Attributes, _>(ErrorView::Std(StdFailureView::Backend(e)))
                && step.ledger == state)
            &&& (state.draws.get((line_id, draw_id)) matches Some(Entry::Value(draw)) ==> {
                let own = draw.drawn_by == sender;
                let rated = own && !(state.protocol_fee matches Some(Entry::Malformed(_)));
                let accrued = state.accrue(draw.denom, fee);
                &&& !own ==> step.reply == Err::<Attributes, _>(ErrorView::Unauthorized)
                    && step.ledger == state
                &&& own ==> (state.protocol_fee matches Some(Entry::Malformed(e)) ==> step.reply
                    == Err::<Attributes, _>(ErrorView::Std(StdFailureView::Backend(e)))
                    && step.ledger == state)
                &&& rated ==> (accrued.reply matches Err(e) ==> step.reply == Err::<Attributes, _>(
                    e,
                ) && step.ledger == accrued.ledger)
                &&& rated && accrued.reply is Ok ==> (state.audit_counts.get(
                    (line_id, draw_id),
                ) matches Some(Entry::Malformed(e)) ==> {
                    &&& step.reply == Err::<Attributes, _>(
                        ErrorView::Std(StdFailureView::Backend(e)),
                    )
                    &&& step.ledger.draws.get((line_id, draw_id)) == Some(
                        Entry::Value(DrawView { repaid: true, ..draw }),
                    )
                    &&& forall|l: u64, d: u64|
                        (l, d) != (line_id, draw_id) ==> #[trigger] step.ledger.draws.get((l, d))
                            == state.draws.get((l, d))
                    &&& step.ledger == Ledger { draws: step.ledger.draws, ..accrued.ledger }
                })
            })
        }),
{
    if let Some(Entry::Value(draw)) = state.draws.get((line_id, draw_id)) {
        lemma_rounded_part(draw.amount, bps);
    }
}

/// A memo is added exactly if the owner asks, the draw exists and decodes, and the length of its
/// audit trail decodes. The trail then has one entry more, which holds the memo as it was given,
/// and nothing else changes. The reply names the line and the draw.
pub proof fn a_memo_is_recorded_as_given(
    state: Ledger,
    env: Env,
    sender: Seq<char>,
    line_id: u64,
    draw_id: u64,
    memo: Seq<char>,
    count: u64,
)
    requires
        state.audit_counts.get((line_id, draw_id)) matches Some(Entry::Malformed(_)) || counts(
            state.audit_counts.get((line_id, draw_id)),
            count,
        ),
    ensures
        ({
            let step = state.add_audit_memo(env, sender, line_id, draw_id, memo);
            let after = step.ledger;
            let owned = state.config == Ok::<Seq<char>, StdError>(sender);
            &&& step.reply is Ok <==> {
                &&& owned
                &&& state.draws.get((line_id, draw_id)) matches Some(Entry::Value(_))
                &&& !(state.audit_counts.get((line_id, draw_id)) matches Some(Entry::Malformed(_)))
            }
            &&& step.reply is Ok ==> {
                &&& extends_trail(
                    state,
                    after,
                    env,
                    sender,
                    line_id,
                    draw_id,
                    DrawAction::MemoAdded,
                    memo,
                    count,
                )
                &&& after == Ledger {
                    audit: after.audit,
                    audit_counts: after.audit_counts,
                    ..state
                }
            }
            &&& step.reply matches Ok(reply) ==> reply == seq![
                ("action"@, "add_audit_memo"@),
                ("credit_line_id"@, decimal(line_id as nat)),
                ("draw_id"@, decimal(draw_id as nat)),
            ]
            &&& step.reply is Err ==> after == state
            &&& (state.config matches Err(e) ==> step.reply == Err::<Attributes, _>(
                ErrorView::Std(StdFailureView::Backend(e)),
            ))
            &&& state.config is Ok && !owned ==> step.reply == Err::<Attributes, _>(
                ErrorView::Unauthorized,
            )
            &&& owned && state.draws.get((line_id, draw_id)) is None ==> step.reply == Err::<
                Attributes,
                _,
            >(ErrorView::DrawNotFound(draw_id, line_id))
            &&& owned ==> (state.draws.get((line_id, draw_id)) matches Some(Entry::Malformed(e))
                ==> step.reply == Err::<Attributes, _>(ErrorView::Std(StdFailureView::Backend(e))))
            &&& owned && (state.draws.get((line_id, draw_id)) matches Some(Entry::Value(_))) ==> (
            state.audit_counts.get((line_id, draw_id)) matches Some(Entry::Malformed(e))
                ==> step.reply == Err::<Attributes, _>(ErrorView::Std(StdFailureView::Backend(e))))
        }),
{
}

} // verus!
