//! Credit lines, draws and audit trails are numbered without gaps, refer to one another correctly
//! and are never rewritten.
use vstd::prelude::*;

use crate::chain::{Attributes, Env};
use crate::error::ErrorView;
use crate::fees::split;
use crate::laws::fees::an_accrual_credits_the_fee;
use crate::ledger::{value_or, Entry, Ledger, Refusals};
use crate::state::{DrawAction, DrawAuditEntryView, DrawView};

verus! {

impl Ledger {
    /// The number of draws on a credit line.
    pub open spec fn draw_count(self, line_id: u64) -> u64 {
        value_or(self.draw_counts.get(line_id), 0)
    }

    /// Whether `id` is in use exactly if it is below the number of credit lines, by a credit line
    /// that bears it.
    pub open spec fn line_sound(self, id: u64) -> bool {
        match self.credit_lines.get(id) {
            None => id >= self.line_count(),
            Some(Entry::Value(line)) => id < self.line_count() && line.id == id,
            Some(Entry::Malformed(_)) => false,
        }
    }

    /// Whether draws are only counted on credit lines that exist.
    pub open spec fn draw_count_sound(self, line_id: u64) -> bool {
        match self.draw_counts.get(line_id) {
            None => true,
            Some(Entry::Value(_)) => line_id < self.line_count(),
            Some(Entry::Malformed(_)) => false,
        }
    }

    /// Whether `draw_id` is in use exactly if it is below the number of draws on the credit line,
    /// by a draw that bears it and was made by the borrower of the credit line.
    pub open spec fn draw_sound(self, line_id: u64, draw_id: u64) -> bool {
        match self.draws.get((line_id, draw_id)) {
            None => draw_id >= self.draw_count(line_id),
            Some(Entry::Value(draw)) => {
                &&& draw_id < self.draw_count(line_id)
                &&& draw.id == draw_id
                &&& draw.credit_line_id == line_id
                &&& self.credit_lines.get(line_id) matches Some(Entry::Value(line))
                    && line.borrower == draw.drawn_by
            },
            Some(Entry::Malformed(_)) => false,
        }
    }

    /// Whether exactly the draws that exist have an audit trail.
    pub open spec fn trail_sound(self, line_id: u64, draw_id: u64) -> bool {
        match self.audit_counts.get((line_id, draw_id)) {
            None => self.draws.get((line_id, draw_id)) is None,
            Some(Entry::Value(count)) => count > 0 && self.draws.get((line_id, draw_id)) is Some,
            Some(Entry::Malformed(_)) => false,
        }
    }

    /// Whether `seq` is in use exactly if it is below the number of entries of the audit trail, by
    /// an entry that bears it; the first entry and no other records the creation of the draw.
    pub open spec fn entry_sound(self, line_id: u64, draw_id: u64, seq: u64) -> bool {
        match self.audit.get((line_id, draw_id, seq)) {
            None => seq >= self.audit_len(line_id, draw_id),
            Some(Entry::Value(entry)) => {
                &&& seq < self.audit_len(line_id, draw_id)
                &&& entry.seq == seq
                &&& entry.draw_id == draw_id
                &&& entry.credit_line_id == line_id
                &&& entry.action == DrawAction::DrawCreated <==> seq == 0
            },
            Some(Entry::Malformed(_)) => false,
        }
    }

    /// Whether `borrower` is mapped to a credit line of its own, if it has one at all.
    pub open spec fn borrower_sound(self, borrower: Seq<char>) -> bool {
        match self.borrower_ids.get(borrower) {
            None => forall|id: u64|
                (#[trigger] self.credit_lines.get(id)) matches Some(Entry::Value(line))
                    ==> line.borrower != borrower,
            Some(Entry::Value(id)) => self.credit_lines.get(id) matches Some(Entry::Value(line))
                && line.borrower == borrower,
            Some(Entry::Malformed(_)) => false,
        }
    }

    /// Whether a draw is marked as repaid exactly if its audit trail records a repayment.
    pub open spec fn repayment_sound(self, line_id: u64, draw_id: u64) -> bool {
        self.draws.get((line_id, draw_id)) matches Some(Entry::Value(draw)) ==> (draw.repaid <==> (
        exists|seq: u64| #[trigger] self.records_repayment(line_id, draw_id, seq)))
    }

    /// Whether an audit entry records a repayment.
    pub open spec fn records_repayment(self, line_id: u64, draw_id: u64, seq: u64) -> bool {
        self.audit.get((line_id, draw_id, seq)) matches Some(Entry::Value(entry)) && entry.action
            == DrawAction::Repaid
    }

    /// Whether the records are numbered without gaps and refer to one another correctly.
    pub open spec fn records_sound(self) -> bool {
        &&& self.credit_line_count is Ok
        &&& forall|id: u64| #[trigger] self.line_sound(id)
        &&& forall|l: u64| #[trigger] self.draw_count_sound(l)
        &&& forall|l: u64, d: u64| #[trigger] self.draw_sound(l, d)
        &&& forall|l: u64, d: u64| #[trigger] self.trail_sound(l, d)
        &&& forall|l: u64, d: u64, s: u64| #[trigger] self.entry_sound(l, d, s)
        &&& forall|b: Seq<char>| #[trigger] self.borrower_sound(b)
        &&& forall|l: u64, d: u64| #[trigger] self.repayment_sound(l, d)
    }

    /// Whether `other` holds the same credit lines, draws and audit trails.
    pub open spec fn same_records(self, other: Ledger) -> bool {
        &&& other.credit_line_count == self.credit_line_count
        &&& other.credit_lines == self.credit_lines
        &&& other.draw_counts == self.draw_counts
        &&& other.draws == self.draws
        &&& other.audit_counts == self.audit_counts
        &&& other.audit == self.audit
        &&& other.borrower_ids == self.borrower_ids
    }

    /// Whether every record of this state is still there in `later`, as it was: credit lines and
    /// audit entries unchanged, draws unchanged but for being repaid, which is not undone.
    pub open spec fn records_kept_in(self, later: Ledger) -> bool {
        &&& self.line_count() <= later.line_count()
        &&& forall|id: u64|
            self.credit_lines.get(id) is Some ==> #[trigger] later.credit_lines.get(id)
                == self.credit_lines.get(id)
        &&& forall|l: u64, d: u64, s: u64|
            self.audit.get((l, d, s)) is Some ==> #[trigger] later.audit.get((l, d, s))
                == self.audit.get((l, d, s))
        &&& forall|l: u64, d: u64|
            self.draws.get((l, d)) matches Some(Entry::Value(draw)) ==> #[trigger] later.draws.get(
                (l, d),
            ) == Some(Entry::Value(draw)) || later.draws.get((l, d)) == Some(
                Entry::Value(DrawView { repaid: true, ..draw }),
            )
    }
}

/// What holds of the records holds of any state with the same records.
pub proof fn records_decide_their_soundness(state: Ledger, other: Ledger)
    requires
        state.records_sound(),
        state.same_records(other),
    ensures
        other.records_sound(),
        state.records_kept_in(other),
{
    assert forall|id: u64| #[trigger] other.line_sound(id) by {
        assert(state.line_sound(id));
    }
    assert forall|l: u64| #[trigger] other.draw_count_sound(l) by {
        assert(state.draw_count_sound(l));
    }
    assert forall|l: u64, d: u64| #[trigger] other.draw_sound(l, d) by {
        assert(state.draw_sound(l, d));
    }
    assert forall|l: u64, d: u64| #[trigger] other.trail_sound(l, d) by {
        assert(state.trail_sound(l, d));
    }
    assert forall|l: u64, d: u64, s: u64| #[trigger] other.entry_sound(l, d, s) by {
        assert(state.entry_sound(l, d, s));
    }
    assert forall|b: Seq<char>| #[trigger] other.borrower_sound(b) by {
        assert(state.borrower_sound(b));
    }
    assert forall|l: u64, d: u64| #[trigger] other.repayment_sound(l, d) by {
        assert(state.repayment_sound(l, d));
        assert forall|s: u64|
            #![trigger state.records_repayment(l, d, s)]
            #![trigger other.records_repayment(l, d, s)]
            state.records_repayment(l, d, s) == other.records_repayment(l, d, s) by {}
    }
}

/// A new credit line receives an id that was not in use, its borrower is mapped to it, and the
/// records stay sound.
pub proof fn a_new_credit_line_is_sound(
    state: Ledger,
    refusals: Refusals,
    sender: Seq<char>,
    borrower: Seq<char>,
    collateral_denom: Seq<char>,
    collateral_amount: Seq<char>,
    credit_denom: Seq<char>,
    credit_amount: Seq<char>,
)
    requires
        state.records_sound(),
        state.create_credit_line(
            refusals,
            sender,
            borrower,
            collateral_denom,
            collateral_amount,
            credit_denom,
            credit_amount,
        ).reply is Ok,
        state.line_count() < u64::MAX,
    ensures
        ({
            let after = state.create_credit_line(
                refusals,
                sender,
                borrower,
                collateral_denom,
                collateral_amount,
                credit_denom,
                credit_amount,
            ).ledger;
            &&& after.records_sound()
            &&& state.records_kept_in(after)
            &&& state.credit_lines.get(state.line_count()) is None
            &&& after.borrower_ids.get(borrower) == Some(Entry::Value(state.line_count()))
            &&& after.line_count() == state.line_count() + 1
        }),
{
    let after = state.create_credit_line(
        refusals,
        sender,
        borrower,
        collateral_denom,
        collateral_amount,
        credit_denom,
        credit_amount,
    ).ledger;
    let new_id = state.line_count();
    assert(state.line_sound(new_id));
    assert forall|id: u64| #[trigger] after.line_sound(id) by {
        assert(state.line_sound(id));
    }
    assert forall|l: u64| #[trigger] after.draw_count_sound(l) by {
        assert(state.draw_count_sound(l));
    }
    assert forall|l: u64, d: u64| #[trigger] after.draw_sound(l, d) by {
        assert(state.draw_sound(l, d));
    }
    assert forall|l: u64, d: u64| #[trigger] after.trail_sound(l, d) by {
        assert(state.trail_sound(l, d));
    }
    assert forall|l: u64, d: u64, s: u64| #[trigger] after.entry_sound(l, d, s) by {
        assert(state.entry_sound(l, d, s));
    }
    assert forall|b: Seq<char>| #[trigger] after.borrower_sound(b) by {
        assert(state.borrower_sound(b));
        if b != borrower {
            assert(after.borrower_ids.get(b) == state.borrower_ids.get(b));
            if state.borrower_ids.get(b) is None {
                assert forall|id: u64|
                    (#[trigger] after.credit_lines.get(id)) matches Some(Entry::Value(line))
                        ==> line.borrower != b by {
                    if id != new_id {
                        assert(after.credit_lines.get(id) == state.credit_lines.get(id));
                    }
                }
            }
        }
    }
    assert forall|l: u64, d: u64| #[trigger] after.repayment_sound(l, d) by {
        assert(state.repayment_sound(l, d));
        lemma_same_trail(state, after, l, d);
    }
}

proof fn lemma_same_trail(state: Ledger, after: Ledger, l: u64, d: u64)
    requires
        forall|s: u64| #[trigger] after.audit.get((l, d, s)) == state.audit.get((l, d, s)),
    ensures
        (exists|s: u64| #[trigger] state.records_repayment(l, d, s)) <==> (exists|s: u64| #[trigger]
            after.records_repayment(l, d, s)),
{
    assert forall|s: u64|
        #![trigger state.records_repayment(l, d, s)]
        #![trigger after.records_repayment(l, d, s)]
        state.records_repayment(l, d, s) == after.records_repayment(l, d, s) by {
        assert(after.audit.get((l, d, s)) == state.audit.get((l, d, s)));
    }
}

/// A new draw receives an id that was not in use, is not repaid, has an audit trail of one entry,
/// and the records stay sound.
pub proof fn a_new_draw_is_sound(
    state: Ledger,
    env: Env,
    sender: Seq<char>,
    line_id: u64,
    amount: Seq<char>,
    denom: Seq<char>,
)
    requires
        state.records_sound(),
        state.create_draw(env, sender, line_id, amount, denom).reply is Ok,
        state.draw_count(line_id) < u64::MAX,
    ensures
        ({
            let after = state.create_draw(env, sender, line_id, amount, denom).ledger;
            let id = state.draw_count(line_id);
            &&& after.records_sound()
            &&& state.records_kept_in(after)
            &&& state.draws.get((line_id, id)) is None
            &&& after.draws.get((line_id, id)) matches Some(Entry::Value(draw)) && !draw.repaid
            &&& after.draw_count(line_id) == id + 1
            &&& after.audit_len(line_id, id) == 1
        }),
{
    let after = state.create_draw(env, sender, line_id, amount, denom).ledger;
    let id = state.draw_count(line_id);
    assert(state.line_sound(line_id));
    assert(state.draw_count_sound(line_id));
    assert(state.draw_sound(line_id, id));
    assert(state.trail_sound(line_id, id));
    assert forall|s: u64| (#[trigger] state.audit.get((line_id, id, s))) is None by {
        assert(state.entry_sound(line_id, id, s));
    }
    assert forall|l: u64| #[trigger] after.line_sound(l) by {
        assert(state.line_sound(l));
    }
    assert forall|l: u64| #[trigger] after.draw_count_sound(l) by {
        assert(state.draw_count_sound(l));
    }
    assert forall|l: u64, d: u64| #[trigger] after.draw_sound(l, d) by {
        assert(state.draw_sound(l, d));
    }
    assert forall|l: u64, d: u64| #[trigger] after.trail_sound(l, d) by {
        assert(state.trail_sound(l, d));
    }
    assert forall|l: u64, d: u64, s: u64| #[trigger] after.entry_sound(l, d, s) by {
        assert(state.entry_sound(l, d, s));
    }
    assert forall|b: Seq<char>| #[trigger] after.borrower_sound(b) by {
        assert(state.borrower_sound(b));
    }
    assert forall|l: u64, d: u64| #[trigger] after.repayment_sound(l, d) by {
        assert(state.repayment_sound(l, d));
        if (l, d) == (line_id, id) {
            assert forall|s: u64| !#[trigger] after.records_repayment(l, d, s) by {
                if s != 0 {
                    assert(after.audit.get((l, d, s)) == state.audit.get((l, d, s)));
                }
            }
        } else {
            lemma_same_trail(state, after, l, d);
        }
    }
    assert forall|l: u64, d: u64, s: u64| state.audit.get((l, d, s)) is Some implies
        #[trigger] after.audit.get((l, d, s)) == state.audit.get((l, d, s)) by {
        assert(state.entry_sound(l, d, s));
    }
}

/// Marks a draw as repaid or not, and adds an entry to its audit trail.
spec fn noted(
    state: Ledger,
    env: Env,
    sender: Seq<char>,
    line_id: u64,
    draw_id: u64,
    action: DrawAction,
    memo: Seq<char>,
    draw: DrawView,
) -> Ledger {
    (Ledger {
        draws: state.draws.insert((line_id, draw_id), Entry::Value(draw)),
        ..state
    }).append_audit(env, sender, line_id, draw_id, action, memo).ledger
}

proof fn lemma_noted(
    state: Ledger,
    env: Env,
    sender: Seq<char>,
    line_id: u64,
    draw_id: u64,
    action: DrawAction,
    memo: Seq<char>,
)
    requires
        state.records_sound(),
        state.draws.get((line_id, draw_id)) is Some,
        state.audit_len(line_id, draw_id) < u64::MAX,
        action != DrawAction::DrawCreated,
    ensures
        ({
            let old_draw = state.draws[(line_id, draw_id)]->Value_0;
            let new_draw = if action == DrawAction::Repaid {
                DrawView { repaid: true, ..old_draw }
            } else {
                old_draw
            };
            let after = noted(state, env, sender, line_id, draw_id, action, memo, new_draw);
            &&& after.records_sound()
            &&& state.records_kept_in(after)
            &&& after.audit_len(line_id, draw_id) == state.audit_len(line_id, draw_id) + 1
        }),
{
    let old_draw = state.draws[(line_id, draw_id)]->Value_0;
    let new_draw = if action == DrawAction::Repaid {
        DrawView { repaid: true, ..old_draw }
    } else {
        old_draw
    };
    let after = noted(state, env, sender, line_id, draw_id, action, memo, new_draw);
    let seq = state.audit_len(line_id, draw_id);
    assert(state.draw_sound(line_id, draw_id));
    assert(state.trail_sound(line_id, draw_id));
    assert(state.entry_sound(line_id, draw_id, seq));
    assert forall|l: u64| #[trigger] after.line_sound(l) by {
        assert(state.line_sound(l));
    }
    assert forall|l: u64| #[trigger] after.draw_count_sound(l) by {
        assert(state.draw_count_sound(l));
    }
    assert forall|l: u64, d: u64| #[trigger] after.draw_sound(l, d) by {
        assert(state.draw_sound(l, d));
    }
    assert forall|l: u64, d: u64| #[trigger] after.trail_sound(l, d) by {
        assert(state.trail_sound(l, d));
    }
    assert forall|l: u64, d: u64, s: u64| #[trigger] after.entry_sound(l, d, s) by {
        assert(state.entry_sound(l, d, s));
    }
    assert forall|b: Seq<char>| #[trigger] after.borrower_sound(b) by {
        assert(state.borrower_sound(b));
    }
    assert forall|l: u64, d: u64| #[trigger] after.repayment_sound(l, d) by {
        assert(state.repayment_sound(l, d));
        if (l, d) == (line_id, draw_id) {
            if action == DrawAction::Repaid {
                assert(after.records_repayment(l, d, seq));
            } else {
                assert forall|s: u64|
                    #![trigger state.records_repayment(l, d, s)]
                    #![trigger after.records_repayment(l, d, s)]
                    state.records_repayment(l, d, s) == after.records_repayment(l, d, s) by {
                    if s != seq {
                        assert(after.audit.get((l, d, s)) == state.audit.get((l, d, s)));
                    }
                }
            }
        } else {
            lemma_same_trail(state, after, l, d);
        }
    }
}

/// Whether the audit trail of a draw has exactly the entries below `count`, each numbered by its
/// place.
pub open spec fn gapless(state: Ledger, line_id: u64, draw_id: u64, count: int) -> bool {
    &&& forall|seq: u64|
        (#[trigger] state.audit.get((line_id, draw_id, seq))) is Some <==> seq < count
    &&& forall|seq: u64|
        seq < count ==> ((#[trigger] state.audit.get((line_id, draw_id, seq))) matches Some(
            Entry::Value(entry),
        ) && entry.seq == seq)
}

/// Appending to an audit trail without gaps succeeds and leaves one without gaps, longer by the
/// one entry. The entries before it stay as they are, and so does everything else.
pub proof fn an_appended_entry_extends_the_trail(
    state: Ledger,
    env: Env,
    sender: Seq<char>,
    line_id: u64,
    draw_id: u64,
    action: DrawAction,
    memo: Seq<char>,
)
    requires
        !(state.audit_counts.get((line_id, draw_id)) matches Some(Entry::Malformed(_))),
        state.audit_len(line_id, draw_id) < u64::MAX,
        gapless(state, line_id, draw_id, state.audit_len(line_id, draw_id) as int),
    ensures
        ({
            let step = state.append_audit(env, sender, line_id, draw_id, action, memo);
            let count = state.audit_len(line_id, draw_id);
            &&& step.reply is Ok
            &&& step.ledger.audit_len(line_id, draw_id) == count + 1
            &&& gapless(step.ledger, line_id, draw_id, count + 1)
            &&& step.ledger.audit.get((line_id, draw_id, count)) == Some(
                Entry::Value(
                    DrawAuditEntryView {
                        seq: count,
                        draw_id,
                        credit_line_id: line_id,
                        action,
                        timestamp: env.block.time,
                        block_height: env.block.height,
                        by: sender,
                        memo,
                    },
                ),
            )
            &&& forall|l: u64, d: u64, s: u64|
                (l, d, s) != (line_id, draw_id, count) ==> #[trigger] step.ledger.audit.get(
                    (l, d, s),
                ) == state.audit.get((l, d, s))
            &&& forall|l: u64, d: u64|
                (l, d) != (line_id, draw_id) ==> #[trigger] step.ledger.audit_counts.get((l, d))
                    == state.audit_counts.get((l, d))
            &&& step.ledger == Ledger {
                audit: step.ledger.audit,
                audit_counts: step.ledger.audit_counts,
                ..state
            }
        }),
{
    let after = state.append_audit(env, sender, line_id, draw_id, action, memo).ledger;
    let count = state.audit_len(line_id, draw_id);
    assert forall|seq: u64| (#[trigger] after.audit.get((line_id, draw_id, seq))) is Some
        <==> seq < count + 1 by {
        assert(state.audit.get((line_id, draw_id, seq)) is Some <==> seq < count);
    }
    assert forall|seq: u64| seq < count + 1 implies ((#[trigger] after.audit.get(
        (line_id, draw_id, seq),
    )) matches Some(Entry::Value(entry)) && entry.seq == seq) by {
        if seq < count {
            assert(state.audit.get((line_id, draw_id, seq)) matches Some(Entry::Value(entry))
                && entry.seq == seq);
        }
    }
}

/// A memo adds one entry to the audit trail of its draw and changes nothing else; the records stay
/// sound.
pub proof fn a_memo_extends_the_trail(
    state: Ledger,
    env: Env,
    sender: Seq<char>,
    line_id: u64,
    draw_id: u64,
    memo: Seq<char>,
)
    requires
        state.records_sound(),
        state.add_audit_memo(env, sender, line_id, draw_id, memo).reply is Ok,
        state.audit_len(line_id, draw_id) < u64::MAX,
    ensures
        ({
            let after = state.add_audit_memo(env, sender, line_id, draw_id, memo).ledger;
            &&& after.records_sound()
            &&& state.records_kept_in(after)
            &&& after == Ledger { audit: after.audit, audit_counts: after.audit_counts, ..state }
            &&& after.audit_len(line_id, draw_id) == state.audit_len(line_id, draw_id) + 1
        }),
{
    let after = state.add_audit_memo(env, sender, line_id, draw_id, memo).ledger;
    let draw = state.draws[(line_id, draw_id)]->Value_0;
    lemma_noted(state, env, sender, line_id, draw_id, DrawAction::MemoAdded, memo);
    assert(state.draws.insert((line_id, draw_id), Entry::Value(draw)) =~= state.draws);
    assert((Ledger {
        draws: state.draws.insert((line_id, draw_id), Entry::Value(draw)),
        ..state
    }) =~= state);
}

/// A repayment marks its draw as repaid, adds one entry to its audit trail, credits exactly the
/// protocol fee to the pools of its market, and changes nothing else; the records stay sound.
pub proof fn a_repayment_marks_the_draw(
    state: Ledger,
    env: Env,
    sender: Seq<char>,
    line_id: u64,
    draw_id: u64,
)
    requires
        state.records_sound(),
        state.repay_draw(env, sender, line_id, draw_id).reply is Ok,
        state.fee_fits(sender, line_id, draw_id),
        state.audit_len(line_id, draw_id) < u64::MAX,
    ensures
        ({
            let after = state.repay_draw(env, sender, line_id, draw_id).ledger;
            let draw = state.draws[(line_id, draw_id)]->Value_0;
            let fee = state.fee_on(draw.amount);
            &&& after.records_sound()
            &&& state.records_kept_in(after)
            &&& after.draws == state.draws.insert(
                (line_id, draw_id),
                Entry::Value(DrawView { repaid: true, ..draw }),
            )
            &&& after.audit_len(line_id, draw_id) == state.audit_len(line_id, draw_id) + 1
            &&& after.treasury_of(draw.denom) + after.bounty_of(draw.denom) == state.treasury_of(
                draw.denom,
            ) + state.bounty_of(draw.denom) + fee
            &&& fee > 0 ==> split(fee as u128, state.treasury_share(draw.denom)) is Ok
            &&& forall|other: Seq<char>|
                other != draw.denom ==> #[trigger] after.treasury.get(other) == state.treasury.get(
                    other,
                )
            &&& forall|other: Seq<char>|
                other != draw.denom ==> #[trigger] after.bounty.get(other) == state.bounty.get(
                    other,
                )
            &&& after == Ledger {
                draws: after.draws,
                audit: after.audit,
                audit_counts: after.audit_counts,
                treasury: after.treasury,
                bounty: after.bounty,
                ..state
            }
        }),
{
    let draw = state.draws[(line_id, draw_id)]->Value_0;
    let fee = state.fee_on(draw.amount) as u128;
    assert(state.draw_sound(line_id, draw_id));
    assert(0 <= draw.amount * value_or(state.protocol_fee, 0)) by (nonlinear_arith)
        requires
            0 <= draw.amount,
            0 <= value_or(state.protocol_fee, 0),
    ;
    an_accrual_credits_the_fee(state, draw.denom, fee);
    let accrued = state.accrue(draw.denom, fee).ledger;
    records_decide_their_soundness(state, accrued);
    lemma_noted(accrued, env, sender, line_id, draw_id, DrawAction::Repaid, Seq::empty());
}

/// Only the borrower of a credit line draws on it: anyone else is refused as unauthorized.
pub proof fn only_the_borrower_draws(
    state: Ledger,
    env: Env,
    sender: Seq<char>,
    line_id: u64,
    amount: Seq<char>,
    denom: Seq<char>,
)
    requires
        state.credit_lines.get(line_id) matches Some(Entry::Value(line)) && line.borrower != sender,
    ensures
        state.create_draw(env, sender, line_id, amount, denom).reply == Err::<Attributes, _>(
            ErrorView::Unauthorized,
        ),
        state.create_draw(env, sender, line_id, amount, denom).ledger == state,
{
}

/// Only who made a draw repays it: anyone else is refused as unauthorized.
pub proof fn only_the_drawer_repays(
    state: Ledger,
    env: Env,
    sender: Seq<char>,
    line_id: u64,
    draw_id: u64,
)
    requires
        state.draws.get((line_id, draw_id)) matches Some(Entry::Value(draw)) && draw.drawn_by
            != sender,
    ensures
        state.repay_draw(env, sender, line_id, draw_id).reply == Err::<Attributes, _>(
            ErrorView::Unauthorized,
        ),
        state.repay_draw(env, sender, line_id, draw_id).ledger == state,
{
}

} // verus!
