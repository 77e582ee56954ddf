//! What queries answer, for every state.
use vstd::prelude::*;

use crate::contract::QueryAnswerView;
use crate::error::{ErrorView, StdFailureView};
use crate::laws::tokens::is_weight;
use crate::ledger::{Entry, Ledger, Refusals};
use crate::msg::{LateFeeConfigResponse, OraclePriceResponse, OracleQuorumConfigResponse, QueryMsg};
use crate::penalties::LateFeeConfig;

verus! {

/// The oracle quorum that is reported is the stored one.
pub proof fn the_oracle_quorum_is_reported_as_stored(state: Ledger, refusals: Refusals)
    ensures
        ({
            let answer = state.query(refusals, QueryMsg::GetOracleQuorumConfig {  });
            match state.oracle_quorum {
                None => answer == Ok::<_, ErrorView>(
                    QueryAnswerView::OracleQuorumConfig(
                        OracleQuorumConfigResponse { config: None },
                    ),
                ),
                Some(Entry::Value(config)) => answer == Ok::<_, ErrorView>(
                    QueryAnswerView::OracleQuorumConfig(
                        OracleQuorumConfigResponse { config: Some(config) },
                    ),
                ),
                Some(Entry::Malformed(e)) => answer == Err::<QueryAnswerView, _>(
                    ErrorView::Std(StdFailureView::Backend(e)),
                ),
            }
        }),
{
}

/// The price that is reported is the stored one, with its time.
pub proof fn the_oracle_price_is_reported_as_stored(state: Ledger, refusals: Refusals)
    ensures
        ({
            let answer = state.query(refusals, QueryMsg::GetOraclePrice {  });
            match state.oracle_price {
                None => answer == Ok::<_, ErrorView>(
                    QueryAnswerView::OraclePrice(
                        OraclePriceResponse { price: None, timestamp: None },
                    ),
                ),
                Some(Entry::Value(record)) => answer == Ok::<_, ErrorView>(
                    QueryAnswerView::OraclePrice(
                        OraclePriceResponse {
                            price: Some(record.price),
                            timestamp: Some(record.timestamp),
                        },
                    ),
                ),
                Some(Entry::Malformed(e)) => answer == Err::<QueryAnswerView, _>(
                    ErrorView::Std(StdFailureView::Backend(e)),
                ),
            }
        }),
{
}

/// The late fee that is reported is the stored one: a flat amount or a surcharge.
pub proof fn the_late_fee_is_reported_as_stored(state: Ledger, refusals: Refusals)
    ensures
        ({
            let answer = state.query(refusals, QueryMsg::GetLateFeeConfig {  });
            match state.late_fee {
                None => answer == Ok::<_, ErrorView>(
                    QueryAnswerView::LateFeeConfig(LateFeeConfigResponse { config: None }),
                ),
                Some(Entry::Value(Ok(amount))) => answer matches Ok(
                    QueryAnswerView::LateFeeConfig(resp),
                ) && resp.config matches Some(LateFeeConfig::Flat(flat)) && flat.amount == amount,
                Some(Entry::Value(Err(bps))) => answer matches Ok(
                    QueryAnswerView::LateFeeConfig(resp),
                ) && resp.config matches Some(LateFeeConfig::AprBased(apr)) && apr.surcharge_bps
                    == bps,
                Some(Entry::Malformed(e)) => answer == Err::<QueryAnswerView, _>(
                    ErrorView::Std(StdFailureView::Backend(e)),
                ),
            }
        }),
{
}

/// The allowlist that is reported is the stored one, empty where there is none that decodes.
pub proof fn the_allowlist_is_reported_as_stored(state: Ledger, refusals: Refusals)
    ensures
        state.query(refusals, QueryMsg::GetCollateralAllowlist {  }) matches Ok(
            QueryAnswerView::CollateralAllowlist(denoms),
        ) && match state.allowlist {
            Some(Entry::Value(list)) => denoms == list,
            _ => denoms.len() == 0,
        },
{
}

/// The collateral of a borrower is reported exactly if the chain accepts the borrower and the
/// risk-weighted total does not overflow. The total is that of all tokens. For all tokens, there
/// is one entry for each holding, in the order of the holdings, with its balance and its weight;
/// for one token, there is an entry exactly if its balance is above zero.
pub proof fn collateral_is_reported_as_held(
    state: Ledger,
    refusals: Refusals,
    borrower: Seq<char>,
    denom: Option<Seq<char>>,
)
    ensures
        ({
            let answer = state.collateral_report(refusals, borrower, denom);
            let total = state.weighted_total(borrower);
            let held = state.holdings(borrower);
            &&& refusals.contains_key(borrower) ==> (answer matches Err(e) && e == ErrorView::Std(
                StdFailureView::Backend(refusals[borrower]),
            ))
            &&& !refusals.contains_key(borrower) ==> (total matches Err(fault)
                ==> answer matches Err(e) && e == fault)
            &&& answer is Ok <==> !refusals.contains_key(borrower) && total is Ok
            &&& answer matches Ok(report) ==> {
                &&& report.borrower == borrower
                &&& total == Ok::<u128, ErrorView>(report.weighted_total)
                &&& match denom {
                    None => {
                        &&& report.entries.len() == held.len()
                        &&& forall|i: int|
                            0 <= i < held.len() ==> {
                                let entry = #[trigger] report.entries[i];
                                &&& entry.0 == held[i].0
                                &&& entry.1 == held[i].1
                                &&& is_weight(state, held[i].0, entry.2)
                            }
                    },
                    Some(d) => match state.balances.get((borrower, d)) {
                        Some(Entry::Value(balance)) => if balance > 0 {
                            &&& report.entries.len() == 1
                            &&& report.entries[0].0 == d
                            &&& report.entries[0].1 == balance
                            &&& is_weight(state, d, report.entries[0].2)
                        } else {
                            report.entries.len() == 0
                        },
                        _ => report.entries.len() == 0,
                    },
                }
            }
        }),
{
}

/// A query about collateral is answered with the collateral of the borrower that it names, for the
/// token that it names or for all of them. Queries for reports are handed back as they are.
pub proof fn queries_are_about_what_they_name(state: Ledger, refusals: Refusals, msg: QueryMsg)
    ensures
        msg matches QueryMsg::GetCollateralBalance { borrower, denom } ==> {
            let asked = match denom {
                Some(d) => Some(d@),
                None => None,
            };
            match state.collateral_report(refusals, borrower@, asked) {
                Ok(report) => state.query(refusals, msg) == Ok::<_, ErrorView>(
                    QueryAnswerView::CollateralBalance(report),
                ),
                Err(e) => state.query(refusals, msg) == Err::<QueryAnswerView, _>(e),
            }
        },
        msg is DrawAuditTrail || msg is ProofOfReserve || msg is BorrowerHealthFactor
            ==> state.query(refusals, msg) == Ok::<_, ErrorView>(QueryAnswerView::Report(msg)),
{
}

} // verus!
