//! The tabular export of the provers: one header line and one line per prover.

use crate::ratio::Ratio;
use crate::text::{decimal, push_decimal, push_two_decimals, same_text, two_decimals};
use crate::types::ProverProfile;
use vstd::prelude::*;
use vstd::string::StringExecFns;

verus! {

/// The forms in which the marketplace can be exported.
#[derive(Clone, Copy, Debug, PartialEq, Eq, Structural)]
pub enum ExportFormat {
    /// The structured record of the whole ledger.
    Json,
    /// The table of provers.
    Csv,
}

impl ExportFormat {
    /// The format that `name` names, if it names one.
    pub open spec fn named(name: Seq<char>) -> Option<ExportFormat> {
        if name == "json"@ {
            Some(ExportFormat::Json)
        } else if name == "csv"@ {
            Some(ExportFormat::Csv)
        } else {
            None
        }
    }

    /// The format that `name` names: `"json"` or `"csv"`. Any other name is
    /// unsupported.
    pub fn parse(name: &str) -> (format: Option<ExportFormat>)
        ensures
            format == ExportFormat::named(name@),
    {
        if same_text(name, "json") {
            Some(ExportFormat::Json)
        } else if same_text(name, "csv") {
            Some(ExportFormat::Csv)
        } else {
            None
        }
    }
}

/// A ratio written as a percentage with two decimals: `1/3` is `33.33`.
pub open spec fn percent_text(r: Ratio) -> Seq<char> {
    two_decimals(r.percent_hundredths())
}

/// A ratio written as a number with two decimals: `5/2` is `2.50`.
pub open spec fn number_text(r: Ratio) -> Seq<char> {
    two_decimals(r.hundredths())
}

/// The first line of the table.
pub open spec fn csv_header() -> Seq<char> {
    "prover_id,name,reputation_score,total_proofs,successful_proofs,base_price\n"@
}

/// The line of the table for `prover`: its id, its name, its reputation as a
/// percentage with two decimals, its counts of proofs and of successful proofs,
/// and its base price.
pub open spec fn csv_row(prover: ProverProfile) -> Seq<char> {
    prover.id@ + ","@ + prover.name@ + ","@ + percent_text(prover.reputation_score) + ","@
        + decimal(prover.total_proofs as nat) + ","@ + decimal(prover.successful_proofs as nat)
        + ","@ + decimal(prover.pricing.base_price as nat) + "\n"@
}

/// The lines of the table for `provers`, in their order.
pub open spec fn csv_rows(provers: Seq<ProverProfile>) -> Seq<char>
    decreases provers.len(),
{
    if provers.len() == 0 {
        Seq::empty()
    } else {
        csv_rows(provers.drop_last()) + csv_row(provers.last())
    }
}

/// The table of `provers`.
pub open spec fn csv_table(provers: Seq<ProverProfile>) -> Seq<char> {
    csv_header() + csv_rows(provers)
}

/// Appends `r`, written as a percentage with two decimals, to `out`.
pub fn push_percent(out: &mut String, r: &Ratio)
    ensures
        final(out)@ == old(out)@ + percent_text(*r),
{
    push_two_decimals(out, r.to_percent_hundredths());
}

/// Appends `r`, written as a number with two decimals, to `out`.
pub fn push_number(out: &mut String, r: &Ratio)
    ensures
        final(out)@ == old(out)@ + number_text(*r),
{
    push_two_decimals(out, r.to_hundredths());
}

/// Appends the line of the table for `prover` to `out`.
pub fn push_csv_row(out: &mut String, prover: &ProverProfile)
    ensures
        final(out)@ == old(out)@ + csv_row(*prover),
{
    out.append(prover.id.as_str());
    out.append(",");
    out.append(prover.name.as_str());
    out.append(",");
    push_percent(out, &prover.reputation_score);
    out.append(",");
    push_decimal(out, prover.total_proofs as u128);
    out.append(",");
    push_decimal(out, prover.successful_proofs as u128);
    out.append(",");
    push_decimal(out, prover.pricing.base_price as u128);
    out.append("\n");
    assert(out@ =~= old(out)@ + csv_row(*prover));
}

/// The table of `provers` as text.
pub fn write_csv(provers: &Vec<ProverProfile>) -> (table: String)
    ensures
        table@ == csv_table(provers@),
{
    let mut out = String::from_str(
        "prover_id,name,reputation_score,total_proofs,successful_proofs,base_price\n",
    );
    let mut k: usize = 0;
    assert(out@ =~= csv_header() + csv_rows(provers@.take(0)));
    while k < provers.len()
        invariant
            k <= provers@.len(),
            out@ == csv_header() + csv_rows(provers@.take(k as int)),
        decreases provers@.len() - k,
    {
        proof {
            let next = provers@.take(k + 1);
            assert(next.drop_last() =~= provers@.take(k as int));
            assert(next.last() == provers@[k as int]);
        }
        push_csv_row(&mut out, &provers[k]);
        assert(out@ =~= csv_header() + csv_rows(provers@.take(k + 1)));
        k += 1;
    }
    assert(provers@.take(provers@.len() as int) =~= provers@);
    out
}

} // verus!
