//! Batch envelope semantics, shared by the batch-style endpoints: zero
//! failures is success, anything else is a partial failure carrying both
//! counts.
use vstd::prelude::*;
use vstd::string::StringExecFns;
use crate::error::Error;
use crate::text::append_decimal;
use crate::text::spec_decimal;

verus! {

/// The message reported when a batch operation partially fails, carrying
/// both counts: `"<prefix> partially failed: <results> succeeded,
/// <failed> failed"`.
pub open spec fn spec_partial_failure_message(
    prefix: Seq<char>,
    results: u32,
    failed: u32,
) -> Seq<char> {
    prefix + " partially failed: "@ + spec_decimal(results as nat) + " succeeded, "@
        + spec_decimal(failed as nat) + " failed"@
}

/// Interpret a batch response envelope `{results, failed}`: zero failures
/// is success whatever `results` holds (even zero); any failure is
/// reported as `UnexpectedResponse` carrying both counts.
pub fn interpret_batch_counts(prefix: &str, results: u32, failed: u32) -> (r: Result<(), Error>)
    ensures
        r is Ok <==> failed == 0,
        failed > 0 ==> (r matches Err(e) && e matches Error::UnexpectedResponse(m)
            && m@ == spec_partial_failure_message(prefix@, results, failed)),
{
    if failed > 0 {
        let mut m = prefix.to_owned();
        m.append(" partially failed: ");
        append_decimal(&mut m, results);
        m.append(" succeeded, ");
        append_decimal(&mut m, failed);
        m.append(" failed");
        assert(m@ =~= spec_partial_failure_message(prefix@, results, failed));
        Err(Error::UnexpectedResponse(m))
    } else {
        Ok(())
    }
}

} // verus!
