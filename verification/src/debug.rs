use vstd::prelude::*;
use vstd::string::StringExecFns;

verus! {

/// What is written for one failure of a chain: a heading before every
/// failure but the first one written, the failure's own text on a line, and,
/// where it carries a backtrace, a line with the backtrace, or an empty line
/// where the backtrace is empty.
pub open spec fn entry_text(failure: (String, Option<String>), first: bool) -> Seq<char> {
    let heading = if first {
        Seq::<char>::empty()
    } else {
        "  Which Caused the following issue:\n"@
    };
    let trace = match failure.1 {
        Some(backtrace) => if backtrace@.len() > 0 {
            " This happended at "@ + backtrace@ + "\n"@
        } else {
            "\n"@
        },
        None => Seq::<char>::empty(),
    };
    heading + failure.0@ + "\n"@ + trace
}

/// The text of the last `written` failures of a chain, the last one first.
pub open spec fn chain_text(chain: Seq<(String, Option<String>)>, written: int) -> Seq<char>
    decreases written,
{
    if written <= 0 {
        Seq::<char>::empty()
    } else {
        chain_text(chain, written - 1) + entry_text(chain[chain.len() - written], written == 1)
    }
}

/// Writes out a chain of failures, each with its text and its backtrace if
/// it has one. The chain is given from the outermost failure to its root
/// cause and written in reverse, root cause first.
pub fn failure_to_string(chain: &Vec<(String, Option<String>)>) -> (text: String)
    ensures
        text@ == chain_text(chain@, chain@.len() as int),
{
    let n: usize = chain.len();
    let mut result = String::new();
    let mut k: usize = 0;
    while k < n
        invariant
            n == chain@.len(),
            0 <= k <= n,
            result@ == chain_text(chain@, k as int),
        decreases n - k,
    {
        let ghost before = result@;
        let failure = &chain[n - 1 - k];
        if k > 0 {
            result.append("  Which Caused the following issue:\n");
        }
        result.append(failure.0.as_str());
        result.append("\n");
        match &failure.1 {
            Some(backtrace) => {
                if !backtrace.as_str().is_empty() {
                    result.append(" This happended at ");
                    result.append(backtrace.as_str());
                    result.append("\n");
                } else {
                    result.append("\n");
                }
            },
            None => {},
        }
        assert(result@ =~= before + entry_text(chain@[n - 1 - k], k == 0));
        k = k + 1;
    }
    result
}

} // verus!
