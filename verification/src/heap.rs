//! The line that reports how full the heap is.
use crate::text::append_decimal;
#[allow(unused_imports)]
use crate::text::decimal;
use vstd::prelude::*;

verus! {

/// The report on a heap with `used` and `free` bytes.
pub open spec fn heap_report(context: Seq<char>, used: nat, free: nat) -> Seq<char> {
    "[HEAP STATS] "@ + context + ": Used: "@ + decimal(used) + " bytes, Free: "@ + decimal(free)
        + " bytes, Total: "@ + decimal(used + free) + " bytes"@
}

/// The line that reports the heap: bytes used, bytes free, and their total.
pub fn report_heap_stats(context: &str, used: usize, free: usize) -> (line: String)
    requires
        used + free <= usize::MAX,
    ensures
        line@ == heap_report(context@, used as nat, free as nat),
{
    let mut line: String = String::new();
    line.append("[HEAP STATS] ");
    line.append(context);
    line.append(": Used: ");
    append_decimal(&mut line, used);
    line.append(" bytes, Free: ");
    append_decimal(&mut line, free);
    line.append(" bytes, Total: ");
    append_decimal(&mut line, used + free);
    line.append(" bytes");
    assert(line@ =~= heap_report(context@, used as nat, free as nat));
    line
}

/// The report reads: the context, the bytes used, the bytes free, and their sum.
pub proof fn law_heap_report_adds_up(context: Seq<char>, used: nat, free: nat, total: nat)
    requires
        total == used + free,
    ensures
        heap_report(context, used, free) == "[HEAP STATS] "@ + context + ": Used: "@ + decimal(used)
            + " bytes, Free: "@ + decimal(free) + " bytes, Total: "@ + decimal(total)
            + " bytes"@,
{
}

} // verus!
