use vstd::prelude::*;

verus! {

/// The integer stored for a rule's enabled flag.
pub fn enabled_column(enabled: bool) -> (stored: i64)
    ensures
        stored == (if enabled {
            1i64
        } else {
            0i64
        }),
{
    if enabled {
        1
    } else {
        0
    }
}

/// The enabled flag read back from its stored integer: only 1 means enabled.
pub fn enabled_from_column(stored: i64) -> (enabled: bool)
    ensures
        enabled == (stored == 1),
{
    stored == 1
}

/// The position column of the rule at `index`.
pub fn rule_order_column(index: usize) -> (order: i64)
    requires
        index <= i64::MAX,
    ensures
        order == index,
{
    index as i64
}

/// Storing an enabled flag and reading it back gives the same flag.
pub proof fn law_enabled_flag_round_trips(enabled: bool)
    ensures
        (if enabled {
            1i64
        } else {
            0i64
        } == 1) == enabled,
{
}

} // verus!
