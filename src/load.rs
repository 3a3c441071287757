use vstd::prelude::*;

verus! {

/// The divisor applied to the load average to get the CPU load: the number
/// of logical CPUs, taken as one when none is reported.
pub fn cpu_load_divisor(cpu_count: u32) -> (r: u32)
    ensures
        r == if cpu_count == 0 { 1 } else { cpu_count },
        r >= 1,
{
    if cpu_count == 0 {
        1
    } else {
        cpu_count
    }
}

} // verus!
