//! Where the programs write their log: beside their executable, under the
//! executable's name with `.log` in place of `.exe`.

use vstd::prelude::*;

verus! {

/// The UTF-16 units of `.log`.
pub open spec fn log_extension() -> Seq<u16> {
    seq![0x2Eu16, 0x6Cu16, 0x6Fu16, 0x67u16]
}

/// The log file path for a module path (UTF-16 units, as the process
/// reports it): the path without its last four units (the `.exe`), with
/// `.log` appended. A path shorter than that (an empty one is what a failed
/// query gives) has no log file, and the log goes nowhere.
pub fn default_log_path(exe_path: &[u16]) -> (log_path: Option<Vec<u16>>)
    ensures
        log_path is None <==> exe_path@.len() < 4,
        log_path is Some ==> log_path->0@ == exe_path@.take(exe_path@.len() - 4) + log_extension(),
{
    if exe_path.len() < 4 {
        return None;
    }
    let keep = exe_path.len() - 4;
    let mut out: Vec<u16> = Vec::new();
    let mut i: usize = 0;
    while i < keep
        invariant
            keep == exe_path@.len() - 4,
            i <= keep,
            out@ == exe_path@.take(i as int),
        decreases keep - i,
    {
        out.push(exe_path[i]);
        assert(exe_path@.take(i + 1) =~= exe_path@.take(i as int).push(exe_path@[i as int]));
        i = i + 1;
    }
    out.push(0x2E);
    out.push(0x6C);
    out.push(0x6F);
    out.push(0x67);
    assert(out@ =~= exe_path@.take(keep as int) + log_extension());
    Some(out)
}

} // verus!
