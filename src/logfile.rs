use vstd::prelude::*;

verus! {

/// A log file is rotated before appending once it has reached the size bound.
pub fn needs_rotation(current_size: Option<u64>, max_bytes: u64) -> (r: bool)
    ensures
        r == match current_size {
            Some(n) => n >= max_bytes,
            None => false,
        },
{
    match current_size {
        Some(n) => n >= max_bytes,
        None => false,
    }
}

/// The renames of one rotation, in the order they are made, as pairs of
/// generation numbers (`0` is the live file, `k` the file with suffix `.k`):
/// the oldest kept generation moves up first, the live file last, so that at
/// most `max_files` generations remain.
pub fn rotation_moves(max_files: u32) -> (r: Vec<(u32, u32)>)
    ensures
        max_files == 0 ==> r@.len() == 0,
        max_files > 0 ==> r@.len() == max_files - 1,
        forall|k: int|
            0 <= k < r@.len() ==> (#[trigger] r@[k]) == ((max_files - 2 - k) as u32, (max_files
                - 1 - k) as u32),
{
    let mut r: Vec<(u32, u32)> = Vec::new();
    if max_files == 0 {
        return r;
    }
    let mut i: u32 = max_files - 1;
    while i >= 1
        invariant
            i < max_files,
            r@.len() == max_files - 1 - i,
            forall|k: int|
                0 <= k < r@.len() ==> (#[trigger] r@[k]) == ((max_files - 2 - k) as u32, (
                max_files - 1 - k) as u32),
        decreases i,
    {
        r.push((i - 1, i));
        i = i - 1;
    }
    r
}

} // verus!
