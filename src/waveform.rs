use vstd::prelude::*;

verus! {

/// Samples are scaled by the largest positive 16-bit value, so the most
/// negative sample maps slightly below -1.
pub const FULL_SCALE: i16 = 32767;

/// A sample that failed to decode becomes silence; the others are kept.
pub fn samples_or_silence(raw: &Vec<Option<i16>>) -> (r: Vec<i16>)
    ensures
        r.len() == raw.len(),
        forall|i: int|
            0 <= i < raw.len() ==> #[trigger] r@[i] == match raw@[i] {
                Some(v) => v,
                None => 0i16,
            },
{
    let mut r: Vec<i16> = Vec::new();
    let mut i: usize = 0;
    while i < raw.len()
        invariant
            i <= raw.len(),
            r.len() == i,
            forall|j: int|
                0 <= j < i ==> #[trigger] r@[j] == match raw@[j] {
                    Some(v) => v,
                    None => 0i16,
                },
        decreases raw.len() - i,
    {
        let s: i16 = match raw[i] {
            Some(v) => v,
            None => 0,
        };
        r.push(s);
        i = i + 1;
    }
    r
}

} // verus!
