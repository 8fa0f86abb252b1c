use vstd::prelude::*;

verus! {

/// The text that `str::trim` leaves of `s`.
pub uninterp spec fn trimmed(s: Seq<char>) -> Seq<char>;

/// Each part followed by one space, in order.
pub open spec fn spaced(parts: Seq<Seq<char>>) -> Seq<char>
    decreases parts.len(),
{
    if parts.len() == 0 {
        Seq::empty()
    } else {
        spaced(parts.drop_last()) + parts.last() + seq![' ']
    }
}

pub open spec fn texts(v: Seq<String>) -> Seq<Seq<char>> {
    v.map_values(|s: String| s@)
}

/// The transcript of a run: empty when there are no segments, otherwise the
/// trimmed segments joined by single spaces, trimmed once more.
pub open spec fn transcript_of(segments: Seq<Seq<char>>) -> Seq<char> {
    if segments.len() == 0 {
        Seq::empty()
    } else {
        trimmed(spaced(segments.map_values(|s: Seq<char>| trimmed(s))))
    }
}

/// Relies on str::trim: leading and trailing whitespace removed; an empty
/// text stays empty.
#[verifier::external_body]
fn trim_text(s: &str) -> (r: String)
    ensures
        r@ == trimmed(s@),
        s@.len() == 0 ==> r@.len() == 0,
{
    s.trim().to_string()
}

/// Appends each part and one space after it, keeping the parts in order.
pub fn join_with_spaces(parts: &Vec<String>) -> (r: String)
    ensures
        r@ == spaced(texts(parts@)),
{
    let mut r = String::new();
    let mut i: usize = 0;
    while i < parts.len()
        invariant
            i <= parts.len(),
            r@ == spaced(texts(parts@).take(i as int)),
        decreases parts.len() - i,
    {
        proof {
            assert(texts(parts@).take(i + 1).drop_last() =~= texts(parts@).take(i as int));
        }
        r.append(parts[i].as_str());
        r.append(" ");
        proof {
            reveal_strlit(" ");
            assert(r@ =~= spaced(texts(parts@).take(i + 1)));
        }
        i = i + 1;
    }
    assert(texts(parts@).take(parts.len() as int) =~= texts(parts@));
    r
}

/// Reduces the segments of one run, in index order, to the final text.
/// No segments at all is a valid, empty outcome.
pub fn transcript_from_segments(segments: &Vec<String>) -> (r: String)
    ensures
        r@ == transcript_of(texts(segments@)),
        segments.len() == 0 ==> r@.len() == 0,
{
    if segments.len() == 0 {
        return String::new();
    }
    let mut parts: Vec<String> = Vec::new();
    let mut i: usize = 0;
    while i < segments.len()
        invariant
            i <= segments.len(),
            parts.len() == i,
            forall|j: int| 0 <= j < i ==> (#[trigger] parts@[j])@ == trimmed(segments@[j]@),
        decreases segments.len() - i,
    {
        let t = trim_text(segments[i].as_str());
        parts.push(t);
        i = i + 1;
    }
    let joined = join_with_spaces(&parts);
    assert(texts(parts@) =~= texts(segments@).map_values(|s: Seq<char>| trimmed(s)));
    trim_text(joined.as_str())
}

} // verus!
