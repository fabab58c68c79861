use vstd::prelude::*;

verus! {

/// Relies on `String::push_str`, which appends `other` to `s`.
pub assume_specification[ String::push_str ](s: &mut String, other: &str)
    ensures
        final(s)@ == old(s)@ + other@,
;

/// The views of a sequence of strings.
pub open spec fn views_of(v: Seq<String>) -> Seq<Seq<char>> {
    v.map_values(|s: String| s@)
}

/// The view of an optional string.
pub open spec fn opt_view(o: Option<String>) -> Option<Seq<char>> {
    match o {
        Some(s) => Some(s@),
        None => None,
    }
}

/// Concatenates `parts` in order.
pub fn concat_all(parts: &Vec<String>) -> (r: String)
    ensures
        r@ == views_of(parts@).flatten(),
{
    let mut out = String::new();
    let mut i: usize = 0;
    while i < parts.len()
        invariant
            i <= parts.len(),
            out@ == views_of(parts@.take(i as int)).flatten(),
        decreases parts.len() - i,
    {
        proof {
            let pre = views_of(parts@.take(i as int));
            assert(views_of(parts@.take(i + 1)) =~= pre.push(parts@[i as int]@));
            pre.lemma_flatten_push(parts@[i as int]@);
        }
        out.push_str(parts[i].as_str());
        i = i + 1;
    }
    assert(parts@.take(i as int) =~= parts@);
    out
}

} // verus!
