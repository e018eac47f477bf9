use vstd::prelude::*;
use vstd::std_specs::cmp::PartialEqSpec;
use vstd::string::StrSliceExecFns;
use vstd::string::StringExecFns;

verus! {

/// Decides whether a file on disk counts as present and intact: the file must
/// exist, and when a non-zero expected size is given, its actual size must
/// match it exactly. A zero expected size means the size check is skipped.
///
/// The caller supplies what it observed on disk (`exists`, `actual_size`);
/// this function owns the decision.
pub fn file_matches_expectation(exists: bool, actual_size: u64, expected_size: u64) -> (r: bool)
    ensures
        r == (exists && (expected_size == 0 || actual_size == expected_size)),
{
    if !exists {
        false
    } else if expected_size != 0 {
        actual_size == expected_size
    } else {
        true
    }
}

/// The views of a list of strings.
pub open spec fn views_of(strings: Seq<String>) -> Seq<Seq<char>> {
    strings.map_values(|s: String| s@)
}

/// The given parts concatenated with the separator after each one — after
/// every one, the last included.
pub open spec fn joined_with(parts: Seq<Seq<char>>, sep: Seq<char>) -> Seq<char>
    decreases parts.len(),
{
    if parts.len() == 0 {
        Seq::empty()
    } else {
        joined_with(parts.drop_last(), sep) + parts.last() + sep
    }
}

/// A join of at least one part with a non-empty separator is never empty,
/// so such input always satisfies what `vec_to_string` asks of its caller.
pub proof fn lemma_joined_with_nonempty(parts: Seq<Seq<char>>, sep: Seq<char>)
    requires
        parts.len() > 0,
        sep.len() > 0,
    ensures
        joined_with(parts, sep).len() > 0,
{
}

/// Joins the strings with the separator after each one, then drops the very
/// last character of the result. With a one-character separator this yields
/// the usual separator-between join; with a longer one, all but its last
/// character remain after the final part.
///
/// The concatenation must be non-empty: there must be something to drop.
pub fn vec_to_string(vec: Vec<String>, separator: String) -> (r: String)
    requires
        joined_with(views_of(vec@), separator@).len() > 0,
    ensures
        r@ == joined_with(views_of(vec@), separator@).drop_last(),
{
    let ghost parts = views_of(vec@);
    let mut builder: String = String::new();
    let mut i: usize = 0;
    while i < vec.len()
        invariant
            i <= vec@.len(),
            parts == views_of(vec@),
            builder@ == joined_with(parts.subrange(0, i as int), separator@),
        decreases vec@.len() - i,
    {
        builder.append(vec[i].as_str());
        builder.append(separator.as_str());
        proof {
            let pre = parts.subrange(0, i as int);
            let cur = parts.subrange(0, i + 1);
            assert(cur.drop_last() =~= pre);
            assert(cur.last() == vec@[i as int]@);
        }
        i += 1;
    }
    proof {
        assert(parts.subrange(0, parts.len() as int) =~= parts);
    }
    let n: usize = builder.unicode_len();
    let r: String = builder.as_str().substring_char(0, n - 1).to_owned();
    proof {
        assert(r@ =~= joined_with(parts, separator@).drop_last());
    }
    r
}

/// Whether some element of `s` compares equal to `x`.
pub open spec fn has_equal_element<T: PartialEq>(s: Seq<T>, x: T) -> bool {
    exists|i: int| 0 <= i < s.len() && s[i].eq_spec(&x)
}

/// The left list extended, in order, by every element of the right list that
/// no element already present — original or previously appended — compares
/// equal to.
pub open spec fn extend_once_spec<T: PartialEq>(s1: Seq<T>, s2: Seq<T>) -> Seq<T>
    decreases s2.len(),
{
    if s2.len() == 0 {
        s1
    } else {
        let grown = if has_equal_element(s1, s2[0]) {
            s1
        } else {
            s1.push(s2[0])
        };
        extend_once_spec(grown, s2.drop_first())
    }
}

/// Whether some element of the vector compares equal to `x`.
fn vec_has_equal<T: PartialEq>(v: &Vec<T>, x: &T) -> (r: bool)
    ensures
        T::obeys_eq_spec() ==> r == has_equal_element(v@, *x),
{
    let mut j: usize = 0;
    while j < v.len()
        invariant
            j <= v@.len(),
            T::obeys_eq_spec() ==> forall|k: int| 0 <= k < j ==> !(#[trigger] v@[k].eq_spec(x)),
        decreases v@.len() - j,
    {
        if v[j].eq(x) {
            return true;
        }
        j += 1;
    }
    false
}

/// Concatenates two vectors without appending an element of the second that
/// is already present: each element of `vec2` is pushed only when nothing
/// equal to it stands in the result built so far. The first vector is kept
/// whole, as a prefix, duplicates and all.
///
/// The exact contract holds for element types whose `==` obeys its
/// specification; the prefix clause holds for every type.
pub fn extend_once<T: PartialEq>(vec1: Vec<T>, vec2: Vec<T>) -> (r: Vec<T>)
    ensures
        T::obeys_eq_spec() ==> r@ == extend_once_spec(vec1@, vec2@),
        vec1@.is_prefix_of(r@),
{
    let ghost g1 = vec1@;
    let ghost g2 = vec2@;
    let mut out = vec1;
    let mut rest = vec2;
    while rest.len() > 0
        invariant
            out@.len() >= g1.len(),
            out@.subrange(0, g1.len() as int) == g1,
            T::obeys_eq_spec() ==> extend_once_spec(g1, g2) == extend_once_spec(out@, rest@),
        decreases rest@.len(),
    {
        let ghost out_before = out@;
        let ghost rest_before = rest@;
        let x = rest.remove(0);
        proof {
            assert(rest@ =~= rest_before.drop_first());
        }
        let present = vec_has_equal(&out, &x);
        if !present {
            out.push(x);
            proof {
                assert(out@.subrange(0, g1.len() as int) =~= out_before.subrange(
                    0,
                    g1.len() as int,
                ));
            }
        }
    }
    proof {
        assert(out@.subrange(0, g1.len() as int) =~= g1);
    }
    out
}

} // verus!
