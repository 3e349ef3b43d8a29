use vstd::prelude::*;
use crate::device::ScannedDevice;

verus! {

/// `pat` occurs in `s` starting at position `i`.
pub open spec fn matches_at(s: Seq<char>, pat: Seq<char>, i: int) -> bool {
    &&& 0 <= i
    &&& i + pat.len() <= s.len()
    &&& s.subrange(i, i + pat.len()) == pat
}

/// `pat` occurs somewhere in `s` (substring, not prefix or whole-word).
pub open spec fn has_substring(s: Seq<char>, pat: Seq<char>) -> bool {
    exists|i: int| matches_at(s, pat, i)
}

/// Whether `pat` occurs in `s` starting exactly at position `i`.
fn match_at(s: &str, pat: &str, i: usize) -> (r: bool)
    requires
        i + pat@.len() <= s@.len(),
    ensures
        r == matches_at(s@, pat@, i as int),
{
    let n = s.unicode_len();
    let m = pat.unicode_len();
    let mut j: usize = 0;
    while j < m
        invariant
            j <= m,
            n == s@.len(),
            m == pat@.len(),
            i + m <= n,
            forall|k: int| 0 <= k < j ==> s@[i + k] == pat@[k],
        decreases m - j,
    {
        if s.get_char(i + j) != pat.get_char(j) {
            assert(!matches_at(s@, pat@, i as int)) by {
                if matches_at(s@, pat@, i as int) {
                    assert(s@.subrange(i as int, i + pat@.len())[j as int] == pat@[j as int]);
                }
            }
            return false;
        }
        j += 1;
    }
    assert(s@.subrange(i as int, i + pat@.len()) =~= pat@);
    true
}

/// Case-sensitive substring search, e.g. whether an advertised name carries
/// a product-family marker.
pub fn contains_substring(s: &str, pat: &str) -> (r: bool)
    ensures
        r == has_substring(s@, pat@),
{
    let n = s.unicode_len();
    let m = pat.unicode_len();
    if m == 0 {
        assert(matches_at(s@, pat@, 0)) by {
            assert(s@.subrange(0, 0) =~= pat@);
        }
        return true;
    }
    if m > n {
        assert(!has_substring(s@, pat@)) by {
            if has_substring(s@, pat@) {
                let i = choose|i: int| matches_at(s@, pat@, i);
            }
        }
        return false;
    }
    let mut i: usize = 0;
    while i <= n - m
        invariant
            1 <= m <= n,
            n == s@.len(),
            m == pat@.len(),
            i <= n - m + 1,
            forall|k: int| 0 <= k < i ==> !matches_at(s@, pat@, k),
        decreases n - m + 1 - i,
    {
        if match_at(s, pat, i) {
            return true;
        }
        i += 1;
    }
    assert(!has_substring(s@, pat@)) by {
        if has_substring(s@, pat@) {
            let k = choose|k: int| matches_at(s@, pat@, k);
            assert(k < i);
        }
    }
    false
}

/// The fixed, case-sensitive markers that identify the target product
/// family in an advertised name.
pub open spec fn family_name(name: Seq<char>) -> bool {
    ||| has_substring(name, "GAN"@)
    ||| has_substring(name, "MG"@)
    ||| has_substring(name, "AiCube"@)
}

/// Membership rule: the advertised name is present and contains at least one
/// family marker. Observations without a name never qualify; there is no
/// fallback matching on address or service data.
pub open spec fn qualifies(d: ScannedDevice) -> bool {
    d.name is Some && family_name(d.name->Some_0@)
}

/// What the classifier returns on a whole observation sequence: exactly the
/// qualifying entries, in their original relative order, each unchanged.
pub open spec fn classified(s: Seq<ScannedDevice>) -> Seq<ScannedDevice> {
    s.filter(|d: ScannedDevice| qualifies(d))
}

/// Decide membership of one observation in the target product family.
///
/// Substring match, not exact or whole-word match, and deliberately simple:
/// a name such as "ORGANIZER" also qualifies because it contains "GAN".
/// That overmatching is a known, documented limitation of the heuristic.
pub fn device_qualifies(d: &ScannedDevice) -> (r: bool)
    ensures
        r == qualifies(*d),
{
    match &d.name {
        Some(n) => contains_substring(n.as_str(), "GAN") || contains_substring(
            n.as_str(),
            "MG",
        ) || contains_substring(n.as_str(), "AiCube"),
        None => false,
    }
}

/// One step of the classifier: extending the processed prefix by one
/// observation keeps the result when the observation does not qualify and
/// appends it when it does.
proof fn lemma_classified_step(s: Seq<ScannedDevice>, k: int)
    requires
        0 <= k < s.len(),
    ensures
        classified(s.take(k + 1)) == if qualifies(s[k]) {
            classified(s.take(k)).push(s[k])
        } else {
            classified(s.take(k))
        },
{
    reveal(Seq::filter);
    let t = s.take(k + 1);
    assert(t.drop_last() =~= s.take(k));
    assert(t.last() == s[k]);
}

/// Apply the identity heuristics to every observation and keep the
/// survivors: a pure filter with no failure mode, no deduplication and no
/// re-sorting by signal strength.
pub fn classify(devices: Vec<ScannedDevice>) -> (r: Vec<ScannedDevice>)
    ensures
        r@ == classified(devices@),
{
    let ghost orig: Seq<ScannedDevice> = devices@;
    let mut rest = devices;
    let mut out: Vec<ScannedDevice> = Vec::new();
    while rest.len() > 0
        invariant
            rest@.len() <= orig.len(),
            rest@ == orig.skip(orig.len() - rest@.len()),
            out@ == classified(orig.take(orig.len() - rest@.len())),
        decreases rest@.len(),
    {
        let ghost k: int = orig.len() - rest@.len();
        let d = rest.remove(0);
        proof {
            assert(d == orig[k]);
            assert(rest@ =~= orig.skip(k + 1));
            lemma_classified_step(orig, k);
        }
        if device_qualifies(&d) {
            out.push(d);
        }
    }
    proof {
        assert(orig.take(orig.len() - rest@.len()) =~= orig);
    }
    out
}

/// `a` occurs inside `b` as a (not necessarily contiguous) subsequence:
/// every entry of `a` is an entry of `b`, in the same relative order.
pub open spec fn is_subsequence_of(a: Seq<ScannedDevice>, b: Seq<ScannedDevice>) -> bool
    decreases b.len(),
{
    if a.len() == 0 {
        true
    } else if b.len() == 0 {
        false
    } else if a.last() == b.last() {
        is_subsequence_of(a.drop_last(), b.drop_last())
    } else {
        is_subsequence_of(a, b.drop_last())
    }
}

/// Law: the classifier fabricates no entry and preserves relative order —
/// its output is a subsequence of its input.
pub proof fn lemma_classify_subsequence(devs: Seq<ScannedDevice>)
    ensures
        is_subsequence_of(classified(devs), devs),
    decreases devs.len(),
{
    reveal(Seq::filter);
    broadcast use vstd::seq_lib::group_filter_ensures;

    if devs.len() > 0 {
        let rest = devs.drop_last();
        lemma_classify_subsequence(rest);
        let c = classified(devs);
        let cr = classified(rest);
        if qualifies(devs.last()) {
            assert(c == cr.push(devs.last()));
            assert(c.drop_last() =~= cr);
        } else {
            assert(c == cr);
            if c.len() > 0 {
                assert(qualifies(c[c.len() - 1]));
                assert(c.last() != devs.last());
            }
        }
    }
}

/// Law: an observation stands in the classifier's output exactly when it
/// stands in the input and qualifies. In particular nothing is fabricated,
/// nameless observations never appear, every observation whose name carries
/// a family marker survives, and every other observation is excluded.
pub proof fn lemma_classify_membership(devs: Seq<ScannedDevice>, d: ScannedDevice)
    ensures
        classified(devs).contains(d) <==> devs.contains(d) && qualifies(d),
    decreases devs.len(),
{
    reveal(Seq::filter);
    broadcast use vstd::seq_lib::group_filter_ensures;

    let c = classified(devs);
    if devs.contains(d) && qualifies(d) {
        let i = choose|i: int| 0 <= i < devs.len() && devs[i] == d;
        assert(c.contains(devs[i]));
    }
    if c.contains(d) {
        let i = choose|i: int| 0 <= i < c.len() && c[i] == d;
        assert(qualifies(c[i]));
        if devs.len() > 0 {
            let rest = devs.drop_last();
            lemma_classify_membership(rest, d);
            let cr = classified(rest);
            if qualifies(devs.last()) {
                assert(c == cr.push(devs.last()));
                if i < c.len() - 1 {
                    assert(cr[i] == d);
                    assert(cr.contains(d));
                } else {
                    assert(d == devs.last());
                    assert(devs[devs.len() - 1] == d);
                }
            } else {
                assert(c == cr);
            }
            if rest.contains(d) {
                let j = choose|j: int| 0 <= j < rest.len() && rest[j] == d;
                assert(devs[j] == d);
            }
        }
    }
}

/// Law: every observation the classifier keeps has an advertised name;
/// observations with an absent name never appear in the output.
pub proof fn lemma_classified_have_names(devs: Seq<ScannedDevice>)
    ensures
        forall|i: int|
            0 <= i < classified(devs).len() ==> (#[trigger] classified(devs)[i]).name is Some,
{
    broadcast use vstd::seq_lib::group_filter_ensures;

    assert forall|i: int|
        0 <= i < classified(devs).len() implies (#[trigger] classified(devs)[i]).name is Some by {
        assert(qualifies(classified(devs)[i]));
    }
}

/// A sequence whose entries all qualify passes the classifier unchanged.
proof fn lemma_classified_fixed_point(s: Seq<ScannedDevice>)
    requires
        forall|i: int| 0 <= i < s.len() ==> qualifies(#[trigger] s[i]),
    ensures
        classified(s) == s,
    decreases s.len(),
{
    reveal(Seq::filter);
    if s.len() == 0 {
        assert(classified(s) =~= s);
    } else {
        let rest = s.drop_last();
        assert(forall|i: int| 0 <= i < rest.len() ==> qualifies(#[trigger] rest[i]));
        lemma_classified_fixed_point(rest);
        assert(qualifies(s[s.len() - 1]));
        assert(classified(s) =~= s);
    }
}

/// Law: classification is idempotent — running it twice over the same
/// input yields the same output as running it once. It is a pure function
/// of its input, with no hidden state.
pub proof fn lemma_classify_idempotent(devs: Seq<ScannedDevice>)
    ensures
        classified(classified(devs)) == classified(devs),
{
    broadcast use vstd::seq_lib::group_filter_ensures;

    let c = classified(devs);
    assert forall|i: int| 0 <= i < c.len() implies qualifies(#[trigger] c[i]) by {
        assert(qualifies(classified(devs)[i]));
    }
    lemma_classified_fixed_point(c);
}

} // verus!
