//! Case-insensitive skill sets: each skill name is compared through its
//! case-folded key, while the names handed back keep the casing of the first
//! occurrence on the side they come from.
use vstd::prelude::*;
use crate::text::{lower_of, lowercase};

verus! {

/// The case-folded key of each skill name, in order.
pub open spec fn keys_of(s: Seq<Seq<char>>) -> Seq<Seq<char>> {
    s.map_values(|x: Seq<char>| lower_of(x))
}

/// Some skill name of `s` has the key `k`.
pub open spec fn has_key(s: Seq<Seq<char>>, k: Seq<char>) -> bool {
    keys_of(s).contains(k)
}

/// The first skill name of each key in `s`, in order of first occurrence.
pub open spec fn canonical_form(s: Seq<Seq<char>>) -> Seq<Seq<char>>
    decreases s.len(),
{
    if s.len() == 0 {
        Seq::empty()
    } else {
        let p = canonical_form(s.drop_last());
        if has_key(s.drop_last(), lower_of(s.last())) {
            p
        } else {
            p.push(s.last())
        }
    }
}

/// The first entry of `s` for each key, where `ks[i]` is the key of `s[i]`,
/// in order of first occurrence.
pub open spec fn first_by_key(s: Seq<Seq<char>>, ks: Seq<Seq<char>>) -> Seq<Seq<char>>
    decreases s.len(),
{
    if s.len() == 0 {
        Seq::empty()
    } else {
        let p = first_by_key(s.drop_last(), ks.drop_last());
        if ks.drop_last().contains(ks[s.len() - 1]) {
            p
        } else {
            p.push(s.last())
        }
    }
}

/// The entries of `s` whose key is among the keys of `other` (`inside`), or
/// is not (`!inside`), in order.
pub open spec fn kept(s: Seq<Seq<char>>, other: Seq<Seq<char>>, inside: bool) -> Seq<Seq<char>>
    decreases s.len(),
{
    if s.len() == 0 {
        Seq::empty()
    } else {
        let p = kept(s.drop_last(), other, inside);
        if has_key(other, lower_of(s.last())) == inside {
            p.push(s.last())
        } else {
            p
        }
    }
}

/// The entries of `s` whose key, `ks[i]` for `s[i]`, is among `other_keys`
/// (`inside`), or is not (`!inside`), in order.
pub open spec fn kept_by_key(
    s: Seq<Seq<char>>,
    ks: Seq<Seq<char>>,
    other_keys: Seq<Seq<char>>,
    inside: bool,
) -> Seq<Seq<char>>
    decreases s.len(),
{
    if s.len() == 0 {
        Seq::empty()
    } else {
        let p = kept_by_key(s.drop_last(), ks.drop_last(), other_keys, inside);
        if other_keys.contains(ks[s.len() - 1]) == inside {
            p.push(s.last())
        } else {
            p
        }
    }
}

/// The canonical form picks the first entry of each case-folded key.
pub proof fn lemma_canonical_by_keys_of(s: Seq<Seq<char>>)
    ensures
        canonical_form(s) == first_by_key(s, keys_of(s)),
    decreases s.len(),
{
    if s.len() > 0 {
        let d = s.drop_last();
        lemma_canonical_by_keys_of(d);
        assert(keys_of(s).drop_last() =~= keys_of(d));
    }
}

/// Selecting by case-folded keys is selecting by the keys of each side.
pub proof fn lemma_kept_by_keys_of(s: Seq<Seq<char>>, other: Seq<Seq<char>>, inside: bool)
    ensures
        kept(s, other, inside) == kept_by_key(s, keys_of(s), keys_of(other), inside),
    decreases s.len(),
{
    if s.len() > 0 {
        let d = s.drop_last();
        lemma_kept_by_keys_of(d, other, inside);
        assert(keys_of(s).drop_last() =~= keys_of(d));
    }
}

/// The required skills that the candidate has, named as on the required side.
pub open spec fn shared_view(required: Seq<Seq<char>>, candidate: Seq<Seq<char>>) -> Seq<Seq<char>> {
    kept(canonical_form(required), candidate, true)
}

/// The required skills that the candidate lacks, named as on the required side.
pub open spec fn missing_view(required: Seq<Seq<char>>, candidate: Seq<Seq<char>>) -> Seq<Seq<char>> {
    kept(canonical_form(required), candidate, false)
}

/// How many distinct required skills (by key) the candidate has.
pub open spec fn matched_count(candidate: Seq<Seq<char>>, required: Seq<Seq<char>>) -> nat {
    shared_view(required, candidate).len()
}

/// Adding a name adds its key and nothing else.
pub proof fn lemma_has_key_push(d: Seq<Seq<char>>, x: Seq<char>)
    ensures
        forall|k: Seq<char>| has_key(d.push(x), k) == (has_key(d, k) || k == lower_of(x)),
{
    assert(keys_of(d.push(x)) =~= keys_of(d).push(lower_of(x)));
    assert forall|k: Seq<char>| has_key(d.push(x), k) == (has_key(d, k) || k == lower_of(x)) by {
        if has_key(d, k) {
            let i = choose|i: int| 0 <= i < keys_of(d).len() && keys_of(d)[i] == k;
            assert(keys_of(d.push(x))[i] == k);
        }
        if k == lower_of(x) {
            assert(keys_of(d.push(x))[d.len() as int] == k);
        }
        if has_key(d.push(x), k) && k != lower_of(x) {
            let i = choose|i: int|
                0 <= i < keys_of(d.push(x)).len() && keys_of(d.push(x))[i] == k;
            assert(keys_of(d)[i] == k);
        }
    }
}

/// The canonical form has exactly the keys of the list it is drawn from.
pub proof fn lemma_canonical_keys(s: Seq<Seq<char>>)
    ensures
        forall|k: Seq<char>| has_key(canonical_form(s), k) == has_key(s, k),
    decreases s.len(),
{
    if s.len() > 0 {
        let d = s.drop_last();
        lemma_canonical_keys(d);
        assert(d.push(s.last()) =~= s);
        lemma_has_key_push(d, s.last());
        lemma_has_key_push(canonical_form(d), s.last());
        assert forall|k: Seq<char>| has_key(canonical_form(s), k) == has_key(s, k) by {
            assert(has_key(canonical_form(d), k) == has_key(d, k));
            assert(has_key(d.push(s.last()), k) == (has_key(d, k) || k == lower_of(s.last())));
            if has_key(d, lower_of(s.last())) {
                assert(canonical_form(s) == canonical_form(d));
            } else {
                assert(canonical_form(s) == canonical_form(d).push(s.last()));
                assert(has_key(canonical_form(d).push(s.last()), k) == (has_key(
                    canonical_form(d),
                    k,
                ) || k == lower_of(s.last())));
            }
        }
    } else {
        assert forall|k: Seq<char>| has_key(canonical_form(s), k) == has_key(s, k) by {
            assert(keys_of(s).len() == 0);
            assert(keys_of(canonical_form(s)).len() == 0);
        }
    }
}

/// A selection has the keys of its source that are (or are not) among the
/// keys of `other`.
pub proof fn lemma_kept_keys(s: Seq<Seq<char>>, other: Seq<Seq<char>>, inside: bool)
    ensures
        forall|k: Seq<char>|
            has_key(kept(s, other, inside), k) == (has_key(s, k) && has_key(other, k) == inside),
    decreases s.len(),
{
    if s.len() > 0 {
        let d = s.drop_last();
        lemma_kept_keys(d, other, inside);
        assert(d.push(s.last()) =~= s);
        lemma_has_key_push(d, s.last());
        lemma_has_key_push(kept(d, other, inside), s.last());
        assert forall|k: Seq<char>|
            has_key(kept(s, other, inside), k) == (has_key(s, k) && has_key(other, k)
                == inside) by {
            assert(has_key(kept(d, other, inside), k) == (has_key(d, k) && has_key(other, k)
                == inside));
            assert(has_key(d.push(s.last()), k) == (has_key(d, k) || k == lower_of(s.last())));
            if has_key(other, lower_of(s.last())) == inside {
                assert(kept(s, other, inside) == kept(d, other, inside).push(s.last()));
                assert(has_key(kept(d, other, inside).push(s.last()), k) == (has_key(
                    kept(d, other, inside),
                    k,
                ) || k == lower_of(s.last())));
            } else {
                assert(kept(s, other, inside) == kept(d, other, inside));
            }
        }
    } else {
        assert forall|k: Seq<char>|
            has_key(kept(s, other, inside), k) == (has_key(s, k) && has_key(other, k)
                == inside) by {
            assert(keys_of(s).len() == 0);
            assert(keys_of(kept(s, other, inside)).len() == 0);
        }
    }
}

/// The keys of the canonical form are all different.
pub proof fn lemma_canonical_distinct(s: Seq<Seq<char>>)
    ensures
        keys_of(canonical_form(s)).no_duplicates(),
    decreases s.len(),
{
    if s.len() > 0 {
        let d = s.drop_last();
        lemma_canonical_distinct(d);
        lemma_canonical_keys(d);
        let p = canonical_form(d);
        if !has_key(d, lower_of(s.last())) {
            assert(keys_of(p.push(s.last())) =~= keys_of(p).push(lower_of(s.last())));
        }
    } else {
        assert(keys_of(canonical_form(s)).len() == 0);
    }
}

/// A selection from a list of distinct keys has distinct keys.
pub proof fn lemma_kept_distinct(s: Seq<Seq<char>>, other: Seq<Seq<char>>, inside: bool)
    requires
        keys_of(s).no_duplicates(),
    ensures
        keys_of(kept(s, other, inside)).no_duplicates(),
    decreases s.len(),
{
    if s.len() > 0 {
        let d = s.drop_last();
        assert(keys_of(d) =~= keys_of(s).drop_last());
        assert(keys_of(d).no_duplicates());
        lemma_kept_distinct(d, other, inside);
        lemma_kept_keys(d, other, inside);
        let p = kept(d, other, inside);
        if has_key(other, lower_of(s.last())) == inside {
            assert(!has_key(d, lower_of(s.last()))) by {
                if has_key(d, lower_of(s.last())) {
                    let i = choose|i: int| 0 <= i < keys_of(d).len() && keys_of(d)[i] == lower_of(s.last());
                    assert(keys_of(s)[i] == keys_of(s)[s.len() - 1]);
                }
            }
            assert(keys_of(p.push(s.last())) =~= keys_of(p).push(lower_of(s.last())));
        }
    } else {
        assert(keys_of(kept(s, other, inside)).len() == 0);
    }
}

/// The size of the intersection of two skill sets, compared by case-folded
/// key.
pub open spec fn shared_key_count(a: Seq<Seq<char>>, b: Seq<Seq<char>>) -> nat {
    keys_of(a).to_set().intersect(keys_of(b).to_set()).len()
}

/// The matched count is the number of case-folded keys that the candidate's
/// and the required skills share.
pub proof fn lemma_matched_count_is_intersection(candidate: Seq<Seq<char>>, required: Seq<Seq<char>>)
    ensures
        matched_count(candidate, required) == shared_key_count(candidate, required),
{
    let c = canonical_form(required);
    let t = kept(c, candidate, true);
    lemma_canonical_distinct(required);
    lemma_kept_distinct(c, candidate, true);
    lemma_kept_keys(c, candidate, true);
    lemma_canonical_keys(required);
    keys_of(t).unique_seq_to_set();
    assert(keys_of(t).to_set() =~= keys_of(candidate).to_set().intersect(
        keys_of(required).to_set(),
    )) by {
        assert forall|k: Seq<char>|
            keys_of(t).to_set().contains(k) == keys_of(candidate).to_set().intersect(
                keys_of(required).to_set(),
            ).contains(k) by {
            assert(has_key(t, k) == (has_key(c, k) && has_key(candidate, k)));
            assert(has_key(c, k) == has_key(required, k));
            assert(keys_of(t).to_set().contains(k) == has_key(t, k));
            assert(keys_of(candidate).to_set().contains(k) == has_key(candidate, k));
            assert(keys_of(required).to_set().contains(k) == has_key(required, k));
        }
    }
}

/// The case-folded key of each skill name, in order.
pub fn skill_keys(skills: &Vec<String>) -> (r: Vec<String>)
    ensures
        r.deep_view() == keys_of(skills.deep_view()),
{
    let mut out: Vec<String> = Vec::new();
    let mut i: usize = 0;
    while i < skills.len()
        invariant
            i <= skills.len(),
            out.deep_view() =~= keys_of(skills.deep_view().subrange(0, i as int)),
        decreases skills.len() - i,
    {
        let k = lowercase(skills[i].as_str());
        let ghost before = out.deep_view();
        out.push(k);
        assert(out.deep_view() =~= before.push(lower_of(skills.deep_view()[i as int])));
        assert(keys_of(skills.deep_view().subrange(0, i + 1)) =~= keys_of(
            skills.deep_view().subrange(0, i as int),
        ).push(lower_of(skills.deep_view()[i as int])));
        i = i + 1;
    }
    assert(skills.deep_view().subrange(0, i as int) =~= skills.deep_view());
    out
}

/// Whether `t` is one of `v`.
pub fn holds_text(v: &Vec<String>, t: &String) -> (r: bool)
    ensures
        r == v.deep_view().contains(t@),
{
    let mut i: usize = 0;
    while i < v.len()
        invariant
            i <= v.len(),
            forall|j: int| 0 <= j < i ==> v.deep_view()[j] != t@,
        decreases v.len() - i,
    {
        if v[i] == *t {
            assert(v.deep_view()[i as int] == t@);
            return true;
        }
        i = i + 1;
    }
    false
}

/// The first of `names` for each key, where `keys[i]` is the key of
/// `names[i]`, in order of first occurrence.
pub fn first_by_keys(names: &Vec<String>, keys: &Vec<String>) -> (r: Vec<String>)
    requires
        keys.len() == names.len(),
    ensures
        r.deep_view() == first_by_key(names.deep_view(), keys.deep_view()),
{
    let ghost s = names.deep_view();
    let ghost ks = keys.deep_view();
    let mut out: Vec<String> = Vec::new();
    let mut seen: Vec<String> = Vec::new();
    let mut i: usize = 0;
    while i < names.len()
        invariant
            s == names.deep_view(),
            ks == keys.deep_view(),
            keys.len() == names.len(),
            i <= names.len(),
            out.deep_view() == first_by_key(s.subrange(0, i as int), ks.subrange(0, i as int)),
            forall|k: Seq<char>| #[trigger] seen.deep_view().contains(k) == ks.subrange(0, i as int).contains(k),
        decreases names.len() - i,
    {
        let ghost pre = ks.subrange(0, i as int);
        assert(s.subrange(0, i + 1).drop_last() =~= s.subrange(0, i as int));
        assert(ks.subrange(0, i + 1).drop_last() =~= pre);
        assert(ks.subrange(0, i + 1) =~= pre.push(ks[i as int]));
        if !holds_text(&seen, &keys[i]) {
            let ghost before = out.deep_view();
            let ghost seen_before = seen.deep_view();
            out.push(names[i].clone());
            seen.push(keys[i].clone());
            assert(out.deep_view() =~= before.push(s[i as int]));
            assert(seen.deep_view() =~= seen_before.push(ks[i as int]));
            assert forall|k: Seq<char>| #[trigger] seen.deep_view().contains(k) == pre.push(ks[i as int]).contains(k) by {
                if seen_before.contains(k) {
                    let j = choose|j: int| 0 <= j < seen_before.len() && seen_before[j] == k;
                    assert(seen.deep_view()[j] == k);
                }
                if pre.contains(k) {
                    let j = choose|j: int| 0 <= j < pre.len() && pre[j] == k;
                    assert(pre.push(ks[i as int])[j] == k);
                }
                if k == ks[i as int] {
                    assert(seen.deep_view()[seen_before.len() as int] == k);
                    assert(pre.push(ks[i as int])[pre.len() as int] == k);
                }
                if seen.deep_view().contains(k) && k != ks[i as int] {
                    let j = choose|j: int| 0 <= j < seen.deep_view().len() && seen.deep_view()[j] == k;
                    assert(seen_before[j] == k);
                }
                if pre.push(ks[i as int]).contains(k) && k != ks[i as int] {
                    let j = choose|j: int| 0 <= j < pre.len() + 1 && pre.push(ks[i as int])[j] == k;
                    assert(pre[j] == k);
                }
            }
        } else {
            assert forall|k: Seq<char>| #[trigger] seen.deep_view().contains(k) == pre.push(ks[i as int]).contains(k) by {
                if pre.contains(k) {
                    let j = choose|j: int| 0 <= j < pre.len() && pre[j] == k;
                    assert(pre.push(ks[i as int])[j] == k);
                }
                if pre.push(ks[i as int]).contains(k) && k != ks[i as int] {
                    let j = choose|j: int| 0 <= j < pre.len() + 1 && pre.push(ks[i as int])[j] == k;
                    assert(pre[j] == k);
                }
            }
        }
        i = i + 1;
    }
    assert(s.subrange(0, i as int) =~= s);
    assert(ks.subrange(0, i as int) =~= ks);
    out
}

/// The first name of each case-folded skill, in order of first occurrence.
pub fn canonical_skills(skills: &Vec<String>) -> (r: Vec<String>)
    ensures
        r.deep_view() == canonical_form(skills.deep_view()),
{
    let keys = skill_keys(skills);
    proof {
        lemma_canonical_by_keys_of(skills.deep_view());
    }
    first_by_keys(skills, &keys)
}

/// Neither the canonical form nor a selection from it is longer than its source.
pub proof fn lemma_lengths(s: Seq<Seq<char>>, other: Seq<Seq<char>>, inside: bool)
    ensures
        canonical_form(s).len() <= s.len(),
        kept(s, other, inside).len() <= s.len(),
        kept(s, other, true).len() + kept(s, other, false).len() == s.len(),
    decreases s.len(),
{
    if s.len() > 0 {
        lemma_lengths(s.drop_last(), other, inside);
    }
}

/// Splits `names`, whose keys are `name_keys`, into those whose key is among
/// `other_keys` and the others; both keep the order of `names`.
pub fn split_by_keys(names: &Vec<String>, name_keys: &Vec<String>, other_keys: &Vec<String>) -> (r: (
    Vec<String>,
    Vec<String>,
))
    requires
        name_keys.len() == names.len(),
    ensures
        r.0.deep_view() == kept_by_key(
            names.deep_view(),
            name_keys.deep_view(),
            other_keys.deep_view(),
            true,
        ),
        r.1.deep_view() == kept_by_key(
            names.deep_view(),
            name_keys.deep_view(),
            other_keys.deep_view(),
            false,
        ),
{
    let ghost c = names.deep_view();
    let ghost ck = name_keys.deep_view();
    let ghost ok = other_keys.deep_view();
    let mut inside: Vec<String> = Vec::new();
    let mut outside: Vec<String> = Vec::new();
    let mut i: usize = 0;
    while i < names.len()
        invariant
            c == names.deep_view(),
            ck == name_keys.deep_view(),
            ok == other_keys.deep_view(),
            name_keys.len() == names.len(),
            i <= names.len(),
            inside.deep_view() == kept_by_key(
                c.subrange(0, i as int),
                ck.subrange(0, i as int),
                ok,
                true,
            ),
            outside.deep_view() == kept_by_key(
                c.subrange(0, i as int),
                ck.subrange(0, i as int),
                ok,
                false,
            ),
        decreases names.len() - i,
    {
        assert(c.subrange(0, i + 1).drop_last() =~= c.subrange(0, i as int));
        assert(ck.subrange(0, i + 1).drop_last() =~= ck.subrange(0, i as int));
        if holds_text(other_keys, &name_keys[i]) {
            let ghost before = inside.deep_view();
            inside.push(names[i].clone());
            assert(inside.deep_view() =~= before.push(c[i as int]));
        } else {
            let ghost before = outside.deep_view();
            outside.push(names[i].clone());
            assert(outside.deep_view() =~= before.push(c[i as int]));
        }
        i = i + 1;
    }
    assert(c.subrange(0, i as int) =~= c);
    assert(ck.subrange(0, i as int) =~= ck);
    (inside, outside)
}

/// The required skills, first name of each key, split into those the
/// candidate has and those the candidate lacks; both keep the casing and the
/// order of `required`.
pub fn partition_skills(required: &Vec<String>, candidate: &Vec<String>) -> (r: (
    Vec<String>,
    Vec<String>,
))
    ensures
        r.0.deep_view() == shared_view(required.deep_view(), candidate.deep_view()),
        r.1.deep_view() == missing_view(required.deep_view(), candidate.deep_view()),
{
    let canon = canonical_skills(required);
    let canon_keys = skill_keys(&canon);
    let keys = skill_keys(candidate);
    proof {
        lemma_kept_by_keys_of(canon.deep_view(), candidate.deep_view(), true);
        lemma_kept_by_keys_of(canon.deep_view(), candidate.deep_view(), false);
    }
    split_by_keys(&canon, &canon_keys, &keys)
}

} // verus!
