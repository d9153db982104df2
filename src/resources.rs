//! The learning resource ranker: a resource is worth as much as the share of
//! its skills that are new to the candidate.
use vstd::prelude::*;
use crate::models::LearningResource;
use crate::ranking::{is_ranking, rank_by_score};
use crate::score::Score;
use crate::skills::{canonical_form, has_key, kept, lemma_lengths, missing_view, partition_skills};
use crate::text::lower_of;

verus! {

/// The relevance of a resource teaching `related` to a candidate with the
/// skills `user`: the number of its distinct skills that the candidate lacks,
/// times 100, over the number of skills it lists; 0 when it lists none.
pub open spec fn relevance_of(user: Seq<Seq<char>>, related: Seq<Seq<char>>) -> Score {
    if related.len() == 0 {
        Score { num: 0, den: 1 }
    } else {
        Score { num: (100 * missing_view(related, user).len()) as u128, den: related.len() as usize }
    }
}

/// The relevance of each resource.
pub open spec fn relevances(user: Seq<Seq<char>>, resources: Seq<LearningResource>) -> Seq<Score> {
    Seq::new(resources.len(), |i: int| relevance_of(user, resources[i].related_skills.deep_view()))
}

/// Whether each resource teaches something new.
pub open spec fn teaches_new(user: Seq<Seq<char>>, resources: Seq<LearningResource>) -> Seq<bool> {
    Seq::new(resources.len(), |i: int| relevance_of(user, resources[i].related_skills.deep_view()).num > 0)
}

/// A resource whose skills the candidate all has teaches nothing new: its
/// relevance is 0, so a ranking leaves it out.
pub proof fn lemma_known_resource_excluded(user: Seq<Seq<char>>, related: Seq<Seq<char>>)
    requires
        forall|i: int| 0 <= i < related.len() ==> has_key(user, lower_of(#[trigger] related[i])),
    ensures
        relevance_of(user, related).num == 0,
{
    lemma_canonical_from_source(related);
    lemma_none_missing(canonical_form(related), user);
}

/// Each name of the canonical form is a name of its source.
proof fn lemma_canonical_from_source(s: Seq<Seq<char>>)
    ensures
        forall|k: int|
            0 <= k < canonical_form(s).len() ==> exists|i: int|
                0 <= i < s.len() && s[i] == #[trigger] canonical_form(s)[k],
    decreases s.len(),
{
    if s.len() > 0 {
        let d = s.drop_last();
        lemma_canonical_from_source(d);
        assert forall|k: int|
            0 <= k < canonical_form(s).len() implies exists|i: int|
                0 <= i < s.len() && s[i] == #[trigger] canonical_form(s)[k] by {
            if k < canonical_form(d).len() {
                let i = choose|i: int| 0 <= i < d.len() && d[i] == canonical_form(d)[k];
                assert(s[i] == canonical_form(s)[k]);
            } else {
                assert(s[s.len() - 1] == canonical_form(s)[k]);
            }
        }
    }
}

/// When the candidate has every skill of `s`, none of them is missing.
proof fn lemma_none_missing(s: Seq<Seq<char>>, user: Seq<Seq<char>>)
    requires
        forall|i: int| 0 <= i < s.len() ==> has_key(user, lower_of(#[trigger] s[i])),
    ensures
        kept(s, user, false).len() == 0,
    decreases s.len(),
{
    if s.len() > 0 {
        let d = s.drop_last();
        assert forall|i: int| 0 <= i < d.len() implies has_key(user, lower_of(#[trigger] d[i])) by {
            assert(d[i] == s[i]);
        }
        lemma_none_missing(d, user);
        assert(has_key(user, lower_of(s[s.len() - 1])));
    }
}

/// A learning resource with its relevance and the skills it would add.
#[derive(Debug)]
pub struct ResourceRecommendation {
    /// The resource.
    pub resource: LearningResource,
    /// Relevance, between 0 and 100.
    pub relevance_score: Score,
    /// The skills of the resource that the candidate lacks, as the resource
    /// names them.
    pub target_skills: Vec<String>,
}

/// The relevance of a resource teaching `related`, and the skills it would
/// add to the candidate.
pub fn resource_relevance(user_skills: &Vec<String>, related: &Vec<String>) -> (r: (Score, Vec<String>))
    ensures
        r.0 == relevance_of(user_skills.deep_view(), related.deep_view()),
        r.0.wf(),
        r.1.deep_view() == missing_view(related.deep_view(), user_skills.deep_view()),
{
    let (_known, new_skills) = partition_skills(related, user_skills);
    proof {
        lemma_lengths(related.deep_view(), user_skills.deep_view(), false);
        lemma_lengths(canonical_form(related.deep_view()), user_skills.deep_view(), false);
    }
    if related.len() == 0 {
        return (Score { num: 0, den: 1 }, new_skills);
    }
    (Score { num: 100 * (new_skills.len() as u128), den: related.len() }, new_skills)
}

/// The resources that teach the candidate something new, most relevant
/// first; resources of equal relevance keep their order.
pub fn rank_resources(user_skills: &Vec<String>, resources: Vec<LearningResource>) -> (r: Vec<
    ResourceRecommendation,
>)
    ensures
        exists|ord: Seq<int>|
            is_ranking(
                ord,
                relevances(user_skills.deep_view(), resources@),
                teaches_new(user_skills.deep_view(), resources@),
            ) && r@.len() == ord.len() && forall|k: int|
                0 <= k < ord.len() ==> {
                    &&& r@[k].resource == resources@[#[trigger] ord[k]]
                    &&& r@[k].relevance_score == relevance_of(
                        user_skills.deep_view(),
                        resources@[ord[k]].related_skills.deep_view(),
                    )
                    &&& r@[k].target_skills.deep_view() == missing_view(
                        resources@[ord[k]].related_skills.deep_view(),
                        user_skills.deep_view(),
                    )
                },
{
    let ghost res0 = resources@;
    let ghost user = user_skills.deep_view();
    let n = resources.len();
    let mut resources = resources;
    let mut recs: Vec<ResourceRecommendation> = Vec::new();
    let mut scores: Vec<Score> = Vec::new();
    let mut keep: Vec<bool> = Vec::new();
    let mut i: usize = 0;
    while i < n
        invariant
            n == res0.len(),
            user == user_skills.deep_view(),
            i <= n,
            resources@ == res0.subrange(i as int, n as int),
            recs@.len() == i,
            scores@ == relevances(user, res0).subrange(0, i as int),
            keep@ == teaches_new(user, res0).subrange(0, i as int),
            forall|j: int| 0 <= j < i ==> (#[trigger] recs@[j]).resource == res0[j],
            forall|j: int| 0 <= j < i ==> (#[trigger] recs@[j]).relevance_score == relevance_of(user, res0[j].related_skills.deep_view()),
            forall|j: int| 0 <= j < i ==> (#[trigger] recs@[j]).target_skills.deep_view() == missing_view(res0[j].related_skills.deep_view(), user),
            forall|j: int| 0 <= j < i ==> (#[trigger] scores@[j]).wf(),
        decreases n - i,
    {
        let resource = resources.remove(0);
        assert(res0.subrange(i as int, n as int).remove(0) =~= res0.subrange(i + 1, n as int));
        let (score, target_skills) = resource_relevance(user_skills, &resource.related_skills);
        scores.push(score);
        keep.push(score.num > 0);
        recs.push(ResourceRecommendation { resource, relevance_score: score, target_skills });
        assert(scores@ =~= relevances(user, res0).subrange(0, i + 1));
        assert(keep@ =~= teaches_new(user, res0).subrange(0, i + 1));
        i = i + 1;
    }
    assert(scores@ =~= relevances(user, res0));
    assert(keep@ =~= teaches_new(user, res0));
    let ghost recs0 = recs@;
    let out = rank_by_score(recs, scores, keep);
    proof {
        let ord = choose|ord: Seq<int>|
            is_ranking(ord, relevances(user, res0), teaches_new(user, res0)) && out@.len()
                == ord.len() && forall|k: int| 0 <= k < ord.len() ==> out@[k] == recs0[#[trigger] ord[k]];
        assert forall|k: int| 0 <= k < ord.len() implies {
            &&& out@[k].resource == res0[#[trigger] ord[k]]
            &&& out@[k].relevance_score == relevance_of(user, res0[ord[k]].related_skills.deep_view())
            &&& out@[k].target_skills.deep_view() == missing_view(res0[ord[k]].related_skills.deep_view(), user)
        } by {
            assert(out@[k] == recs0[ord[k]]);
        }
    }
    out
}

} // verus!
