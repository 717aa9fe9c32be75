//! The link filter of a search: which candidates are taken up, in what
//! order, and what the set of seen addresses becomes.

use vstd::prelude::*;
use vstd::hash_set::StringHashSet;
use crate::models::{Link, LinkView, link_views, hrefs, distinct_hrefs};
use crate::text::has_prefix;

verus! {

/// Every link of a search result starts with this text.
pub const REQUIRED_PREFIX: &'static str = "https://developer.android.com/";

/// A candidate that the filter can take up at all: its address lies under
/// the required prefix and it has some text.
pub open spec fn admissible(l: LinkView) -> bool {
    REQUIRED_PREFIX@.is_prefix_of(l.href) && l.text.len() > 0
}

/// The candidates of `batch` that are taken up when `seen` holds the
/// addresses taken up before: those that are admissible and whose address is
/// neither in `seen` nor taken up earlier in the same batch, in batch order.
pub open spec fn fresh(seen: Set<Seq<char>>, batch: Seq<LinkView>) -> Seq<LinkView>
    decreases batch.len(),
{
    if batch.len() == 0 {
        Seq::empty()
    } else {
        let earlier = fresh(seen, batch.drop_last());
        let l = batch.last();
        if admissible(l) && !seen.contains(l.href) && !hrefs(earlier).contains(l.href) {
            earlier.push(l)
        } else {
            earlier
        }
    }
}

/// The running result after one more batch: what was held, then the fresh
/// candidates of the batch.
pub open spec fn absorb(held: Seq<LinkView>, batch: Seq<LinkView>) -> Seq<LinkView> {
    held + fresh(hrefs(held), batch)
}

/// The running result after a sequence of batches, starting from nothing.
pub open spec fn absorb_all(batches: Seq<Seq<LinkView>>) -> Seq<LinkView>
    decreases batches.len(),
{
    if batches.len() == 0 {
        Seq::empty()
    } else {
        absorb(absorb_all(batches.drop_last()), batches.last())
    }
}

/// All batches laid end to end.
pub open spec fn joined(batches: Seq<Seq<LinkView>>) -> Seq<LinkView>
    decreases batches.len(),
{
    if batches.len() == 0 {
        Seq::empty()
    } else {
        joined(batches.drop_last()) + batches.last()
    }
}

/// Every entry is admissible.
pub open spec fn all_admissible(links: Seq<LinkView>) -> bool {
    forall|i: int| 0 <= i < links.len() ==> admissible(#[trigger] links[i])
}

/// What a search result must satisfy: no address twice, every entry under
/// the required prefix and with some text.
pub open spec fn well_formed(links: Seq<LinkView>) -> bool {
    distinct_hrefs(links) && all_admissible(links)
}

/// Position `i` of `all` holds the first admissible candidate with its address.
pub open spec fn is_first_sighting(all: Seq<LinkView>, i: int) -> bool {
    &&& 0 <= i < all.len()
    &&& admissible(all[i])
    &&& forall|j: int| 0 <= j < i && admissible(#[trigger] all[j]) ==> all[j].href != all[i].href
}

/// The addresses taken up so far by one search.
pub struct SeenSet {
    taken: StringHashSet,
}

impl View for SeenSet {
    type V = Set<Seq<char>>;

    closed spec fn view(&self) -> Set<Seq<char>> {
        self.taken@
    }
}

impl SeenSet {
    /// A set that has seen nothing.
    pub fn new() -> (seen: SeenSet)
        ensures
            seen@ == Set::<Seq<char>>::empty(),
    {
        SeenSet { taken: StringHashSet::new() }
    }

    /// Whether `href` was taken up before.
    pub fn contains(&self, href: &str) -> (found: bool)
        ensures
            found == self@.contains(href@),
    {
        self.taken.contains(href)
    }

    /// Records `href`; says whether it was new.
    pub fn insert(&mut self, href: &str) -> (new: bool)
        ensures
            final(self)@ == old(self)@.insert(href@),
            new == !old(self)@.contains(href@),
    {
        self.taken.insert(href.to_owned())
    }
}

/// Whether the filter can take up `link` at all.
pub fn is_admissible(link: &Link) -> (ok: bool)
    ensures
        ok == admissible(link@),
{
    has_prefix(link.href.as_str(), REQUIRED_PREFIX) && !link.text.as_str().is_empty()
}

/// Adding one entry adds its address to the set of addresses.
pub proof fn lemma_hrefs_push(links: Seq<LinkView>, l: LinkView)
    ensures
        hrefs(links.push(l)) == hrefs(links).insert(l.href),
{
    let a = hrefs(links.push(l));
    let b = hrefs(links).insert(l.href);
    assert forall|h: Seq<char>| a.contains(h) implies b.contains(h) by {
        let i = choose|i: int| 0 <= i < links.push(l).len() && #[trigger] links.push(l)[i].href == h;
        if i < links.len() {
            assert(links[i].href == h);
        }
    }
    assert forall|h: Seq<char>| b.contains(h) implies a.contains(h) by {
        if h == l.href {
            assert(links.push(l)[links.len() as int].href == h);
        } else {
            let i = choose|i: int| 0 <= i < links.len() && #[trigger] links[i].href == h;
            assert(links.push(l)[i].href == h);
        }
    }
    assert(a =~= b);
}

/// Takes up the fresh candidates of `batch`: each candidate that is
/// admissible and whose address `seen` does not hold yet is recorded in `seen`
/// and handed back, in batch order.
pub fn admit_links(batch: &Vec<Link>, seen: &mut SeenSet) -> (added: Vec<Link>)
    ensures
        link_views(added@) == fresh(old(seen)@, link_views(batch@)),
        final(seen)@ == old(seen)@.union(hrefs(link_views(added@))),
{
    let mut added: Vec<Link> = Vec::new();
    let ghost before = seen@;
    let mut i: usize = 0;
    proof {
        assert(link_views(batch@).take(0) =~= Seq::<LinkView>::empty());
        assert(link_views(added@) =~= Seq::<LinkView>::empty());
        assert(hrefs(link_views(added@)) =~= Set::<Seq<char>>::empty());
        assert(seen@ =~= before.union(hrefs(link_views(added@))));
    }
    while i < batch.len()
        invariant
            i <= batch.len(),
            link_views(added@) == fresh(before, link_views(batch@).take(i as int)),
            seen@ == before.union(hrefs(link_views(added@))),
        decreases batch.len() - i,
    {
        let ghost views = link_views(batch@);
        let ghost prior = link_views(added@);
        proof {
            assert(views.take(i + 1).drop_last() =~= views.take(i as int));
            assert(views.take(i + 1).last() == batch@[i as int]@);
        }
        let link = &batch[i];
        if is_admissible(link) && seen.insert(link.href.as_str()) {
            added.push(link.clone());
            proof {
                assert(link_views(added@) =~= prior.push(link@));
                lemma_hrefs_push(prior, link@);
                assert(seen@ =~= before.union(hrefs(link_views(added@))));
            }
        } else {
            proof {
                if admissible(link@) {
                    assert(seen@ =~= before.union(hrefs(prior)));
                }
            }
        }
        i = i + 1;
    }
    proof {
        assert(link_views(batch@).take(batch.len() as int) =~= link_views(batch@));
    }
    added
}

/// An address is among the taken-up candidates of a batch exactly when it is
/// not in `seen` and some admissible candidate of the batch carries it.
pub proof fn lemma_fresh_hrefs(seen: Set<Seq<char>>, batch: Seq<LinkView>, h: Seq<char>)
    ensures
        hrefs(fresh(seen, batch)).contains(h) <==> (!seen.contains(h) && exists|j: int|
            0 <= j < batch.len() && admissible(#[trigger] batch[j]) && batch[j].href == h),
    decreases batch.len(),
{
    if batch.len() == 0 {
        assert(!hrefs(fresh(seen, batch)).contains(h)) by {
            if hrefs(fresh(seen, batch)).contains(h) {
                let i = choose|i: int|
                    0 <= i < fresh(seen, batch).len() && #[trigger] fresh(seen, batch)[i].href == h;
            }
        }
    } else {
        let front = batch.drop_last();
        let l = batch.last();
        let earlier = fresh(seen, front);
        lemma_fresh_hrefs(seen, front, h);
        lemma_fresh_hrefs(seen, front, l.href);
        lemma_hrefs_push(earlier, l);
        let here = exists|j: int|
            0 <= j < batch.len() && admissible(#[trigger] batch[j]) && batch[j].href == h;
        let there = exists|j: int|
            0 <= j < front.len() && admissible(#[trigger] front[j]) && front[j].href == h;
        if there {
            let j = choose|j: int|
                0 <= j < front.len() && admissible(#[trigger] front[j]) && front[j].href == h;
            assert(batch[j] == front[j]);
            assert(here);
        }
        if here && !there {
            let j = choose|j: int|
                0 <= j < batch.len() && admissible(#[trigger] batch[j]) && batch[j].href == h;
            if j < front.len() {
                assert(front[j] == batch[j]);
            }
            assert(j == batch.len() - 1);
            assert(admissible(l) && l.href == h);
        }
        if admissible(l) && l.href == h {
            assert(batch[batch.len() - 1] == l);
            assert(here);
        }
    }
}

/// What is taken up from a batch is admissible, new to `seen`, and holds no
/// address twice.
pub proof fn lemma_fresh_sound(seen: Set<Seq<char>>, batch: Seq<LinkView>)
    ensures
        well_formed(fresh(seen, batch)),
        forall|i: int|
            0 <= i < fresh(seen, batch).len() ==> !seen.contains(
                (#[trigger] fresh(seen, batch)[i]).href,
            ),
    decreases batch.len(),
{
    if batch.len() > 0 {
        let front = batch.drop_last();
        let l = batch.last();
        let earlier = fresh(seen, front);
        lemma_fresh_sound(seen, front);
        if admissible(l) && !seen.contains(l.href) && !hrefs(earlier).contains(l.href) {
            let out = earlier.push(l);
            assert forall|i: int, j: int| 0 <= i < j < out.len() implies #[trigger] out[i].href
                != #[trigger] out[j].href by {
                if j == earlier.len() {
                    assert(earlier[i].href == out[i].href);
                    if out[i].href == l.href {
                        assert(hrefs(earlier).contains(l.href));
                    }
                } else {
                    assert(out[i] == earlier[i] && out[j] == earlier[j]);
                }
            }
            assert forall|i: int| 0 <= i < out.len() implies admissible(#[trigger] out[i])
                && !seen.contains(out[i].href) by {
                if i < earlier.len() {
                    assert(out[i] == earlier[i]);
                }
            }
        }
    }
}

/// Taking up a batch keeps a well-formed running result well formed, and
/// leaves what was held where it was.
pub proof fn lemma_absorb_well_formed(held: Seq<LinkView>, batch: Seq<LinkView>)
    requires
        well_formed(held),
    ensures
        well_formed(absorb(held, batch)),
        held.is_prefix_of(absorb(held, batch)),
{
    let more = fresh(hrefs(held), batch);
    let out = absorb(held, batch);
    lemma_fresh_sound(hrefs(held), batch);
    assert forall|i: int, j: int| 0 <= i < j < out.len() implies #[trigger] out[i].href
        != #[trigger] out[j].href by {
        if j < held.len() {
            assert(out[i] == held[i] && out[j] == held[j]);
        } else if i < held.len() {
            assert(out[i] == held[i]);
            assert(out[j] == more[j - held.len()]);
            assert(hrefs(held).contains(held[i].href));
        } else {
            assert(out[i] == more[i - held.len()]);
            assert(out[j] == more[j - held.len()]);
        }
    }
    assert forall|i: int| 0 <= i < out.len() implies admissible(#[trigger] out[i]) by {
        if i < held.len() {
            assert(out[i] == held[i]);
        } else {
            assert(out[i] == more[i - held.len()]);
        }
    }
    assert(held =~= out.subrange(0, held.len() as int));
}

/// Link identity: however many batches are fed through the filter, the
/// running result never holds two entries with the same address.
pub proof fn law_link_identity(batches: Seq<Seq<LinkView>>)
    ensures
        distinct_hrefs(absorb_all(batches)),
        well_formed(absorb_all(batches)),
    decreases batches.len(),
{
    if batches.len() > 0 {
        law_link_identity(batches.drop_last());
        lemma_absorb_well_formed(absorb_all(batches.drop_last()), batches.last());
    }
}

/// Domain filter: whatever batch a candidate came in, it is in the running
/// result only if its address starts with the required prefix (and it has
/// some text).
pub proof fn law_domain_filter(batches: Seq<Seq<LinkView>>, l: LinkView)
    ensures
        absorb_all(batches).contains(l) ==> REQUIRED_PREFIX@.is_prefix_of(l.href) && l.text.len()
            > 0,
        !REQUIRED_PREFIX@.is_prefix_of(l.href) ==> !absorb_all(batches).contains(l),
{
    law_link_identity(batches);
    if absorb_all(batches).contains(l) {
        let i = choose|i: int| 0 <= i < absorb_all(batches).len() && absorb_all(batches)[i] == l;
        assert(admissible(absorb_all(batches)[i]));
    }
}

/// The addresses of two runs laid end to end are those of either run.
pub proof fn lemma_hrefs_concat(a: Seq<LinkView>, b: Seq<LinkView>)
    ensures
        hrefs(a + b) == hrefs(a).union(hrefs(b)),
{
    let ab = a + b;
    assert forall|h: Seq<char>| hrefs(ab).contains(h) implies hrefs(a).union(hrefs(b)).contains(
        h,
    ) by {
        let i = choose|i: int| 0 <= i < ab.len() && #[trigger] ab[i].href == h;
        if i < a.len() {
            assert(a[i].href == h);
        } else {
            assert(b[i - a.len()].href == h);
        }
    }
    assert forall|h: Seq<char>| hrefs(a).union(hrefs(b)).contains(h) implies hrefs(ab).contains(
        h,
    ) by {
        if hrefs(a).contains(h) {
            let i = choose|i: int| 0 <= i < a.len() && #[trigger] a[i].href == h;
            assert(ab[i].href == h);
        } else {
            let i = choose|i: int| 0 <= i < b.len() && #[trigger] b[i].href == h;
            assert(ab[i + a.len()].href == h);
        }
    }
    assert(hrefs(ab) =~= hrefs(a).union(hrefs(b)));
}

/// Feeding two batches one after the other takes up the same candidates as
/// feeding them as one batch.
pub proof fn lemma_fresh_concat(seen: Set<Seq<char>>, a: Seq<LinkView>, b: Seq<LinkView>)
    ensures
        fresh(seen, a + b) == fresh(seen, a) + fresh(seen.union(hrefs(fresh(seen, a))), b),
    decreases b.len(),
{
    let first = fresh(seen, a);
    let later = seen.union(hrefs(first));
    if b.len() == 0 {
        assert(a + b =~= a);
        assert(first + fresh(later, b) =~= first);
    } else {
        let front = b.drop_last();
        let l = b.last();
        assert((a + b).drop_last() =~= a + front);
        assert((a + b).last() == l);
        lemma_fresh_concat(seen, a, front);
        lemma_hrefs_concat(first, fresh(later, front));
        if admissible(l) && !later.contains(l.href) && !hrefs(fresh(later, front)).contains(
            l.href,
        ) {
            assert((first + fresh(later, front)).push(l) =~= first + fresh(later, front).push(l));
        }
    }
}

/// The running result after a sequence of batches is what one pass over all
/// of them, laid end to end, takes up.
pub proof fn lemma_absorb_all_is_one_pass(batches: Seq<Seq<LinkView>>)
    ensures
        absorb_all(batches) == fresh(Set::empty(), joined(batches)),
    decreases batches.len(),
{
    if batches.len() > 0 {
        let front = batches.drop_last();
        lemma_absorb_all_is_one_pass(front);
        lemma_fresh_concat(Set::empty(), joined(front), batches.last());
        let held = fresh(Set::<Seq<char>>::empty(), joined(front));
        assert(Set::<Seq<char>>::empty().union(hrefs(held)) =~= hrefs(held));
    }
}

/// One pass over `all` takes up exactly the first sightings, in the order of
/// their positions. The positions are handed back.
pub proof fn lemma_fresh_positions(all: Seq<LinkView>) -> (pos: Seq<int>)
    ensures
        pos.len() == fresh(Set::empty(), all).len(),
        forall|k: int|
            0 <= k < pos.len() ==> is_first_sighting(all, #[trigger] pos[k]) && fresh(
                Set::empty(),
                all,
            )[k] == all[pos[k]],
        forall|k: int, m: int| 0 <= k < m < pos.len() ==> #[trigger] pos[k] < #[trigger] pos[m],
        forall|i: int| is_first_sighting(all, i) ==> pos.contains(i),
    decreases all.len(),
{
    let none = Set::<Seq<char>>::empty();
    if all.len() == 0 {
        Seq::empty()
    } else {
        let front = all.drop_last();
        let l = all.last();
        let last = all.len() - 1;
        let earlier = fresh(none, front);
        let before = lemma_fresh_positions(front);
        lemma_fresh_hrefs(none, front, l.href);
        assert forall|p: int| is_first_sighting(front, p) implies is_first_sighting(all, p) by {
            assert(all[p] == front[p]);
            assert forall|j: int| 0 <= j < p && admissible(#[trigger] all[j]) implies all[j].href
                != all[p].href by {
                assert(all[j] == front[j]);
            }
        }
        assert forall|p: int| 0 <= p < last && is_first_sighting(all, p) implies is_first_sighting(
            front,
            p,
        ) by {
            assert(all[p] == front[p]);
            assert forall|j: int| 0 <= j < p && admissible(#[trigger] front[j]) implies front[j].href
                != front[p].href by {
                assert(all[j] == front[j]);
            }
        }
        let taken = admissible(l) && !hrefs(earlier).contains(l.href);
        if taken {
            assert forall|j: int| 0 <= j < last && admissible(#[trigger] all[j]) implies all[j].href
                != all[last].href by {
                assert(all[j] == front[j]);
            }
            assert(is_first_sighting(all, last));
        } else if admissible(l) {
            let j = choose|j: int|
                0 <= j < front.len() && admissible(#[trigger] front[j]) && front[j].href == l.href;
            assert(all[j] == front[j]);
            assert(!is_first_sighting(all, last));
        }
        let pos = if taken {
            before.push(last)
        } else {
            before
        };
        assert forall|k: int| 0 <= k < pos.len() implies is_first_sighting(all, #[trigger] pos[k])
            && fresh(none, all)[k] == all[pos[k]] by {
            if k < before.len() {
                assert(pos[k] == before[k]);
                assert(is_first_sighting(front, before[k]));
                assert(all[before[k]] == front[before[k]]);
            }
        }
        assert forall|k: int, m: int| 0 <= k < m < pos.len() implies #[trigger] pos[k]
            < #[trigger] pos[m] by {
            assert(is_first_sighting(front, before[k]));
            if m < before.len() {
                assert(pos[k] == before[k] && pos[m] == before[m]);
            }
        }
        assert forall|i: int| is_first_sighting(all, i) implies pos.contains(i) by {
            if i < last {
                assert(before.contains(i));
                let k = choose|k: int| 0 <= k < before.len() && before[k] == i;
                assert(pos[k] == i);
            } else {
                assert(pos[pos.len() - 1] == i);
            }
        }
        pos
    }
}

/// First-seen order: the running result after any sequence of batches lists,
/// by increasing position, exactly the candidates that are the first
/// admissible ones with their address among all batches laid end to end.
/// The positions are handed back.
pub proof fn law_first_seen_order(batches: Seq<Seq<LinkView>>) -> (pos: Seq<int>)
    ensures
        pos.len() == absorb_all(batches).len(),
        forall|k: int|
            0 <= k < pos.len() ==> is_first_sighting(joined(batches), #[trigger] pos[k])
                && absorb_all(batches)[k] == joined(batches)[pos[k]],
        forall|k: int, m: int| 0 <= k < m < pos.len() ==> #[trigger] pos[k] < #[trigger] pos[m],
        forall|i: int| is_first_sighting(joined(batches), i) ==> pos.contains(i),
{
    lemma_absorb_all_is_one_pass(batches);
    lemma_fresh_positions(joined(batches))
}

} // verus!
