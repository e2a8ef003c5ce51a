//! The index of cached images, by reference.
//!
//! A reference has one entry at most. The entries are kept newest first:
//! by the time they were cached, latest first, and among entries cached at
//! the same time the one written last first.
//!
//! The index is what images are looked up in and listed from. It is
//! filled, entry by entry, from the rows that the database holds, decoded
//! by [`crate::images::decode_image_rows`]; what is written to the database
//! for an entry is the row of [`crate::images::encode_image_row`].

use vstd::prelude::*;

use crate::error::BoxliteError;
use crate::images::CachedImage;
use crate::images::CachedImageView;
use crate::text::chars_eq;
use crate::text::chars_of;

verus! {

// ============================================================================
// The order of texts
// ============================================================================

/// `a` comes before `b`, or is `b`, in the order of texts: character by
/// character, and a text before every text it begins.
pub open spec fn text_le(a: Seq<char>, b: Seq<char>) -> bool
    decreases a.len(),
{
    if a.len() == 0 {
        true
    } else if b.len() == 0 {
        false
    } else if a[0] != b[0] {
        a[0] < b[0]
    } else {
        text_le(a.drop_first(), b.drop_first())
    }
}

/// Of two texts one comes before the other, or they are the same.
pub proof fn lemma_text_le_total(a: Seq<char>, b: Seq<char>)
    ensures
        text_le(a, b) || text_le(b, a),
    decreases a.len(),
{
    if a.len() > 0 && b.len() > 0 && a[0] == b[0] {
        lemma_text_le_total(a.drop_first(), b.drop_first());
    }
}

pub proof fn lemma_text_le_transitive(a: Seq<char>, b: Seq<char>, c: Seq<char>)
    requires
        text_le(a, b),
        text_le(b, c),
    ensures
        text_le(a, c),
    decreases a.len(),
{
    if a.len() > 0 && b.len() > 0 && c.len() > 0 {
        if a[0] == b[0] && b[0] == c[0] {
            lemma_text_le_transitive(a.drop_first(), b.drop_first(), c.drop_first());
        }
    }
}

/// Whether `a` comes before `b`, or is `b`, in the order of texts.
pub fn text_le_exec(a: &Vec<char>, b: &Vec<char>) -> (r: bool)
    ensures
        r == text_le(a@, b@),
{
    let mut i: usize = 0;
    assert(a@.skip(0) == a@ && b@.skip(0) == b@);
    loop
        invariant
            i <= a.len(),
            i <= b.len(),
            text_le(a@, b@) == text_le(a@.skip(i as int), b@.skip(i as int)),
        decreases a.len() - i,
    {
        if i == a.len() {
            return true;
        }
        if i == b.len() {
            return false;
        }
        assert(a@.skip(i as int)[0] == a@[i as int]);
        assert(b@.skip(i as int)[0] == b@[i as int]);
        if a[i] != b[i] {
            return a[i] < b[i];
        }
        assert(a@.skip(i as int).drop_first() == a@.skip(i + 1));
        assert(b@.skip(i as int).drop_first() == b@.skip(i + 1));
        i += 1;
    }
}

// ============================================================================
// The index
// ============================================================================

pub type IndexView = Seq<(Seq<char>, CachedImageView)>;

/// Whether the index holds an entry for the reference.
pub open spec fn indexed(v: IndexView, reference: Seq<char>) -> bool {
    exists|i: int| 0 <= i < v.len() && (#[trigger] v[i]).0 == reference
}

/// An index is well formed when no reference has two entries and the
/// entries are in order, latest first.
pub open spec fn index_wf(v: IndexView) -> bool {
    &&& forall|i: int, j: int| 0 <= i < j < v.len() ==> (#[trigger] v[i]).0 != (#[trigger] v[j]).0
    &&& forall|i: int, j: int|
        0 <= i < j < v.len() ==> text_le((#[trigger] v[j]).1.cached_at, (#[trigger] v[i]).1.cached_at)
}

/// The index without the entry of the reference.
pub open spec fn without_reference(v: IndexView, reference: Seq<char>) -> IndexView
    decreases v.len(),
{
    if v.len() == 0 {
        v
    } else if v[0].0 == reference {
        v.drop_first()
    } else {
        seq![v[0]] + without_reference(v.drop_first(), reference)
    }
}

/// Where an entry cached at the given time goes: before the first entry
/// that is not later.
pub open spec fn insert_position(v: IndexView, cached_at: Seq<char>) -> int
    decreases v.len(),
{
    if v.len() == 0 {
        0
    } else if text_le(v[0].1.cached_at, cached_at) {
        0
    } else {
        1 + insert_position(v.drop_first(), cached_at)
    }
}

/// The index after an image was written under a reference: an entry that
/// the reference had is gone, and the new entry stands where its time
/// puts it.
pub open spec fn upserted(v: IndexView, reference: Seq<char>, image: CachedImageView) -> IndexView {
    let w = without_reference(v, reference);
    w.insert(insert_position(w, image.cached_at), (reference, image))
}

proof fn lemma_without_reference(v: IndexView, reference: Seq<char>, i: int)
    requires
        0 <= i <= v.len(),
        forall|j: int| 0 <= j < i ==> (#[trigger] v[j]).0 != reference,
        i < v.len() ==> v[i].0 == reference,
    ensures
        without_reference(v, reference) == if i < v.len() {
            v.remove(i)
        } else {
            v
        },
    decreases v.len(),
{
    if v.len() == 0 {
    } else if v[0].0 == reference {
        assert(i == 0);
        assert(v.drop_first() =~= v.remove(0));
    } else {
        let rest = v.drop_first();
        assert forall|j: int| 0 <= j < i - 1 implies (#[trigger] rest[j]).0 != reference by {
            assert(rest[j] == v[j + 1]);
        }
        lemma_without_reference(rest, reference, i - 1);
        if i < v.len() {
            assert(seq![v[0]] + rest.remove(i - 1) =~= v.remove(i));
        } else {
            assert(seq![v[0]] + rest =~= v);
        }
    }
}

proof fn lemma_insert_position(v: IndexView, cached_at: Seq<char>, p: int)
    requires
        0 <= p <= v.len(),
        forall|j: int| 0 <= j < p ==> !text_le((#[trigger] v[j]).1.cached_at, cached_at),
        p < v.len() ==> text_le(v[p].1.cached_at, cached_at),
    ensures
        insert_position(v, cached_at) == p,
    decreases v.len(),
{
    if v.len() == 0 {
    } else if text_le(v[0].1.cached_at, cached_at) {
        assert(p == 0);
    } else {
        let rest = v.drop_first();
        assert forall|j: int| 0 <= j < p - 1 implies !text_le(
            (#[trigger] rest[j]).1.cached_at,
            cached_at,
        ) by {
            assert(rest[j] == v[j + 1]);
        }
        assert(p >= 1);
        if p - 1 < rest.len() {
            assert(rest[p - 1] == v[p]);
        }
        lemma_insert_position(rest, cached_at, p - 1);
    }
}

/// Removing an entry keeps the index well formed and leaves no entry for
/// its reference.
pub proof fn lemma_remove_keeps_wf(v: IndexView, i: int)
    requires
        index_wf(v),
        0 <= i < v.len(),
    ensures
        index_wf(v.remove(i)),
        !indexed(v.remove(i), v[i].0),
{
    let after = v.remove(i);
    assert forall|a: int, b: int| 0 <= a < b < after.len() implies (#[trigger] after[a]).0 != (
    #[trigger] after[b]).0 && text_le(after[b].1.cached_at, after[a].1.cached_at) by {
        let a0 = if a < i { a } else { a + 1 };
        let b0 = if b < i { b } else { b + 1 };
        assert(after[a] == v[a0] && after[b] == v[b0]);
    }
    assert forall|k: int| 0 <= k < after.len() implies (#[trigger] after[k]).0 != v[i].0 by {
        let k0 = if k < i { k } else { k + 1 };
        assert(after[k] == v[k0]);
        if k0 < i {
            assert(v[k0].0 != v[i].0);
        } else {
            assert(v[i].0 != v[k0].0);
        }
    }
}

/// Inserting an entry for a new reference where its time puts it keeps
/// the index well formed.
pub proof fn lemma_insert_keeps_wf(v: IndexView, p: int, entry: (Seq<char>, CachedImageView))
    requires
        index_wf(v),
        !indexed(v, entry.0),
        0 <= p <= v.len(),
        forall|j: int| 0 <= j < p ==> !text_le((#[trigger] v[j]).1.cached_at, entry.1.cached_at),
        p < v.len() ==> text_le(v[p].1.cached_at, entry.1.cached_at),
    ensures
        index_wf(v.insert(p, entry)),
{
    let after = v.insert(p, entry);
    assert forall|a: int, b: int| 0 <= a < b < after.len() implies (#[trigger] after[a]).0 != (
    #[trigger] after[b]).0 && text_le(after[b].1.cached_at, after[a].1.cached_at) by {
        let a0 = if a < p { a } else { a - 1 };
        let b0 = if b < p { b } else { b - 1 };
        if a == p {
            assert(after[a] == entry);
            assert(after[b] == v[b0]);
            assert(v[b0].0 != entry.0);
            if b0 > p {
                assert(text_le(v[b0].1.cached_at, v[p].1.cached_at));
                lemma_text_le_transitive(
                    v[b0].1.cached_at,
                    v[p].1.cached_at,
                    entry.1.cached_at,
                );
            }
        } else if b == p {
            assert(after[b] == entry);
            assert(after[a] == v[a0]);
            assert(v[a0].0 != entry.0);
            assert(!text_le(v[a0].1.cached_at, entry.1.cached_at));
            lemma_text_le_total(v[a0].1.cached_at, entry.1.cached_at);
        } else {
            assert(after[a] == v[a0] && after[b] == v[b0]);
        }
    }
}

/// The index of cached images.
#[derive(Debug)]
pub struct ImageIndexStore {
    entries: Vec<(String, CachedImage)>,
}

impl DeepView for ImageIndexStore {
    type V = IndexView;

    /// The entries, newest first.
    closed spec fn deep_view(&self) -> IndexView {
        self.entries.deep_view()
    }
}

impl ImageIndexStore {
    #[verifier::type_invariant]
    spec fn well_formed(&self) -> bool {
        index_wf(self.entries.deep_view())
    }

    /// An empty index.
    pub fn new() -> (r: ImageIndexStore)
        ensures
            r.deep_view() == IndexView::empty(),
    {
        let r = ImageIndexStore { entries: Vec::new() };
        assert(r.entries.deep_view() =~= Seq::empty());
        r
    }

    fn find(&self, reference: &str) -> (r: Option<usize>)
        ensures
            match r {
                Some(i) => i < self.deep_view().len() && self.deep_view()[i as int].0
                    == reference@ && forall|j: int|
                    0 <= j < i ==> (#[trigger] self.deep_view()[j]).0 != reference@,
                None => !indexed(self.deep_view(), reference@),
            },
    {
        let wanted = chars_of(reference);
        let mut i: usize = 0;
        while i < self.entries.len()
            invariant
                i <= self.entries.len(),
                wanted@ == reference@,
                forall|j: int| 0 <= j < i ==> (#[trigger] self.deep_view()[j]).0 != reference@,
            decreases self.entries.len() - i,
        {
            if chars_eq(&chars_of(self.entries[i].0.as_str()), &wanted) {
                assert(self.deep_view()[i as int].0 == self.entries[i as int].0@);
                return Some(i);
            }
            i += 1;
        }
        None
    }

    /// What is cached for the reference, if anything.
    pub fn get(&self, reference: &str) -> (r: Result<Option<CachedImage>, BoxliteError>)
        ensures
            r is Ok,
            r matches Ok(Some(image)) ==> exists|i: int|
                0 <= i < self.deep_view().len() && (#[trigger] self.deep_view()[i]) == (
                    reference@,
                    image.deep_view(),
                ),
            r matches Ok(found) ==> (found is Some <==> indexed(self.deep_view(), reference@)),
    {
        match self.find(reference) {
            Some(i) => {
                let image = self.entries[i].1.duplicate();
                assert(self.deep_view()[i as int] == (reference@, image.deep_view()));
                Ok(Some(image))
            },
            None => Ok(None),
        }
    }

    /// Writes what is cached for the reference, in place of what was.
    pub fn upsert(&mut self, reference: &str, image: &CachedImage) -> (r: Result<(), BoxliteError>)
        ensures
            r is Ok,
            index_wf(final(self).deep_view()),
            final(self).deep_view() == upserted(
                old(self).deep_view(),
                reference@,
                image.deep_view(),
            ),
    {
        proof {
            use_type_invariant(&*self);
        }
        let found = self.find(reference);
        let ghost before = self.entries.deep_view();
        let mut entries: Vec<(String, CachedImage)> = Vec::new();
        std::mem::swap(&mut entries, &mut self.entries);
        match found {
            Some(i) => {
                let old_entry = entries.remove(i);
                proof {
                    assert(entries.deep_view() =~= before.remove(i as int));
                    lemma_without_reference(before, reference@, i as int);
                    lemma_remove_keeps_wf(before, i as int);
                }
            },
            None => {
                proof {
                    lemma_without_reference(before, reference@, before.len() as int);
                }
            },
        }
        let ghost w = entries.deep_view();
        assert(w == without_reference(before, reference@));
        assert(index_wf(w) && !indexed(w, reference@));
        let at = chars_of(image.cached_at.as_str());
        let mut p: usize = 0;
        while p < entries.len() && !text_le_exec(&chars_of(entries[p].1.cached_at.as_str()), &at)
            invariant
                p <= entries.len(),
                w == entries.deep_view(),
                at@ == image.cached_at@,
                forall|j: int|
                    0 <= j < p ==> !text_le((#[trigger] w[j]).1.cached_at, image.cached_at@),
            decreases entries.len() - p,
        {
            assert(w[p as int].1.cached_at == entries[p as int].1.cached_at@);
            p += 1;
        }
        proof {
            if p < entries.len() {
                assert(w[p as int].1.cached_at == entries[p as int].1.cached_at@);
            }
            lemma_insert_position(w, image.cached_at@, p as int);
            lemma_insert_keeps_wf(w, p as int, (reference@, image.deep_view()));
        }
        let entry = (reference.to_string(), image.duplicate());
        entries.insert(p, entry);
        assert(entries.deep_view() =~= w.insert(p as int, (reference@, image.deep_view())));
        std::mem::swap(&mut entries, &mut self.entries);
        Ok(())
    }

    /// Removes what is cached for the reference. Says whether there was
    /// anything.
    pub fn remove(&mut self, reference: &str) -> (r: Result<bool, BoxliteError>)
        ensures
            r is Ok,
            index_wf(final(self).deep_view()),
            r matches Ok(removed) ==> removed == indexed(old(self).deep_view(), reference@),
            final(self).deep_view() == without_reference(old(self).deep_view(), reference@),
            !indexed(final(self).deep_view(), reference@),
    {
        proof {
            use_type_invariant(&*self);
        }
        match self.find(reference) {
            Some(i) => {
                let ghost before = self.entries.deep_view();
                let mut entries: Vec<(String, CachedImage)> = Vec::new();
                std::mem::swap(&mut entries, &mut self.entries);
                let gone = entries.remove(i);
                proof {
                    assert(entries.deep_view() =~= before.remove(i as int));
                    lemma_without_reference(before, reference@, i as int);
                    lemma_remove_keeps_wf(before, i as int);
                }
                std::mem::swap(&mut entries, &mut self.entries);
                Ok(true)
            },
            None => {
                proof {
                    lemma_without_reference(
                        self.entries.deep_view(),
                        reference@,
                        self.entries.deep_view().len() as int,
                    );
                }
                Ok(false)
            },
        }
    }

    /// How many references have an entry.
    pub fn len(&self) -> (r: Result<usize, BoxliteError>)
        ensures
            r matches Ok(n) && n == self.deep_view().len(),
    {
        Ok(self.entries.len())
    }

    pub fn is_empty(&self) -> (r: Result<bool, BoxliteError>)
        ensures
            r matches Ok(e) && e == (self.deep_view().len() == 0),
    {
        Ok(self.entries.len() == 0)
    }

    /// Every entry, newest first.
    pub fn list_all(&self) -> (r: Result<Vec<(String, CachedImage)>, BoxliteError>)
        ensures
            r matches Ok(all) && all.deep_view() == self.deep_view(),
            index_wf(self.deep_view()),
    {
        proof {
            use_type_invariant(self);
        }
        let mut all: Vec<(String, CachedImage)> = Vec::new();
        let mut i: usize = 0;
        while i < self.entries.len()
            invariant
                i <= self.entries.len(),
                all.len() == i,
                forall|j: int|
                    0 <= j < i ==> (#[trigger] all@[j]).deep_view()
                        == self.entries@[j].deep_view(),
            decreases self.entries.len() - i,
        {
            all.push((self.entries[i].0.clone(), self.entries[i].1.duplicate()));
            i += 1;
        }
        assert(all.deep_view() =~= self.entries.deep_view());
        Ok(all)
    }
}

// ============================================================================
// Laws of the index
// ============================================================================

/// What was written under a reference is what is found there, and it is
/// the only entry of the reference.
pub proof fn lemma_upsert_then_get(v: IndexView, reference: Seq<char>, image: CachedImageView)
    requires
        index_wf(v),
    ensures
        ({
            let after = upserted(v, reference, image);
            let p = insert_position(without_reference(v, reference), image.cached_at);
            &&& 0 <= p < after.len()
            &&& after[p] == (reference, image)
            &&& forall|i: int| 0 <= i < after.len() && (#[trigger] after[i]).0 == reference ==> i == p
            &&& after.len() == if indexed(v, reference) {
                v.len() as int
            } else {
                v.len() as int + 1
            }
        }),
{
    let w = without_reference(v, reference);
    lemma_without_shape(v, reference);
    lemma_insert_position_bounds(w, image.cached_at);
    let p = insert_position(w, image.cached_at);
    let after = w.insert(p, (reference, image));
    assert forall|i: int| 0 <= i < after.len() && (#[trigger] after[i]).0 == reference implies i
        == p by {
        if i != p {
            let i0 = if i < p { i } else { i - 1 };
            assert(after[i] == w[i0]);
            assert(w[i0].0 != reference);
        }
    }
}

/// Taking out a reference leaves no entry for it, keeps every other entry
/// in order, and takes out one entry at most.
pub proof fn lemma_without_shape(v: IndexView, reference: Seq<char>)
    requires
        index_wf(v),
    ensures
        !indexed(without_reference(v, reference), reference),
        index_wf(without_reference(v, reference)),
        without_reference(v, reference).len() == if indexed(v, reference) {
            v.len() - 1
        } else {
            v.len() as int
        },
{
    if indexed(v, reference) {
        let k = choose|k: int| 0 <= k < v.len() && (#[trigger] v[k]).0 == reference;
        assert forall|j: int| 0 <= j < k implies (#[trigger] v[j]).0 != reference by {
            assert(v[j].0 != v[k].0);
        }
        lemma_without_reference(v, reference, k);
        lemma_remove_keeps_wf(v, k);
    } else {
        lemma_without_reference(v, reference, v.len() as int);
    }
}

proof fn lemma_insert_position_bounds(v: IndexView, cached_at: Seq<char>)
    ensures
        0 <= insert_position(v, cached_at) <= v.len(),
    decreases v.len(),
{
    if v.len() > 0 && !text_le(v[0].1.cached_at, cached_at) {
        lemma_insert_position_bounds(v.drop_first(), cached_at);
    }
}

} // verus!
