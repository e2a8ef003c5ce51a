//! Pulling images: who fetches, who waits, and when to give up.
//!
//! Pulls of one digest are coalesced. The first pull of a digest fetches
//! it; a pull that begins while the fetch is under way waits for it and
//! fetches nothing. An image that is cached completely is served without
//! a fetch.
//!
//! A reference is resolved by asking the registries in order: the first
//! that answers wins, and none after it is asked.

use vstd::prelude::*;

use crate::images::layers_intact;
use crate::images::CachedImage;
use crate::text::chars_eq;
use crate::text::chars_of;

verus! {

/// How often a fetch is tried before the pull fails.
pub const PULL_ATTEMPTS: u32 = 3;

/// How long to wait after the first failed attempt, in milliseconds. The
/// wait doubles with every further attempt.
pub const PULL_BACKOFF_MS: u64 = 1000;

/// What a pull does.
#[derive(Clone, Copy, Debug, PartialEq, Eq, Structural)]
pub enum PullAction {
    /// The image is cached completely: serve it.
    Serve,
    /// Fetch the digest, then report the end of the fetch.
    Fetch,
    /// Another pull fetches the digest: wait for it.
    Wait,
}

/// The digests that are being fetched. No digest occurs twice.
#[derive(Debug)]
pub struct PullTable {
    in_flight: Vec<String>,
}

impl DeepView for PullTable {
    type V = Seq<Seq<char>>;

    /// The digests being fetched, in the order their fetches began.
    closed spec fn deep_view(&self) -> Seq<Seq<char>> {
        self.in_flight.deep_view()
    }
}

pub open spec fn distinct(s: Seq<Seq<char>>) -> bool {
    forall|i: int, j: int| 0 <= i < j < s.len() ==> #[trigger] s[i] != #[trigger] s[j]
}

/// What a pull of a digest does, given what is cached for the image and
/// which digests are being fetched.
pub open spec fn pull_decision(cached_complete: bool, in_flight: Seq<Seq<char>>, digest: Seq<char>) -> PullAction {
    if cached_complete {
        PullAction::Serve
    } else if in_flight.contains(digest) {
        PullAction::Wait
    } else {
        PullAction::Fetch
    }
}

/// The digests being fetched after a pull has made its decision.
pub open spec fn after_begin(cached_complete: bool, in_flight: Seq<Seq<char>>, digest: Seq<char>) -> Seq<
    Seq<char>,
> {
    if pull_decision(cached_complete, in_flight, digest) == PullAction::Fetch {
        in_flight.push(digest)
    } else {
        in_flight
    }
}

impl PullTable {
    #[verifier::type_invariant]
    spec fn well_formed(&self) -> bool {
        distinct(self.in_flight.deep_view())
    }

    pub fn new() -> (r: PullTable)
        ensures
            r.deep_view() == Seq::<Seq<char>>::empty(),
    {
        let r = PullTable { in_flight: Vec::new() };
        assert(r.in_flight.deep_view() =~= Seq::empty());
        r
    }

    fn position(&self, digest: &str) -> (r: Option<usize>)
        ensures
            match r {
                Some(i) => i < self.deep_view().len() && self.deep_view()[i as int] == digest@,
                None => !self.deep_view().contains(digest@),
            },
    {
        let wanted = chars_of(digest);
        let mut i: usize = 0;
        while i < self.in_flight.len()
            invariant
                i <= self.in_flight.len(),
                wanted@ == digest@,
                forall|j: int| 0 <= j < i ==> #[trigger] self.deep_view()[j] != digest@,
            decreases self.in_flight.len() - i,
        {
            if chars_eq(&chars_of(self.in_flight[i].as_str()), &wanted) {
                assert(self.deep_view()[i as int] == self.in_flight[i as int]@);
                return Some(i);
            }
            i += 1;
        }
        None
    }

    /// Whether the digest is being fetched.
    pub fn is_in_flight(&self, digest: &str) -> (r: bool)
        ensures
            r == self.deep_view().contains(digest@),
    {
        self.position(digest).is_some()
    }

    /// Begins a pull of the digest of an image, given what is cached for
    /// the image. Where the pull is to fetch, the digest counts as being
    /// fetched from now on.
    pub fn begin(&mut self, cached: Option<&CachedImage>, digest: &str) -> (r: PullAction)
        ensures
            distinct(final(self).deep_view()),
            r == pull_decision(
                cached matches Some(c) && c.complete,
                old(self).deep_view(),
                digest@,
            ),
            final(self).deep_view() == after_begin(
                cached matches Some(c) && c.complete,
                old(self).deep_view(),
                digest@,
            ),
    {
        proof {
            use_type_invariant(&*self);
        }
        let complete = match cached {
            Some(c) => c.complete,
            None => false,
        };
        if complete {
            return PullAction::Serve;
        }
        if self.position(digest).is_some() {
            return PullAction::Wait;
        }
        let ghost before = self.in_flight.deep_view();
        let mut digests: Vec<String> = Vec::new();
        std::mem::swap(&mut digests, &mut self.in_flight);
        digests.push(digest.to_string());
        proof {
            let after = digests.deep_view();
            assert(after =~= before.push(digest@));
            assert forall|i: int, j: int| 0 <= i < j < after.len() implies #[trigger] after[i]
                != #[trigger] after[j] by {
                if j == before.len() {
                    assert(before.contains(before[i]));
                }
            }
        }
        std::mem::swap(&mut digests, &mut self.in_flight);
        PullAction::Fetch
    }

    /// Ends the fetch of a digest, whether it succeeded or not. The next
    /// pull of the digest fetches again unless the image is cached
    /// completely by then. Says whether the digest was being fetched.
    pub fn finish(&mut self, digest: &str) -> (r: bool)
        ensures
            distinct(final(self).deep_view()),
            r == old(self).deep_view().contains(digest@),
            !final(self).deep_view().contains(digest@),
            r ==> exists|i: int|
                0 <= i < old(self).deep_view().len() && #[trigger] old(self).deep_view()[i]
                    == digest@ && final(self).deep_view() == old(self).deep_view().remove(i),
            !r ==> final(self).deep_view() == old(self).deep_view(),
    {
        proof {
            use_type_invariant(&*self);
        }
        match self.position(digest) {
            None => false,
            Some(i) => {
                let ghost before = self.in_flight.deep_view();
                let mut digests: Vec<String> = Vec::new();
                std::mem::swap(&mut digests, &mut self.in_flight);
                let gone = digests.remove(i);
                proof {
                    let after = digests.deep_view();
                    assert(after =~= before.remove(i as int));
                    assert forall|a: int, b: int| 0 <= a < b < after.len() implies #[trigger] after[a]
                        != #[trigger] after[b] by {
                        let a0 = if a < i { a } else { a + 1 };
                        let b0 = if b < i { b } else { b + 1 };
                        assert(after[a] == before[a0] && after[b] == before[b0]);
                    }
                    assert forall|a: int| 0 <= a < after.len() implies #[trigger] after[a]
                        != digest@ by {
                        let a0 = if a < i { a } else { a + 1 };
                        assert(after[a] == before[a0]);
                        if a0 < i {
                            assert(before[a0] != before[i as int]);
                        } else {
                            assert(before[i as int] != before[a0]);
                        }
                    }
                    assert(before.contains(before[i as int]));
                }
                std::mem::swap(&mut digests, &mut self.in_flight);
                true
            },
        }
    }
}

/// One fetch for each digest: once a pull of a digest fetches, every pull
/// of that digest that begins before the fetch has ended waits, however
/// many there are, and the table does not change.
pub proof fn lemma_single_flight(in_flight: Seq<Seq<char>>, digest: Seq<char>)
    requires
        !in_flight.contains(digest),
    ensures
        ({
            let during = after_begin(false, in_flight, digest);
            &&& pull_decision(false, in_flight, digest) == PullAction::Fetch
            &&& pull_decision(false, during, digest) == PullAction::Wait
            &&& after_begin(false, during, digest) == during
        }),
{
    let during = in_flight.push(digest);
    assert(during[in_flight.len() as int] == digest);
}

/// An image that is cached completely is served without a fetch, whatever
/// is being fetched.
pub proof fn lemma_complete_image_is_served(in_flight: Seq<Seq<char>>, digest: Seq<char>)
    ensures
        pull_decision(true, in_flight, digest) == PullAction::Serve,
        after_begin(true, in_flight, digest) == in_flight,
{
}

/// The digests being fetched after `n` pulls of one digest have begun, one
/// after the other, and none has ended.
pub open spec fn after_pulls(cached_complete: bool, in_flight: Seq<Seq<char>>, digest: Seq<char>, n: nat) -> Seq<
    Seq<char>,
>
    decreases n,
{
    if n == 0 {
        in_flight
    } else {
        after_begin(
            cached_complete,
            after_pulls(cached_complete, in_flight, digest, (n - 1) as nat),
            digest,
        )
    }
}

/// How many of `n` pulls of one digest, begun one after the other while
/// none has ended, are told to fetch.
pub open spec fn fetches(cached_complete: bool, in_flight: Seq<Seq<char>>, digest: Seq<char>, n: nat) -> nat
    decreases n,
{
    if n == 0 {
        0
    } else {
        let before = after_pulls(cached_complete, in_flight, digest, (n - 1) as nat);
        fetches(cached_complete, in_flight, digest, (n - 1) as nat) + (if pull_decision(
            cached_complete,
            before,
            digest,
        ) == PullAction::Fetch {
            1nat
        } else {
            0nat
        })
    }
}

/// Of any number of pulls of one digest that begin before a fetch of it
/// has ended, exactly one is told to fetch, the first, where the digest
/// was not being fetched; none is where it was, or where the image is
/// cached completely. The others wait, and the digest is in the table
/// once.
pub proof fn lemma_pulls_fetch_once(in_flight: Seq<Seq<char>>, digest: Seq<char>, n: nat)
    requires
        n >= 1,
    ensures
        !in_flight.contains(digest) ==> fetches(false, in_flight, digest, n) == 1 && after_pulls(
            false,
            in_flight,
            digest,
            n,
        ) == in_flight.push(digest),
        in_flight.contains(digest) ==> fetches(false, in_flight, digest, n) == 0 && after_pulls(
            false,
            in_flight,
            digest,
            n,
        ) == in_flight,
        fetches(true, in_flight, digest, n) == 0,
        after_pulls(true, in_flight, digest, n) == in_flight,
    decreases n,
{
    let during = in_flight.push(digest);
    assert(during[in_flight.len() as int] == digest);
    if n > 1 {
        lemma_pulls_fetch_once(in_flight, digest, (n - 1) as nat);
    } else {
        assert(after_pulls(false, in_flight, digest, 0) == in_flight);
        assert(after_pulls(true, in_flight, digest, 0) == in_flight);
        assert(fetches(false, in_flight, digest, 0) == 0);
        assert(fetches(true, in_flight, digest, 0) == 0);
    }
}

/// A damaged layer is never served: an image settled with a layer that is
/// missing or damaged is not complete, so a pull of it fetches or waits
/// for a fetch, and serves nothing from the cache; an image whose layers
/// are all intact is served without a fetch.
pub proof fn lemma_damaged_image_is_not_served(
    layers: Seq<Seq<char>>,
    archives: Seq<Option<Seq<u8>>>,
    in_flight: Seq<Seq<char>>,
    digest: Seq<char>,
)
    ensures
        pull_decision(layers_intact(layers, archives), in_flight, digest) == PullAction::Serve
            <==> layers_intact(layers, archives),
{
}

/// What to do after a failed attempt to fetch.
#[derive(Clone, Copy, Debug, PartialEq, Eq, Structural)]
pub enum RetryAction {
    /// Wait, then try again.
    RetryAfter { millis: u64 },
    /// Give up: the pull fails with one error.
    GiveUp,
}

/// After the first failed attempt the fetch is tried again after a second,
/// after the second after two seconds; after the third the pull gives up.
/// `attempt` counts the attempts made so far, from 1.
pub open spec fn retry_decision(attempt: u32) -> RetryAction {
    if attempt == 0 {
        RetryAction::RetryAfter { millis: 0 }
    } else if attempt == 1 {
        RetryAction::RetryAfter { millis: PULL_BACKOFF_MS }
    } else if attempt == 2 {
        RetryAction::RetryAfter { millis: (2 * PULL_BACKOFF_MS) as u64 }
    } else {
        RetryAction::GiveUp
    }
}

/// What to do after the given number of failed attempts to fetch.
pub fn after_failed_attempt(attempt: u32) -> (r: RetryAction)
    ensures
        r == retry_decision(attempt),
        attempt >= PULL_ATTEMPTS ==> r == RetryAction::GiveUp,
{
    if attempt == 0 {
        RetryAction::RetryAfter { millis: 0 }
    } else if attempt == 1 {
        RetryAction::RetryAfter { millis: PULL_BACKOFF_MS }
    } else if attempt == 2 {
        RetryAction::RetryAfter { millis: 2 * PULL_BACKOFF_MS }
    } else {
        RetryAction::GiveUp
    }
}

// ============================================================================
// Resolving a reference
// ============================================================================

/// What resolving a reference does next.
#[derive(Clone, Debug, PartialEq, Eq)]
pub enum ResolveAction {
    /// Ask the registry at this position of the list.
    Ask { registry: usize },
    /// The reference stands for this image.
    Resolved { image: String },
    /// Every registry was asked and none knows the reference.
    Failed,
}

pub enum ResolveActionView {
    Ask { registry: usize },
    Resolved { image: Seq<char> },
    Failed,
}

impl DeepView for ResolveAction {
    type V = ResolveActionView;

    open spec fn deep_view(&self) -> ResolveActionView {
        match self {
            ResolveAction::Ask { registry } => ResolveActionView::Ask { registry: *registry },
            ResolveAction::Resolved { image } => ResolveActionView::Resolved { image: image@ },
            ResolveAction::Failed => ResolveActionView::Failed,
        }
    }
}

/// The first answer among those given so far. `answers[i]` is what
/// registry `i` said: the image, or nothing where it does not know the
/// reference.
pub open spec fn first_answer(answers: Seq<Option<Seq<char>>>) -> Option<Seq<char>>
    decreases answers.len(),
{
    if answers.len() == 0 {
        None
    } else {
        match first_answer(answers.drop_last()) {
            Some(image) => Some(image),
            None => answers.last(),
        }
    }
}

/// What to do next, given how many registries there are and what those
/// asked so far have said: the first answer resolves the reference; with
/// no answer yet the next registry is asked; when none is left the
/// reference cannot be resolved.
pub open spec fn resolve_decision(registries: nat, answers: Seq<Option<Seq<char>>>) -> ResolveActionView {
    match first_answer(answers) {
        Some(image) => ResolveActionView::Resolved { image },
        None => if answers.len() < registries {
            ResolveActionView::Ask { registry: answers.len() as usize }
        } else {
            ResolveActionView::Failed
        },
    }
}

/// The next step of resolving a reference with the given registries,
/// given what the registries asked so far have said, in order.
pub fn resolve(registries: &Vec<String>, answers: &Vec<Option<String>>) -> (r: ResolveAction)
    ensures
        r.deep_view() == resolve_decision(registries.len() as nat, answers.deep_view()),
{
    let mut i: usize = 0;
    assert(answers.deep_view().take(0) =~= Seq::empty());
    while i < answers.len()
        invariant
            i <= answers.len(),
            first_answer(answers.deep_view().take(i as int)) is None,
        decreases answers.len() - i,
    {
        proof {
            let upto = answers.deep_view().take(i + 1);
            assert(upto.drop_last() =~= answers.deep_view().take(i as int));
            assert(upto.last() == answers[i as int].deep_view());
        }
        match &answers[i] {
            Some(image) => {
                proof {
                    lemma_first_answer_stays(answers.deep_view(), i + 1);
                }
                return ResolveAction::Resolved { image: image.clone() };
            },
            None => {},
        }
        i += 1;
    }
    assert(answers.deep_view().take(i as int) =~= answers.deep_view());
    if answers.len() < registries.len() {
        ResolveAction::Ask { registry: answers.len() }
    } else {
        ResolveAction::Failed
    }
}

/// An answer, once given, stays the first: what registries say later
/// changes nothing.
pub proof fn lemma_first_answer_stays(answers: Seq<Option<Seq<char>>>, n: int)
    requires
        0 <= n <= answers.len(),
        first_answer(answers.take(n)) is Some,
    ensures
        first_answer(answers) == first_answer(answers.take(n)),
    decreases answers.len() - n,
{
    if n == answers.len() {
        assert(answers.take(n) =~= answers);
    } else {
        assert(answers.take(n + 1).drop_last() =~= answers.take(n));
        lemma_first_answer_stays(answers, n + 1);
    }
}

/// The first success wins: where registry `i` answers and none before it
/// did, the reference resolves to what registry `i` said, whatever the
/// registries after it say. Until then the registries are asked in order.
pub proof fn lemma_first_success_wins(registries: nat, answers: Seq<Option<Seq<char>>>, i: int)
    requires
        0 <= i < answers.len() <= registries,
        answers[i] is Some,
        forall|j: int| 0 <= j < i ==> #[trigger] answers[j] is None,
    ensures
        resolve_decision(registries, answers) == (ResolveActionView::Resolved {
            image: answers[i]->0,
        }),
        resolve_decision(registries, answers.take(i)) == (ResolveActionView::Ask {
            registry: i as usize,
        }),
{
    lemma_no_answer(answers.take(i));
    assert(answers.take(i + 1).drop_last() =~= answers.take(i));
    assert(answers.take(i + 1).last() == answers[i]);
    lemma_first_answer_stays(answers, i + 1);
}

/// Where no registry has answered there is no first answer.
proof fn lemma_no_answer(answers: Seq<Option<Seq<char>>>)
    requires
        forall|j: int| 0 <= j < answers.len() ==> #[trigger] answers[j] is None,
    ensures
        first_answer(answers) is None,
    decreases answers.len(),
{
    if answers.len() > 0 {
        lemma_no_answer(answers.drop_last());
    }
}

} // verus!
