use vstd::prelude::*;

use crate::strings::str_eq;

verus! {

/// Who is trying to log in: the user name and, when known, the address.
#[derive(Debug, Clone, PartialEq, Eq, Hash)]
pub struct LoginRateLimitKey {
    pub username: String,
    pub ip: Option<String>,
}

/// A key as plain values.
pub open spec fn key_view(k: LoginRateLimitKey) -> (Seq<char>, Option<Seq<char>>) {
    (
        k.username@,
        match k.ip {
            Some(ip) => Some(ip@),
            None => None,
        },
    )
}

#[derive(Debug, Clone, Copy, PartialEq, Eq, Structural)]
pub enum LoginRateLimitDecision {
    Allowed,
    Limited,
}

/// Counts failed logins per key and limits a key once its count reaches the
/// maximum.
pub struct InMemoryLoginRateLimiter {
    max_failures: u32,
    failures: Vec<(LoginRateLimitKey, u32)>,
    /// The calls recorded so far, oldest first: `(true, k)` a failure of `k`,
    /// `(false, k)` a success.
    history: Ghost<Seq<(bool, (Seq<char>, Option<Seq<char>>))>>,
}

/// The failure counts of a list of entries, by key.
pub open spec fn counts_map(entries: Seq<(LoginRateLimitKey, u32)>) -> Map<
    (Seq<char>, Option<Seq<char>>),
    u32,
>
    decreases entries.len(),
{
    if entries.len() == 0 {
        Map::empty()
    } else {
        counts_map(entries.drop_last()).insert(key_view(entries.last().0), entries.last().1)
    }
}

pub open spec fn keys_unique(entries: Seq<(LoginRateLimitKey, u32)>) -> bool {
    forall|i: int, j: int|
        0 <= i < entries.len() && 0 <= j < entries.len() && i != j ==> key_view(
            (#[trigger] entries[i]).0,
        ) != key_view((#[trigger] entries[j]).0)
}

proof fn lemma_counts_map(entries: Seq<(LoginRateLimitKey, u32)>)
    ensures
        forall|k: (Seq<char>, Option<Seq<char>>)|
            #[trigger] counts_map(entries).dom().contains(k) <==> exists|j: int|
                0 <= j < entries.len() && key_view((#[trigger] entries[j]).0) == k,
        keys_unique(entries) ==> forall|j: int|
            0 <= j < entries.len() ==> counts_map(entries)[key_view((#[trigger] entries[j]).0)]
                == entries[j].1,
    decreases entries.len(),
{
    if entries.len() > 0 {
        let front = entries.drop_last();
        lemma_counts_map(front);
        assert forall|k: (Seq<char>, Option<Seq<char>>)|
            #[trigger] counts_map(entries).dom().contains(k) <==> exists|j: int|
                0 <= j < entries.len() && key_view((#[trigger] entries[j]).0) == k by {
            if counts_map(entries).dom().contains(k) && k != key_view(entries.last().0) {
                assert(counts_map(front).dom().contains(k));
                let j = choose|j: int| 0 <= j < front.len() && key_view((#[trigger] front[j]).0) == k;
                assert(entries[j] == front[j]);
            }
            if exists|j: int| 0 <= j < entries.len() && key_view((#[trigger] entries[j]).0) == k {
                let j = choose|j: int| 0 <= j < entries.len() && key_view((#[trigger] entries[j]).0) == k;
                if j < entries.len() - 1 {
                    assert(front[j] == entries[j]);
                    assert(counts_map(front).dom().contains(k));
                } else {
                    assert(entries[j] == entries.last());
                }
            }
        }
        if keys_unique(entries) {
            assert(keys_unique(front)) by {
                assert forall|i: int, j: int|
                    0 <= i < front.len() && 0 <= j < front.len() && i != j implies key_view(
                        (#[trigger] front[i]).0,
                    ) != key_view((#[trigger] front[j]).0) by {
                    assert(front[i] == entries[i]);
                    assert(front[j] == entries[j]);
                }
            }
            assert forall|j: int| 0 <= j < entries.len() implies counts_map(entries)[key_view(
                (#[trigger] entries[j]).0,
            )] == entries[j].1 by {
                if j < entries.len() - 1 {
                    assert(front[j] == entries[j]);
                    assert(key_view(entries[j].0) != key_view(entries[entries.len() - 1].0));
                } else {
                    assert(entries[j] == entries.last());
                }
            }
        }
    }
}

fn opt_str_eq(a: &Option<String>, b: &Option<String>) -> (eq: bool)
    ensures
        eq == ((match *a {
            Some(s) => Some(s@),
            None => None,
        }) == (match *b {
            Some(s) => Some(s@),
            None => None,
        })),
{
    match (a, b) {
        (Some(x), Some(y)) => str_eq(x.as_str(), y.as_str()),
        (None, None) => true,
        _ => false,
    }
}

fn clone_key(k: &LoginRateLimitKey) -> (c: LoginRateLimitKey)
    ensures
        key_view(c) == key_view(*k),
{
    let ip = match &k.ip {
        Some(ip) => Some(ip.clone()),
        None => None,
    };
    LoginRateLimitKey { username: k.username.clone(), ip }
}

fn key_eq(a: &LoginRateLimitKey, b: &LoginRateLimitKey) -> (eq: bool)
    ensures
        eq == (key_view(*a) == key_view(*b)),
{
    str_eq(a.username.as_str(), b.username.as_str()) && opt_str_eq(&a.ip, &b.ip)
}

/// The failure count of a key: what is recorded, or zero.
pub open spec fn count_of(counts: Map<(Seq<char>, Option<Seq<char>>), u32>, k: (Seq<char>, Option<Seq<char>>)) -> u32 {
    if counts.dom().contains(k) {
        counts[k]
    } else {
        0
    }
}

impl InMemoryLoginRateLimiter {
    #[verifier::type_invariant]
    spec fn wf(self) -> bool {
        &&& keys_unique(self.failures@)
        &&& forall|k: (Seq<char>, Option<Seq<char>>)|
            #![trigger count_of(counts_map(self.failures@), k)]
            #![trigger failures_since_success(self.history@, k)]
            count_of(counts_map(self.failures@), k) == failures_since_success(self.history@, k)
    }

    /// The failures and successes recorded so far, oldest first.
    pub closed spec fn history(self) -> Seq<(bool, (Seq<char>, Option<Seq<char>>))> {
        self.history@
    }

    /// The recorded failure counts, by key.
    pub closed spec fn counts(self) -> Map<(Seq<char>, Option<Seq<char>>), u32> {
        counts_map(self.failures@)
    }

    pub closed spec fn max(self) -> u32 {
        self.max_failures
    }

    /// The verdict on a key whose count is `count`.
    pub open spec fn decision_for(max_failures: u32, count: u32) -> LoginRateLimitDecision {
        if count >= max_failures {
            LoginRateLimitDecision::Limited
        } else {
            LoginRateLimitDecision::Allowed
        }
    }

    pub fn new(max_failures: u32) -> (l: Self)
        ensures
            l.counts() == Map::<(Seq<char>, Option<Seq<char>>), u32>::empty(),
            l.max() == max_failures,
            l.history() == Seq::<(bool, (Seq<char>, Option<Seq<char>>))>::empty(),
    {
        InMemoryLoginRateLimiter { max_failures, failures: Vec::new(), history: Ghost(Seq::empty()) }
    }

    fn find(&self, key: &LoginRateLimitKey) -> (pos: Option<usize>)
        ensures
            match pos {
                Some(i) => i < self.failures@.len() && key_view(self.failures@[i as int].0)
                    == key_view(*key),
                None => forall|j: int|
                    0 <= j < self.failures@.len() ==> key_view((#[trigger] self.failures@[j]).0)
                        != key_view(*key),
            },
    {
        let mut i: usize = 0;
        while i < self.failures.len()
            invariant
                i <= self.failures@.len(),
                forall|j: int|
                    0 <= j < i ==> key_view((#[trigger] self.failures@[j]).0) != key_view(*key),
            decreases self.failures@.len() - i,
        {
            if key_eq(&self.failures[i].0, key) {
                return Some(i);
            }
            i = i + 1;
        }
        None
    }

    fn count(&self, key: &LoginRateLimitKey) -> (c: u32)
        ensures
            c == count_of(self.counts(), key_view(*key)),
    {
        proof {
            use_type_invariant(self);
            lemma_counts_map(self.failures@);
        }
        match self.find(key) {
            Some(i) => self.failures[i].1,
            None => 0,
        }
    }

    /// Limited once the key's failures reach the maximum.
    pub fn check(&self, key: &LoginRateLimitKey) -> (d: LoginRateLimitDecision)
        ensures
            d == Self::decision_for(self.max(), count_of(self.counts(), key_view(*key))),
            d == (if failures_since_success(self.history(), key_view(*key)) >= self.max() {
                LoginRateLimitDecision::Limited
            } else {
                LoginRateLimitDecision::Allowed
            }),
    {
        proof {
            use_type_invariant(self);
            assert(count_of(counts_map(self.failures@), key_view(*key)) == failures_since_success(self.history@, key_view(*key)));
        }
        if self.count(key) >= self.max_failures {
            LoginRateLimitDecision::Limited
        } else {
            LoginRateLimitDecision::Allowed
        }
    }

    /// Counts one more failure for `key` and gives the verdict that follows.
    pub fn record_failure(&mut self, key: LoginRateLimitKey) -> (d: LoginRateLimitDecision)
        requires
            count_of(old(self).counts(), key_view(key)) < u32::MAX,
        ensures
            final(self).counts() == old(self).counts().insert(
                key_view(key),
                (count_of(old(self).counts(), key_view(key)) + 1) as u32,
            ),
            final(self).max() == old(self).max(),
            final(self).history() == old(self).history().push((true, key_view(key))),
            d == Self::decision_for(final(self).max(), count_of(final(self).counts(), key_view(key))),
    {
        proof {
            use_type_invariant(&*self);
            lemma_counts_map(self.failures@);
        }
        let ghost old_entries = self.failures@;
        let ghost old_map = self.counts();
        let ghost k = key_view(key);
        let ghost old_history = self.history@;
        let pos = self.find(&key);
        let max_failures = self.max_failures;
        let mut taken = InMemoryLoginRateLimiter::new(max_failures);
        std::mem::swap(&mut taken, self);
        let InMemoryLoginRateLimiter { failures, .. } = taken;
        let mut failures = failures;
        let ghost new_count: u32;
        match pos {
            Some(i) => {
                let c = failures[i].1;
                let entry_key = clone_key(&failures[i].0);
                failures.set(i, (entry_key, c + 1));
                proof { new_count = (c + 1) as u32; }
            },
            None => {
                failures.push((clone_key(&key), 1));
                proof { new_count = 1; }
            },
        }
        proof {
            let t = failures@;
            assert(new_count == (count_of(old_map, k) + 1) as u32);
            assert(keys_unique(t)) by {
                assert forall|a: int, b: int|
                    0 <= a < t.len() && 0 <= b < t.len() && a != b implies key_view((#[trigger] t[a]).0)
                        != key_view((#[trigger] t[b]).0) by {
                    if key_view(t[a].0) == k {
                        if b < old_entries.len() {
                            assert(t[b] == old_entries[b]);
                        }
                    } else if key_view(t[b].0) == k {
                        assert(t[a] == old_entries[a]);
                    } else {
                        assert(t[a] == old_entries[a]);
                        assert(t[b] == old_entries[b]);
                    }
                }
            }
            lemma_counts_map(t);
            assert forall|q: (Seq<char>, Option<Seq<char>>)| #[trigger] counts_map(t).dom().contains(q) == old_map.insert(k, new_count).dom().contains(q) by {
                if counts_map(t).dom().contains(q) {
                    let j = choose|j: int| 0 <= j < t.len() && key_view((#[trigger] t[j]).0) == q;
                    if q != k {
                        assert(t[j] == old_entries[j]);
                    }
                }
                if old_map.dom().contains(q) && q != k {
                    let j = choose|j: int| 0 <= j < old_entries.len() && key_view((#[trigger] old_entries[j]).0) == q;
                    assert(t[j] == old_entries[j]);
                }
                if q == k {
                    match pos {
                        Some(i) => { assert(key_view(t[i as int].0) == k); },
                        None => { assert(key_view(t[old_entries.len() as int].0) == k); },
                    }
                }
            }
            assert forall|q: (Seq<char>, Option<Seq<char>>)| #[trigger] counts_map(t).dom().contains(q) implies counts_map(t)[q] == old_map.insert(k, new_count)[q] by {
                let j = choose|j: int| 0 <= j < t.len() && key_view((#[trigger] t[j]).0) == q;
                if q != k {
                    assert(t[j] == old_entries[j]);
                }
            }
            assert(counts_map(t) =~= old_map.insert(k, new_count));
            let h = old_history.push((true, k));
            assert(h.drop_last() =~= old_history);
            assert forall|q: (Seq<char>, Option<Seq<char>>)|
                #[trigger] count_of(counts_map(t), q) == failures_since_success(h, q) by {
                assert(count_of(old_map, q) == failures_since_success(old_history, q));
            }
        }
        *self = InMemoryLoginRateLimiter {
            max_failures,
            failures,
            history: Ghost(old_history.push((true, key_view(key)))),
        };
        self.check(&key)
    }

    /// Forgets the failures of `key`.
    pub fn record_success(&mut self, key: &LoginRateLimitKey)
        ensures
            final(self).counts() == old(self).counts().remove(key_view(*key)),
            final(self).max() == old(self).max(),
            final(self).history() == old(self).history().push((false, key_view(*key))),
    {
        proof {
            use_type_invariant(&*self);
            lemma_counts_map(self.failures@);
        }
        let ghost old_entries = self.failures@;
        let ghost old_map = self.counts();
        let ghost k = key_view(*key);
        let ghost old_history = self.history@;
        let ghost h = old_history.push((false, k));
        proof {
            assert(h.drop_last() =~= old_history);
        }
        let pos = self.find(key);
        let max_failures = self.max_failures;
        let mut taken = InMemoryLoginRateLimiter::new(max_failures);
        std::mem::swap(&mut taken, self);
        let InMemoryLoginRateLimiter { failures, .. } = taken;
        let mut failures = failures;
        match pos {
            Some(i) => {
                failures.remove(i);
                proof {
                    let t = failures@;
                    assert forall|j: int| 0 <= j < t.len() implies #[trigger] t[j] == old_entries[if j < i { j } else { j + 1 }] by {}
                    assert(keys_unique(t)) by {
                        assert forall|a: int, b: int|
                            0 <= a < t.len() && 0 <= b < t.len() && a != b implies key_view((#[trigger] t[a]).0)
                                != key_view((#[trigger] t[b]).0) by {
                            let a2 = if a < i { a } else { a + 1 };
                            let b2 = if b < i { b } else { b + 1 };
                            assert(t[a] == old_entries[a2]);
                            assert(t[b] == old_entries[b2]);
                        }
                    }
                    lemma_counts_map(t);
                    assert forall|q: (Seq<char>, Option<Seq<char>>)| #[trigger] counts_map(t).dom().contains(q) == old_map.remove(k).dom().contains(q) by {
                        if counts_map(t).dom().contains(q) {
                            let j = choose|j: int| 0 <= j < t.len() && key_view((#[trigger] t[j]).0) == q;
                            let j2 = if j < i { j } else { j + 1 };
                            assert(t[j] == old_entries[j2]);
                            assert(j2 != i);
                        }
                        if old_map.dom().contains(q) && q != k {
                            let j = choose|j: int| 0 <= j < old_entries.len() && key_view((#[trigger] old_entries[j]).0) == q;
                            assert(j != i);
                            let j1 = if j < i { j } else { j - 1 };
                            assert(t[j1] == old_entries[j]);
                        }
                    }
                    assert forall|q: (Seq<char>, Option<Seq<char>>)| #[trigger] counts_map(t).dom().contains(q) implies counts_map(t)[q] == old_map.remove(k)[q] by {
                        let j = choose|j: int| 0 <= j < t.len() && key_view((#[trigger] t[j]).0) == q;
                        let j2 = if j < i { j } else { j + 1 };
                        assert(t[j] == old_entries[j2]);
                    }
                    assert(counts_map(t) =~= old_map.remove(k));
                }
            },
            None => {
                proof {
                    assert(!old_map.dom().contains(k)) by {
                        if old_map.dom().contains(k) {
                            let j = choose|j: int| 0 <= j < old_entries.len() && key_view((#[trigger] old_entries[j]).0) == k;
                        }
                    }
                    assert(old_map.remove(k) =~= old_map);
                }
            },
        }
        proof {
            assert(counts_map(failures@) =~= old_map.remove(k));
            assert forall|q: (Seq<char>, Option<Seq<char>>)|
                #[trigger] count_of(counts_map(failures@), q) == failures_since_success(h, q) by {
                assert(count_of(old_map, q) == failures_since_success(old_history, q));
            }
        }
        *self = InMemoryLoginRateLimiter { max_failures, failures, history: Ghost(h) };
    }
}

/// The failure counts after `n` more failures of the key `k`, each recorded
/// as `record_failure` records it.
pub open spec fn counts_after_failures(
    counts: Map<(Seq<char>, Option<Seq<char>>), u32>,
    k: (Seq<char>, Option<Seq<char>>),
    n: nat,
) -> Map<(Seq<char>, Option<Seq<char>>), u32>
    decreases n,
{
    if n == 0 {
        counts
    } else {
        let before = counts_after_failures(counts, k, (n - 1) as nat);
        before.insert(k, (count_of(before, k) + 1) as u32)
    }
}

/// Each failure adds one to the key's count and leaves every other key's
/// count as it was.
pub proof fn lemma_failures_add_up(
    counts: Map<(Seq<char>, Option<Seq<char>>), u32>,
    k: (Seq<char>, Option<Seq<char>>),
    other: (Seq<char>, Option<Seq<char>>),
    n: nat,
)
    requires
        count_of(counts, k) + n <= u32::MAX,
    ensures
        count_of(counts_after_failures(counts, k, n), k) == count_of(counts, k) + n,
        other != k ==> count_of(counts_after_failures(counts, k, n), other) == count_of(counts, other),
    decreases n,
{
    if n > 0 {
        lemma_failures_add_up(counts, k, other, (n - 1) as nat);
    }
}

/// Repeated failures are eventually limited: once a key has failed as many
/// times as the limiter allows, whatever it had failed before, it is limited.
pub proof fn lemma_repeated_failures_limited(
    counts: Map<(Seq<char>, Option<Seq<char>>), u32>,
    k: (Seq<char>, Option<Seq<char>>),
    max_failures: u32,
    n: nat,
)
    requires
        n >= max_failures,
        count_of(counts, k) + n <= u32::MAX,
    ensures
        InMemoryLoginRateLimiter::decision_for(
            max_failures,
            count_of(counts_after_failures(counts, k, n), k),
        ) == LoginRateLimitDecision::Limited,
{
    lemma_failures_add_up(counts, k, k, n);
}

/// A success clears the key: with a limit above zero it is allowed again,
/// however often it had failed, and no other key's count moves.
pub proof fn lemma_success_clears_key(
    counts: Map<(Seq<char>, Option<Seq<char>>), u32>,
    k: (Seq<char>, Option<Seq<char>>),
    other: (Seq<char>, Option<Seq<char>>),
    max_failures: u32,
)
    requires
        max_failures > 0,
    ensures
        InMemoryLoginRateLimiter::decision_for(max_failures, count_of(counts.remove(k), k))
            == LoginRateLimitDecision::Allowed,
        other != k ==> count_of(counts.remove(k), other) == count_of(counts, other),
{
}

/// The failure counts after a history of calls, oldest first: `(true, k)` is
/// a failure of `k` recorded as `record_failure` records it, `(false, k)` a
/// success recorded as `record_success` records it.
pub open spec fn counts_after_history(
    counts: Map<(Seq<char>, Option<Seq<char>>), u32>,
    history: Seq<(bool, (Seq<char>, Option<Seq<char>>))>,
) -> Map<(Seq<char>, Option<Seq<char>>), u32>
    decreases history.len(),
{
    if history.len() == 0 {
        counts
    } else {
        let before = counts_after_history(counts, history.drop_last());
        let k = history.last().1;
        if history.last().0 {
            before.insert(k, (count_of(before, k) + 1) as u32)
        } else {
            before.remove(k)
        }
    }
}

/// The failures of `k` in a history since its last success, or since the
/// start when it has none.
pub open spec fn failures_since_success(
    history: Seq<(bool, (Seq<char>, Option<Seq<char>>))>,
    k: (Seq<char>, Option<Seq<char>>),
) -> nat
    decreases history.len(),
{
    if history.len() == 0 {
        0
    } else {
        let before = failures_since_success(history.drop_last(), k);
        if history.last().1 != k {
            before
        } else if history.last().0 {
            before + 1
        } else {
            0
        }
    }
}

/// A limiter's verdict is decided by its history alone: from a new limiter,
/// after any sequence of failures and successes, a key's count is its number
/// of failures since its last success, and the key is limited exactly when
/// that number has reached the maximum (so a limiter made with a maximum of 0
/// limits every key). Every failure in such a history is one that
/// `record_failure` accepts: the key's count before it is below `u32::MAX`.
pub proof fn lemma_history_decides(
    history: Seq<(bool, (Seq<char>, Option<Seq<char>>))>,
    k: (Seq<char>, Option<Seq<char>>),
    max_failures: u32,
)
    requires
        history.len() <= u32::MAX,
    ensures
        count_of(counts_after_history(Map::empty(), history), k) == failures_since_success(history, k),
        failures_since_success(history, k) <= history.len(),
        InMemoryLoginRateLimiter::decision_for(
            max_failures,
            count_of(counts_after_history(Map::empty(), history), k),
        ) == (if failures_since_success(history, k) >= max_failures {
            LoginRateLimitDecision::Limited
        } else {
            LoginRateLimitDecision::Allowed
        }),
        forall|i: int|
            0 <= i < history.len() && (#[trigger] history[i]).0 ==> count_of(
                counts_after_history(Map::empty(), history.subrange(0, i)),
                history[i].1,
            ) < u32::MAX,
    decreases history.len(),
{
    if history.len() > 0 {
        let front = history.drop_last();
        lemma_history_decides(front, k, max_failures);
        lemma_history_decides(front, history.last().1, max_failures);
        assert forall|i: int|
            0 <= i < history.len() && (#[trigger] history[i]).0 implies count_of(
                counts_after_history(Map::empty(), history.subrange(0, i)),
                history[i].1,
            ) < u32::MAX by {
            if i < front.len() {
                assert(front[i] == history[i]);
                assert(front.subrange(0, i) =~= history.subrange(0, i));
            } else {
                assert(history.subrange(0, i) =~= front);
            }
        }
    }
}

/// A login rate limit as a marker of configuration.
#[derive(Debug, Clone, Copy, PartialEq, Eq, Structural)]
pub struct LoginRateLimit;

} // verus!
