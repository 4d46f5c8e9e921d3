//! Limits on how often one client may ask: a fixed number of requests in
//! each window of time. Time is counted in whole seconds from a start that
//! the caller chooses and never goes back.

use vstd::prelude::*;
use vstd::string::StringExecFns;
use crate::text::{
    chars_of, find_char, has_prefix, index_of_char, signed_decimal, signed_decimal_text,
    starts_with, str_eq, string_of, trim_bounds, trimmed,
};

verus! {

/// What the limiter remembers of one client.
#[derive(Debug)]
pub struct RateLimitEntry {
    pub key: String,
    pub count: usize,
    pub window_start: u64,
    pub last_request: u64,
}

/// The mathematical value of a [`RateLimitEntry`].
pub ghost struct EntryView {
    pub key: Seq<char>,
    pub count: usize,
    pub window_start: u64,
    pub last_request: u64,
}

impl View for RateLimitEntry {
    type V = EntryView;

    open spec fn view(&self) -> EntryView {
        EntryView {
            key: self.key@,
            count: self.count,
            window_start: self.window_start,
            last_request: self.last_request,
        }
    }
}

/// The mathematical value of a [`RateLimiter`].
pub ghost struct LimiterView {
    pub entries: Seq<EntryView>,
    pub max_requests: usize,
    pub window: u64,
}

/// The seconds from `since` to `now`; zero where `now` is the earlier.
pub open spec fn elapsed(now: u64, since: u64) -> int {
    if now >= since {
        now - since
    } else {
        0
    }
}

/// Some entry is kept for `key`.
pub open spec fn has_entry(entries: Seq<EntryView>, key: Seq<char>) -> bool {
    exists|i: int| 0 <= i < entries.len() && (#[trigger] entries[i]).key == key
}

/// The place of the entry of `key`; meaningful where `has_entry` holds.
pub open spec fn entry_index(entries: Seq<EntryView>, key: Seq<char>) -> int {
    choose|i: int| 0 <= i < entries.len() && (#[trigger] entries[i]).key == key
}

/// No key has two entries.
pub open spec fn unique_keys(entries: Seq<EntryView>) -> bool {
    forall|i: int, j: int|
        0 <= i < j < entries.len() ==> (#[trigger] entries[i]).key != (#[trigger] entries[j]).key
}

/// What the limiter knows of `key` at `now`: its entry, or a fresh window
/// for a client that it has not seen.
pub open spec fn entry_of(entries: Seq<EntryView>, key: Seq<char>, now: u64) -> EntryView {
    if has_entry(entries, key) {
        entries[entry_index(entries, key)]
    } else {
        EntryView { key, count: 0, window_start: now, last_request: now }
    }
}

/// The entry at `now`: a window that is older than `window` seconds is
/// replaced by a new one that starts at `now` with no request counted.
pub open spec fn rolled(entry: EntryView, now: u64, window: u64) -> EntryView {
    if elapsed(now, entry.window_start) > window {
        EntryView { count: 0, window_start: now, ..entry }
    } else {
        entry
    }
}

/// A request of `key` at `now` is let through: its window, rolled to
/// `now`, has room.
pub open spec fn admits(limiter: LimiterView, key: Seq<char>, now: u64) -> bool {
    rolled(entry_of(limiter.entries, key, now), now, limiter.window).count < limiter.max_requests
}

/// The entry of `key` after its request at `now`: the window is rolled,
/// and a request that is let through is counted.
pub open spec fn entry_after(limiter: LimiterView, key: Seq<char>, now: u64) -> EntryView {
    let current = rolled(entry_of(limiter.entries, key, now), now, limiter.window);
    if current.count < limiter.max_requests {
        EntryView { count: (current.count + 1) as usize, last_request: now, ..current }
    } else {
        current
    }
}

/// The limiter after a request of `key` at `now`.
pub open spec fn checked(limiter: LimiterView, key: Seq<char>, now: u64) -> LimiterView {
    LimiterView {
        entries: if has_entry(limiter.entries, key) {
            limiter.entries.update(
                entry_index(limiter.entries, key),
                entry_after(limiter, key, now),
            )
        } else {
            limiter.entries.push(entry_after(limiter, key, now))
        },
        ..limiter
    }
}

/// The entries whose window is not yet older than `window` seconds at
/// `now`, in their order.
pub open spec fn live_entries(entries: Seq<EntryView>, now: u64, window: u64) -> Seq<EntryView>
    decreases entries.len(),
{
    if entries.len() == 0 {
        Seq::empty()
    } else if elapsed(now, entries.last().window_start) <= window {
        live_entries(entries.drop_last(), now, window).push(entries.last())
    } else {
        live_entries(entries.drop_last(), now, window)
    }
}

/// Every entry that is kept as live was an entry before, and no key gets
/// a second one.
pub proof fn lemma_live_entries(entries: Seq<EntryView>, now: u64, window: u64)
    ensures
        forall|i: int|
            0 <= i < live_entries(entries, now, window).len() ==> entries.contains(
                #[trigger] live_entries(entries, now, window)[i],
            ),
        unique_keys(entries) ==> unique_keys(live_entries(entries, now, window)),
    decreases entries.len(),
{
    let kept = live_entries(entries, now, window);
    if entries.len() > 0 {
        let init = entries.drop_last();
        let rest = live_entries(init, now, window);
        lemma_live_entries(init, now, window);
        assert forall|i: int| 0 <= i < kept.len() implies entries.contains(#[trigger] kept[i]) by {
            if i < rest.len() {
                assert(init.contains(rest[i]));
                let j = choose|j: int| 0 <= j < init.len() && init[j] == rest[i];
                assert(entries[j] == kept[i]);
            } else {
                assert(entries[entries.len() - 1] == kept[i]);
            }
        }
        if unique_keys(entries) {
            assert(unique_keys(init)) by {
                assert forall|i: int, j: int| 0 <= i < j < init.len() implies (
                #[trigger] init[i]).key != (#[trigger] init[j]).key by {
                    assert(init[i] == entries[i] && init[j] == entries[j]);
                }
            }
            assert forall|a: int, b: int| 0 <= a < b < kept.len() implies (#[trigger] kept[a]).key
                != (#[trigger] kept[b]).key by {
                if b < rest.len() {
                    assert(kept[a] == rest[a] && kept[b] == rest[b]);
                } else {
                    assert(init.contains(rest[a]));
                    let j = choose|j: int| 0 <= j < init.len() && init[j] == rest[a];
                    assert(entries[j] == kept[a]);
                    assert(entries[entries.len() - 1] == kept[b]);
                }
            }
        }
    }
}

/// The views of a sequence of entries.
pub open spec fn entry_views(entries: Seq<RateLimitEntry>) -> Seq<EntryView> {
    entries.map_values(|e: RateLimitEntry| e@)
}

/// A limiter: at most `max_requests` requests of one client in each
/// window of `window` seconds.
pub struct RateLimiter {
    entries: Vec<RateLimitEntry>,
    max_requests: usize,
    window: u64,
}

impl View for RateLimiter {
    type V = LimiterView;

    closed spec fn view(&self) -> LimiterView {
        LimiterView {
            entries: entry_views(self.entries@),
            max_requests: self.max_requests,
            window: self.window,
        }
    }
}

impl RateLimiter {
    /// Every limiter that this module hands out keeps one entry for each
    /// client.
    pub open spec fn wf(&self) -> bool {
        unique_keys(self@.entries)
    }

    /// A limiter that has seen no client yet.
    pub fn new(max_requests: usize, window_secs: u64) -> (limiter: Self)
        ensures
            limiter.wf(),
            limiter@ == (LimiterView {
                entries: Seq::empty(),
                max_requests,
                window: window_secs,
            }),
    {
        let limiter = RateLimiter { entries: Vec::new(), max_requests, window: window_secs };
        assert(entry_views(limiter.entries@) == Seq::<EntryView>::empty());
        limiter
    }

    fn position(&self, key: &str) -> (at: Option<usize>)
        requires
            self.wf(),
        ensures
            match at {
                Some(i) => i < self@.entries.len() && self@.entries[i as int].key == key@
                    && has_entry(self@.entries, key@) && entry_index(self@.entries, key@) == i,
                None => !has_entry(self@.entries, key@),
            },
    {
        let mut i: usize = 0;
        while i < self.entries.len()
            invariant
                i <= self.entries.len(),
                self.wf(),
                self@.entries == entry_views(self.entries@),
                forall|k: int| 0 <= k < i ==> (#[trigger] self@.entries[k]).key != key@,
            decreases self.entries.len() - i,
        {
            if str_eq(self.entries[i].key.as_str(), key) {
                assert(self@.entries[i as int].key == key@);
                return Some(i);
            }
            i += 1;
        }
        None
    }

    /// Counts a request of the client `key` at `now` and tells whether it
    /// is let through: it is unless the client has used up its window.
    pub fn check(&mut self, key: &str, now: u64) -> (verdict: Result<(), ()>)
        requires
            old(self).wf(),
        ensures
            final(self).wf(),
            verdict is Ok <==> admits(old(self)@, key@, now),
            final(self)@ == checked(old(self)@, key@, now),
    {
        let found = self.position(key);
        let ghost before = self@;
        let (count, window_start, last_request) = match found {
            Some(i) => (
                self.entries[i].count,
                self.entries[i].window_start,
                self.entries[i].last_request,
            ),
            None => (0, now, now),
        };
        let expired = now >= window_start && now - window_start > self.window;
        let (count, window_start) = if expired {
            (0, now)
        } else {
            (count, window_start)
        };
        let allowed = count < self.max_requests;
        let entry = if allowed {
            RateLimitEntry {
                key: String::from_str(key),
                count: count + 1,
                window_start,
                last_request: now,
            }
        } else {
            RateLimitEntry { key: String::from_str(key), count, window_start, last_request }
        };
        assert(entry@ == entry_after(before, key@, now));
        match found {
            Some(i) => {
                assert(entry_views(self.entries@.update(i as int, entry)) == before.entries.update(
                    i as int,
                    entry@,
                ));
                self.entries.set(i, entry);
            },
            None => {
                assert(entry_views(self.entries@.push(entry)) == before.entries.push(entry@));
                self.entries.push(entry);
            },
        }
        if allowed {
            Ok(())
        } else {
            Err(())
        }
    }

    /// Forgets the clients whose window is older than the window of the
    /// limiter.
    pub fn cleanup(&mut self, now: u64)
        requires
            old(self).wf(),
        ensures
            final(self).wf(),
            final(self)@ == (LimiterView {
                entries: live_entries(old(self)@.entries, now, old(self)@.window),
                ..old(self)@
            }),
    {
        let ghost before = self@;
        let mut kept: Vec<RateLimitEntry> = Vec::new();
        let mut k: usize = 0;
        while k < self.entries.len()
            invariant
                k <= self.entries.len(),
                before == self@,
                before.entries == entry_views(self.entries@),
                entry_views(kept@) == live_entries(
                    before.entries.take(k as int),
                    now,
                    before.window,
                ),
            decreases self.entries.len() - k,
        {
            proof {
                assert(before.entries.take(k + 1).drop_last() == before.entries.take(k as int));
            }
            let start = self.entries[k].window_start;
            if !(now >= start && now - start > self.window) {
                let entry = RateLimitEntry {
                    key: self.entries[k].key.clone(),
                    count: self.entries[k].count,
                    window_start: start,
                    last_request: self.entries[k].last_request,
                };
                assert(entry_views(kept@.push(entry)) == entry_views(kept@).push(entry@));
                kept.push(entry);
            }
            k += 1;
        }
        assert(before.entries.take(k as int) == before.entries);
        self.entries = kept;
        proof {
            lemma_live_entries(before.entries, now, before.window);
        }
    }
}

/// A client that the limiter has not seen is let through as long as the
/// limit is not zero, and a client whose window is full is turned down
/// until the window has passed.
pub proof fn lemma_limit_holds(limiter: LimiterView, key: Seq<char>, now: u64)
    requires
        unique_keys(limiter.entries),
    ensures
        !has_entry(limiter.entries, key) ==> (admits(limiter, key, now) <==> limiter.max_requests
            > 0),
        has_entry(limiter.entries, key) && entry_of(limiter.entries, key, now).count
            >= limiter.max_requests && elapsed(
            now,
            entry_of(limiter.entries, key, now).window_start,
        ) <= limiter.window ==> !admits(limiter, key, now),
        has_entry(checked(limiter, key, now).entries, key),
        admits(limiter, key, now) ==> entry_of(checked(limiter, key, now).entries, key, now).count
            == rolled(entry_of(limiter.entries, key, now), now, limiter.window).count + 1,
{
    let after = checked(limiter, key, now).entries;
    let at = if has_entry(limiter.entries, key) {
        entry_index(limiter.entries, key)
    } else {
        limiter.entries.len() as int
    };
    assert(after[at].key == key);
    let found = entry_index(after, key);
    assert(found == at) by {
        if found != at {
            if has_entry(limiter.entries, key) {
                assert(limiter.entries[found].key == after[found].key);
                if found < at {
                    assert(limiter.entries[found].key != limiter.entries[at].key);
                } else {
                    assert(limiter.entries[at].key != limiter.entries[found].key);
                }
            } else {
                assert(limiter.entries[found].key == key);
            }
        }
    }
}

/// After a request of a client the limiter still keeps one entry for each
/// client, and the entry of the client is the one that the request left.
pub proof fn lemma_checked(limiter: LimiterView, key: Seq<char>, now: u64)
    requires
        unique_keys(limiter.entries),
    ensures
        unique_keys(checked(limiter, key, now).entries),
        has_entry(checked(limiter, key, now).entries, key),
        checked(limiter, key, now).entries[entry_index(checked(limiter, key, now).entries, key)]
            == entry_after(limiter, key, now),
        entry_after(limiter, key, now).key == key,
{
    let after = checked(limiter, key, now).entries;
    let at = if has_entry(limiter.entries, key) {
        entry_index(limiter.entries, key)
    } else {
        limiter.entries.len() as int
    };
    assert(after[at] == entry_after(limiter, key, now));
    assert(after[at].key == key);
    assert forall|i: int| 0 <= i < after.len() && i != at implies (#[trigger] after[i])
        == limiter.entries[i] by {}
    assert forall|i: int, j: int| 0 <= i < j < after.len() implies (#[trigger] after[i]).key != (
    #[trigger] after[j]).key by {
        if i != at && j != at {
            assert(limiter.entries[i].key != limiter.entries[j].key);
        } else if i == at {
            if has_entry(limiter.entries, key) {
                assert(limiter.entries[i].key != limiter.entries[j].key);
            }
        } else {
            if has_entry(limiter.entries, key) {
                assert(limiter.entries[i].key != limiter.entries[j].key);
            } else {
                assert(limiter.entries[i].key != key);
            }
        }
    }
    let found = entry_index(after, key);
    if found < at {
        assert(after[found].key != after[at].key);
    } else if at < found {
        assert(after[at].key != after[found].key);
    }
}

/// The limiter after the requests of one client at the times `times`, one
/// after the other.
pub open spec fn after_checks(limiter: LimiterView, key: Seq<char>, times: Seq<u64>)
    -> LimiterView
    decreases times.len(),
{
    if times.len() == 0 {
        limiter
    } else {
        checked(after_checks(limiter, key, times.drop_last()), key, times.last())
    }
}

/// The smaller of two numbers.
pub open spec fn smaller(a: int, b: int) -> int {
    if a <= b {
        a
    } else {
        b
    }
}

/// Within one window a client is let through `max_requests` times and no
/// more: of the requests of a client that the limiter has not seen, made
/// at times that all lie within the window after the first, exactly the
/// first `max_requests` are let through.
pub proof fn lemma_window_admits_max(limiter: LimiterView, key: Seq<char>, times: Seq<u64>)
    requires
        unique_keys(limiter.entries),
        !has_entry(limiter.entries, key),
        times.len() > 0,
        forall|i: int|
            0 <= i < times.len() ==> times[0] <= #[trigger] times[i] && times[i] - times[0]
                <= limiter.window,
    ensures
        unique_keys(after_checks(limiter, key, times).entries),
        has_entry(after_checks(limiter, key, times).entries, key),
        after_checks(limiter, key, times).max_requests == limiter.max_requests,
        after_checks(limiter, key, times).window == limiter.window,
        entry_of(after_checks(limiter, key, times).entries, key, 0).window_start == times[0],
        entry_of(after_checks(limiter, key, times).entries, key, 0).count == smaller(
            times.len() as int,
            limiter.max_requests as int,
        ),
        admits(after_checks(limiter, key, times.drop_last()), key, times.last()) <==> times.len()
            <= limiter.max_requests,
    decreases times.len(),
{
    let earlier = times.drop_last();
    let before = after_checks(limiter, key, earlier);
    let now = times.last();
    assert(now == times[times.len() - 1]);
    if earlier.len() == 0 {
        lemma_checked(limiter, key, now);
        assert(times[0] == now);
    } else {
        assert(earlier[0] == times[0]);
        assert forall|i: int| 0 <= i < earlier.len() implies earlier[0] <= #[trigger] earlier[i]
            && earlier[i] - earlier[0] <= limiter.window by {
            assert(earlier[i] == times[i]);
        }
        lemma_window_admits_max(limiter, key, earlier);
        lemma_checked(before, key, now);
    }
}

/// The limit that holds for a path: ten requests in five minutes for the
/// endpoints of authentication, a hundred a minute for the rest of the
/// interface, three hundred a minute for pages.
pub open spec fn limits_of(path: Seq<char>) -> (usize, u64) {
    if has_prefix(path, "/api/auth/"@) {
        (10, 300)
    } else if has_prefix(path, "/api/"@) {
        (100, 60)
    } else {
        (300, 60)
    }
}

/// The limit that holds for a path, as requests and seconds.
pub fn limits_for_path(path: &str) -> (limits: (usize, u64))
    ensures
        limits == limits_of(path@),
{
    if starts_with(path, "/api/auth/") {
        (10, 300)
    } else if starts_with(path, "/api/") {
        (100, 60)
    } else {
        (300, 60)
    }
}

/// The limit on attempts to log in: five in a quarter of an hour.
pub const AUTH_MAX_REQUESTS: usize = 5;

/// The window of the limit on attempts to log in, in seconds.
pub const AUTH_WINDOW_SECS: u64 = 900;

/// The name under which a client is counted: the first address of the
/// header `x-forwarded-for` without the white space around it, else the
/// header `x-real-ip` as it is, else `unknown`.
pub open spec fn client_id_of(forwarded: Option<Seq<char>>, real_ip: Option<Seq<char>>) -> Seq<
    char,
> {
    match forwarded {
        Some(list) => trimmed(list.take(index_of_char(list, ','))),
        None => match real_ip {
            Some(ip) => ip,
            None => "unknown"@,
        },
    }
}

/// The name under which the client of a request is counted, from the
/// headers that a proxy sets.
pub fn extract_client_id(forwarded: Option<&str>, real_ip: Option<&str>) -> (id: String)
    ensures
        id@ == client_id_of(
            match forwarded {
                Some(list) => Some(list@),
                None => None,
            },
            match real_ip {
                Some(ip) => Some(ip@),
                None => None,
            },
        ),
{
    match forwarded {
        Some(list) => {
            let chars = chars_of(list);
            assert(chars@.subrange(0, chars@.len() as int) == chars@);
            let comma = find_char(&chars, 0, chars.len(), ',');
            let (from, to) = trim_bounds(&chars, 0, comma);
            assert(chars@.subrange(0, comma as int) == list@.take(comma as int));
            string_of(&chars, from, to)
        },
        None => match real_ip {
            Some(ip) => String::from_str(ip),
            None => String::from_str("unknown"),
        },
    }
}

/// One limiter for each signed-in user.
pub struct PerUserRateLimiter {
    users: Vec<i64>,
    limiters: Vec<RateLimiter>,
}

impl PerUserRateLimiter {
    /// The users that have a limiter, in the order of their first request.
    pub closed spec fn users(&self) -> Seq<i64> {
        self.users@
    }

    /// The limiters, each at the place of its user.
    pub closed spec fn limiters(&self) -> Seq<LimiterView> {
        self.limiters@.map_values(|l: RateLimiter| l@)
    }

    /// Every user has one limiter, and every limiter is in order.
    pub closed spec fn wf(&self) -> bool {
        &&& self.users@.len() == self.limiters@.len()
        &&& self.users@.no_duplicates()
        &&& forall|i: int| 0 <= i < self.limiters@.len() ==> (#[trigger] self.limiters@[i]).wf()
    }

    /// The limiter that a request of `user_id` is counted in: the user's
    /// own, or a new one with the given limit for a user without one.
    pub open spec fn limiter_of(&self, user_id: i64, max_requests: usize, window_secs: u64)
        -> LimiterView {
        if self.users().contains(user_id) {
            self.limiters()[self.users().index_of(user_id)]
        } else {
            LimiterView { entries: Seq::empty(), max_requests, window: window_secs }
        }
    }

    /// No user has a limiter yet.
    pub fn new() -> (limiters: Self)
        ensures
            limiters.wf(),
            limiters.users() == Seq::<i64>::empty(),
    {
        PerUserRateLimiter { users: Vec::new(), limiters: Vec::new() }
    }

    /// Forgets, in the limiter of every user, the clients whose window
    /// has passed.
    pub fn cleanup(&mut self, now: u64)
        requires
            old(self).wf(),
        ensures
            final(self).wf(),
            final(self).users() == old(self).users(),
            final(self).limiters().len() == old(self).limiters().len(),
            forall|i: int|
                0 <= i < old(self).limiters().len() ==> (#[trigger] final(self).limiters()[i])
                    == (LimiterView {
                    entries: live_entries(
                        old(self).limiters()[i].entries,
                        now,
                        old(self).limiters()[i].window,
                    ),
                    ..old(self).limiters()[i]
                }),
    {
        let ghost before = self.limiters();
        let n = self.limiters.len();
        let mut i: usize = 0;
        while i < n
            invariant
                i <= n,
                n == self.limiters@.len(),
                n == before.len(),
                self.users@ == old(self).users@,
                self.users@.no_duplicates(),
                self.users@.len() == n,
                forall|k: int| 0 <= k < n ==> (#[trigger] self.limiters@[k]).wf(),
                forall|k: int|
                    0 <= k < i ==> (#[trigger] self.limiters()[k]) == (LimiterView {
                        entries: live_entries(before[k].entries, now, before[k].window),
                        ..before[k]
                    }),
                forall|k: int| i <= k < n ==> (#[trigger] self.limiters()[k]) == before[k],
            decreases n - i,
        {
            let ghost so_far = self.limiters();
            let ghost rows = self.limiters@;
            assert(so_far[i as int] == before[i as int]);
            self.limiters.push(RateLimiter::new(0, 0));
            let mut current = self.limiters.swap_remove(i);
            assert(current@ == so_far[i as int]);
            current.cleanup(now);
            self.limiters.push(current);
            self.limiters.swap_remove(i);
            proof {
                assert(self.limiters@.len() == n);
                assert(self.limiters@[i as int] == current);
                assert forall|k: int| 0 <= k < n && k != i implies self.limiters@[k]
                    == rows[k] by {}
                assert forall|k: int| 0 <= k < i + 1 implies (#[trigger] self.limiters()[k])
                    == (LimiterView {
                    entries: live_entries(before[k].entries, now, before[k].window),
                    ..before[k]
                }) by {
                    if k < i {
                        assert(self.limiters@[k] == rows[k]);
                        assert(self.limiters()[k] == so_far[k]);
                    } else {
                        assert(self.limiters()[k] == current@);
                    }
                }
                assert forall|k: int| i + 1 <= k < n implies (#[trigger] self.limiters()[k])
                    == before[k] by {
                    assert(self.limiters@[k] == rows[k]);
                    assert(self.limiters()[k] == so_far[k]);
                }
            }
            i += 1;
        }
    }

    /// Counts a request of `user_id` at `now` in the user's limiter and
    /// tells whether it is let through. The limit given with the first
    /// request of a user stays the user's limit.
    pub fn check(&mut self, user_id: i64, max_requests: usize, window_secs: u64, now: u64) -> (verdict:
        Result<(), ()>)
        requires
            old(self).wf(),
        ensures
            final(self).wf(),
            verdict is Ok <==> admits(
                old(self).limiter_of(user_id, max_requests, window_secs),
                signed_decimal(user_id as int),
                now,
            ),
            final(self).users().contains(user_id),
            final(self).limiter_of(user_id, max_requests, window_secs) == checked(
                old(self).limiter_of(user_id, max_requests, window_secs),
                signed_decimal(user_id as int),
                now,
            ),
    {
        let mut at: usize = 0;
        while at < self.users.len() && self.users[at] != user_id
            invariant
                at <= self.users.len(),
                forall|k: int| 0 <= k < at ==> self.users@[k] != user_id,
            decreases self.users.len() - at,
        {
            at += 1;
        }
        let key = signed_decimal_text(user_id);
        let ghost before_users = self.users@;
        let ghost before_limiters = self.limiters();
        if at == self.users.len() {
            let mut limiter = RateLimiter::new(max_requests, window_secs);
            let verdict = limiter.check(key.as_str(), now);
            proof {
                assert(!before_users.contains(user_id));
                assert(self.limiters@.push(limiter).map_values(|l: RateLimiter| l@)
                    == before_limiters.push(limiter@));
            }
            self.users.push(user_id);
            self.limiters.push(limiter);
            proof {
                assert(self.users@[at as int] == user_id);
                assert(self.users@.index_of(user_id) == at);
                assert forall|i: int, j: int|
                    0 <= i < self.users@.len() && 0 <= j < self.users@.len() && i
                        != j implies self.users@[i] != self.users@[j] by {
                    if i < at && j < at {
                        assert(before_users[i] != before_users[j]);
                    }
                }
            }
            verdict
        } else {
            proof {
                assert(before_users[at as int] == user_id);
                assert(before_users.contains(user_id));
                assert(before_users.index_of(user_id) == at);
            }
            self.limiters.push(RateLimiter::new(0, 0));
            let mut current = self.limiters.swap_remove(at);
            let verdict = current.check(key.as_str(), now);
            self.limiters.push(current);
            self.limiters.swap_remove(at);
            proof {
                assert(self.limiters@.len() == before_users.len());
                assert(self.limiters()[at as int] == current@);
                assert(self.users@.index_of(user_id) == at);
                assert forall|i: int| 0 <= i < self.limiters@.len() implies (
                #[trigger] self.limiters@[i]).wf() by {}
            }
            verdict
        }
    }
}

} // verus!
