//! Sliding-window rate limiter: per-service admission control that makes
//! callers wait rather than fail.
//!
//! Each service has an ordered window of request timestamps covering the
//! trailing sixty seconds. A call first prunes the window and learns how
//! long to wait; the shell sleeps that long with no lock held, then records
//! the admitted request at the new instant. The bound — never more than the
//! limit inside any trailing window — is proved in
//! `lemma_rate_limiter_bound`.

use vstd::prelude::*;

use crate::strutil::str_eq;

verus! {

/// Length of the trailing window, in seconds.
pub const WINDOW_SECONDS: u64 = 60;

/// The instant before which a timestamp has left the trailing window.
pub open spec fn cutoff(now: u64) -> u64 {
    if now >= WINDOW_SECONDS {
        (now - WINDOW_SECONDS) as u64
    } else {
        0
    }
}

/// A timestamp counts at `now` when it lies in the trailing window.
pub open spec fn in_window(ts: u64, now: u64) -> bool {
    ts > cutoff(now) && ts <= now
}

/// Non-decreasing sequence of timestamps.
pub open spec fn sorted_stamps(s: Seq<u64>) -> bool {
    forall|i: int, j: int| 0 <= i < j < s.len() ==> s[i] <= s[j]
}

/// The timestamps of `s` that still count at `now`, in order.
pub open spec fn prune_spec(s: Seq<u64>, now: u64) -> Seq<u64>
    decreases s.len(),
{
    if s.len() == 0 {
        Seq::empty()
    } else {
        let rest = prune_spec(s.drop_first(), now);
        if in_window(s.first(), now) {
            seq![s.first()] + rest
        } else {
            rest
        }
    }
}

/// The wait that an already pruned window demands: zero below the limit,
/// otherwise until the oldest recorded timestamp leaves the trailing
/// window.
pub open spec fn wait_from_pruned(p: Seq<u64>, limit: u32, now: u64) -> u64 {
    if p.len() >= limit && p.len() > 0 {
        let oldest = p.first();
        if oldest <= now && now - oldest < 60 {
            (60 - (now - oldest)) as u64
        } else {
            0
        }
    } else {
        0
    }
}

/// How long a caller must wait before its request may be recorded, given
/// the window as recorded: the window is pruned to `now` first.
pub open spec fn wait_spec(s: Seq<u64>, limit: u32, now: u64) -> u64 {
    wait_from_pruned(prune_spec(s, now), limit, now)
}

/// Every pruned timestamp lies in the trailing window.
pub proof fn lemma_prune_in_window(s: Seq<u64>, now: u64)
    ensures
        forall|i: int|
            0 <= i < prune_spec(s, now).len() ==> in_window(#[trigger] prune_spec(s, now)[i], now),
    decreases s.len(),
{
    if s.len() > 0 {
        lemma_prune_in_window(s.drop_first(), now);
        let p = prune_spec(s, now);
        let rest = prune_spec(s.drop_first(), now);
        assert forall|i: int| 0 <= i < p.len() implies in_window(#[trigger] p[i], now) by {
            if in_window(s.first(), now) {
                if i > 0 {
                    assert(p[i] == rest[i - 1]);
                }
            } else {
                assert(p[i] == rest[i]);
            }
        }
    }
}

/// Every pruned timestamp is a timestamp of the input.
pub proof fn lemma_prune_contains(s: Seq<u64>, now: u64)
    ensures
        forall|i: int|
            0 <= i < prune_spec(s, now).len() ==> s.contains(#[trigger] prune_spec(s, now)[i]),
    decreases s.len(),
{
    if s.len() > 0 {
        lemma_prune_contains(s.drop_first(), now);
        assert forall|i: int| 0 <= i < prune_spec(s, now).len() implies s.contains(
            #[trigger] prune_spec(s, now)[i],
        ) by {
            let p = prune_spec(s, now);
            let rest = prune_spec(s.drop_first(), now);
            if in_window(s.first(), now) && i == 0 {
                assert(p[0] == s.first());
                assert(s[0] == s.first());
            } else {
                let ri = if in_window(s.first(), now) {
                    i - 1
                } else {
                    i
                };
                assert(p[i] == rest[ri]);
                let j = choose|j: int| 0 <= j < s.drop_first().len() && s.drop_first()[j] == rest[ri];
                assert(s[j + 1] == rest[ri]);
            }
        }
    }
}

/// Pruning keeps the order.
pub proof fn lemma_prune_sorted(s: Seq<u64>, now: u64)
    requires
        sorted_stamps(s),
    ensures
        sorted_stamps(prune_spec(s, now)),
    decreases s.len(),
{
    if s.len() > 0 {
        let d = s.drop_first();
        assert(sorted_stamps(d));
        lemma_prune_sorted(d, now);
        lemma_prune_contains(d, now);
        if in_window(s.first(), now) {
            let p = prune_spec(s, now);
            let rest = prune_spec(d, now);
            assert forall|i: int, j: int| 0 <= i < j < p.len() implies p[i] <= p[j] by {
                if i == 0 {
                    assert(p[j] == rest[j - 1]);
                    assert(d.contains(rest[j - 1]));
                    let k = choose|k: int| 0 <= k < d.len() && d[k] == rest[j - 1];
                    assert(s[0] <= s[k + 1]);
                } else {
                    assert(p[i] == rest[i - 1] && p[j] == rest[j - 1]);
                }
            }
        }
    }
}

/// A prune never holds more than what was recorded.
pub proof fn lemma_prune_len_le(s: Seq<u64>, now: u64)
    ensures
        prune_spec(s, now).len() <= s.len(),
    decreases s.len(),
{
    if s.len() > 0 {
        lemma_prune_len_le(s.drop_first(), now);
    }
}

/// A later prune never keeps more: every timestamp counted at the later
/// instant was counted at the earlier one.
pub proof fn lemma_prune_len_mono(s: Seq<u64>, now1: u64, now2: u64)
    requires
        now2 >= now1,
        forall|i: int| 0 <= i < s.len() ==> s[i] <= now1,
    ensures
        prune_spec(s, now2).len() <= prune_spec(s, now1).len(),
    decreases s.len(),
{
    if s.len() > 0 {
        let d = s.drop_first();
        assert(forall|i: int| 0 <= i < d.len() ==> d[i] <= now1);
        lemma_prune_len_mono(d, now1, now2);
    }
}

/// Once the oldest counted timestamp has left the window, the prune is
/// strictly smaller.
pub proof fn lemma_prune_drops_oldest(s: Seq<u64>, now1: u64, now2: u64)
    requires
        sorted_stamps(s),
        forall|i: int| 0 <= i < s.len() ==> s[i] <= now1,
        now2 >= now1,
        prune_spec(s, now1).len() > 0,
        prune_spec(s, now1).first() <= cutoff(now2),
    ensures
        prune_spec(s, now2).len() < prune_spec(s, now1).len(),
    decreases s.len(),
{
    let d = s.drop_first();
    assert(sorted_stamps(d));
    assert(forall|i: int| 0 <= i < d.len() ==> d[i] <= now1);
    if in_window(s.first(), now1) {
        assert(prune_spec(s, now1).first() == s.first());
        assert(!in_window(s.first(), now2));
        lemma_prune_len_mono(d, now1, now2);
        assert(prune_spec(s, now2) == prune_spec(d, now2));
    } else {
        assert(prune_spec(s, now1) == prune_spec(d, now1));
        assert(s.first() <= cutoff(now1));
        assert(!in_window(s.first(), now2));
        assert(prune_spec(s, now2) == prune_spec(d, now2));
        lemma_prune_drops_oldest(d, now1, now2);
    }
}

/// A window respects the limit at an instant when it is ordered, holds
/// nothing from the future, and holds no more than the limit. Since after
/// every admission each recorded timestamp lies in the trailing window,
/// the count inside any trailing window is then at most the length.
pub open spec fn window_bounded(w: Seq<u64>, limit: u32, now: u64) -> bool {
    &&& sorted_stamps(w)
    &&& forall|i: int| 0 <= i < w.len() ==> w[i] <= now
    &&& w.len() <= limit
}

/// The sliding-window bound, as one inductive step over the admission
/// protocol: a window that respected the limit, pruned at the instant the
/// caller finished the wait that `wait_spec` demanded and extended by the
/// admitted request — exactly what `record_at` leaves behind — respects
/// the limit at the new instant. The empty window of a fresh limiter is
/// bounded at every instant, so along any sequence of back-to-back
/// admissions of one service the count of its timestamps within the
/// trailing window never exceeds the limit. A limit of zero admits
/// nothing and is outside this bound: the admitted request itself would
/// already exceed it.
pub proof fn lemma_rate_limiter_bound(s: Seq<u64>, limit: u32, now1: u64, now2: u64)
    requires
        limit >= 1,
        window_bounded(s, limit, now1),
        now2 >= now1 + wait_spec(s, limit, now1),
    ensures
        window_bounded(prune_spec(s, now2).push(now2), limit, now2),
{
    let p1 = prune_spec(s, now1);
    let p2 = prune_spec(s, now2);
    lemma_prune_len_mono(s, now1, now2);
    if p1.len() >= limit {
        lemma_prune_in_window(s, now1);
        lemma_prune_sorted(s, now1);
        let oldest = p1.first();
        assert(in_window(oldest, now1));
        assert(oldest <= now1 && now1 - oldest < 60);
        assert(wait_spec(s, limit, now1) == 60 - (now1 - oldest));
        assert(oldest <= cutoff(now2));
        lemma_prune_drops_oldest(s, now1, now2);
        lemma_prune_len_le(s, now1);
        assert(p1.len() <= s.len());
    }
    lemma_prune_sorted(s, now2);
    lemma_prune_in_window(s, now2);
    assert(sorted_stamps(p2.push(now2))) by {
        assert forall|a: int, b: int| 0 <= a < b < p2.push(now2).len() implies p2.push(now2)[a]
            <= p2.push(now2)[b] by {
            if b < p2.len() {
                assert(p2.push(now2)[a] == p2[a] && p2.push(now2)[b] == p2[b]);
            } else {
                assert(p2.push(now2)[a] == p2[a]);
                assert(in_window(p2[a], now2));
            }
        }
    }
    assert forall|i: int| 0 <= i < p2.push(now2).len() implies p2.push(now2)[i] <= now2 by {
        if i < p2.len() {
            assert(p2.push(now2)[i] == p2[i]);
            assert(in_window(p2[i], now2));
        }
    }
}

/// One service's recorded window.
struct ServiceWindow {
    service: String,
    stamps: Vec<u64>,
}

/// Mathematical model of one service's window.
pub ghost struct WindowModel {
    pub service: Seq<char>,
    pub stamps: Seq<u64>,
}

impl View for ServiceWindow {
    type V = WindowModel;

    closed spec fn view(&self) -> WindowModel {
        WindowModel { service: self.service@, stamps: self.stamps@ }
    }
}

/// The models of a sequence of windows.
spec fn window_models(s: Seq<ServiceWindow>) -> Seq<WindowModel> {
    s.map_values(|w: ServiceWindow| w@)
}

/// All service names in `s` are pairwise distinct.
pub open spec fn services_unique(s: Seq<WindowModel>) -> bool {
    forall|i: int, j: int| 0 <= i < j < s.len() ==> s[i].service != s[j].service
}

/// The map that a sequence of windows denotes.
pub open spec fn windows_as_map(s: Seq<WindowModel>) -> Map<Seq<char>, Seq<u64>>
    decreases s.len(),
{
    if s.len() == 0 {
        Map::empty()
    } else {
        windows_as_map(s.drop_last()).insert(s.last().service, s.last().stamps)
    }
}

/// The recorded window of one service: empty when none was recorded yet.
pub open spec fn stamps_of(m: Map<Seq<char>, Seq<u64>>, service: Seq<char>) -> Seq<u64> {
    if m.contains_key(service) {
        m[service]
    } else {
        Seq::empty()
    }
}

/// Under unique services, membership and lookup in `windows_as_map` are
/// exactly membership and lookup in the sequence.
proof fn lemma_windows_as_map_props(s: Seq<WindowModel>)
    requires
        services_unique(s),
    ensures
        forall|k: Seq<char>|
            #[trigger] windows_as_map(s).contains_key(k) <==> exists|i: int|
                0 <= i < s.len() && s[i].service == k,
        forall|i: int|
            0 <= i < s.len() ==> windows_as_map(s)[#[trigger] s[i].service] == s[i].stamps,
    decreases s.len(),
{
    if s.len() > 0 {
        let dl = s.drop_last();
        assert(services_unique(dl));
        lemma_windows_as_map_props(dl);
        assert forall|i: int| 0 <= i < s.len() implies windows_as_map(s)[#[trigger] s[i].service]
            == s[i].stamps by {
            if i < s.len() - 1 {
                assert(s[i].service != s.last().service);
                assert(dl[i] == s[i]);
            }
        }
        assert forall|k: Seq<char>| #[trigger] windows_as_map(s).contains_key(k) implies exists|
            i: int,
        | 0 <= i < s.len() && s[i].service == k by {
            if k == s.last().service {
                assert(s[s.len() - 1].service == k);
            } else {
                assert(windows_as_map(dl).contains_key(k));
                let i = choose|i: int| 0 <= i < dl.len() && dl[i].service == k;
                assert(dl[i] == s[i]);
                assert(s[i].service == k);
            }
        }
        assert forall|k: Seq<char>| (exists|i: int| 0 <= i < s.len() && s[i].service == k)
            implies #[trigger] windows_as_map(s).contains_key(k) by {
            let i = choose|i: int| 0 <= i < s.len() && s[i].service == k;
            if i < s.len() - 1 {
                assert(dl[i].service == k);
            }
        }
    }
}

/// Removing the window at index `i` removes exactly its service.
proof fn lemma_windows_map_remove(s: Seq<WindowModel>, i: int)
    requires
        services_unique(s),
        0 <= i < s.len(),
    ensures
        windows_as_map(s.remove(i)) == windows_as_map(s).remove(s[i].service),
    decreases s.len(),
{
    let dl = s.drop_last();
    assert(services_unique(dl));
    lemma_windows_as_map_props(s);
    if i == s.len() - 1 {
        lemma_windows_as_map_props(dl);
        assert(s.remove(i) =~= dl);
        assert(!windows_as_map(dl).contains_key(s[i].service));
        assert(windows_as_map(dl) =~= windows_as_map(s).remove(s[i].service));
    } else {
        lemma_windows_map_remove(dl, i);
        assert(s.remove(i).drop_last() =~= dl.remove(i));
        assert(s.remove(i).last() == s.last());
        assert(s[i].service != s.last().service);
        assert(windows_as_map(s.remove(i)) == windows_as_map(dl.remove(i)).insert(
            s.last().service,
            s.last().stamps,
        ));
        assert(windows_as_map(s.remove(i)) =~= windows_as_map(s).remove(s[i].service));
    }
}

/// Rate limiter for outbound calls: one sliding window per service name.
pub struct RateLimiter {
    windows: Vec<ServiceWindow>,
    enabled: bool,
}

impl View for RateLimiter {
    type V = Map<Seq<char>, Seq<u64>>;

    /// The limiter denotes the map from service name to recorded window.
    closed spec fn view(&self) -> Map<Seq<char>, Seq<u64>> {
        windows_as_map(window_models(self.windows@))
    }
}

impl RateLimiter {
    /// Service names are unique and every window is ordered.
    pub closed spec fn wf(&self) -> bool {
        &&& services_unique(window_models(self.windows@))
        &&& forall|i: int|
            0 <= i < self.windows@.len() ==> sorted_stamps(
                #[trigger] window_models(self.windows@)[i].stamps,
            )
    }

    /// Whether callers are made to wait at all.
    pub closed spec fn is_enabled(&self) -> bool {
        self.enabled
    }

    /// A fresh limiter with no windows, enabled.
    pub fn new() -> (r: RateLimiter)
        ensures
            r.wf(),
            r.is_enabled(),
            r@ == Map::<Seq<char>, Seq<u64>>::empty(),
    {
        let r = RateLimiter { windows: Vec::new(), enabled: true };
        proof {
            assert(window_models(r.windows@) =~= Seq::<WindowModel>::empty());
        }
        r
    }

    /// Turns rate limiting on or off.
    pub fn set_enabled(&mut self, enabled: bool)
        requires
            old(self).wf(),
        ensures
            final(self).wf(),
            final(self)@ == old(self)@,
            final(self).is_enabled() == enabled,
    {
        self.enabled = enabled;
    }

    /// Index of the window for this service, if any.
    fn find_index(&self, service: &str) -> (r: Option<usize>)
        requires
            self.wf(),
        ensures
            r matches Some(i) ==> i < self.windows@.len() && window_models(self.windows@)[
                i as int
            ].service == service@,
            r is None ==> forall|i: int|
                0 <= i < self.windows@.len() ==> window_models(self.windows@)[i].service
                    != service@,
    {
        let mut i: usize = 0;
        while i < self.windows.len()
            invariant
                i <= self.windows@.len(),
                forall|j: int| 0 <= j < i ==> window_models(self.windows@)[j].service != service@,
            decreases self.windows@.len() - i,
        {
            if str_eq(self.windows[i].service.as_str(), service) {
                return Some(i);
            }
            i += 1;
        }
        None
    }

    /// Drops the whole window of one service.
    pub fn reset(&mut self, service: &str)
        requires
            old(self).wf(),
        ensures
            final(self).wf(),
            final(self)@ == old(self)@.remove(service@),
            final(self).is_enabled() == old(self).is_enabled(),
    {
        let ghost pre = window_models(self.windows@);
        proof {
            lemma_windows_as_map_props(pre);
        }
        match self.find_index(service) {
            Some(i) => {
                self.windows.remove(i);
                proof {
                    lemma_windows_map_remove(pre, i as int);
                    assert(window_models(self.windows@) =~= pre.remove(i as int));
                    assert(services_unique(pre.remove(i as int)));
                    assert(pre[i as int].service == service@);
                }
            },
            None => {
                proof {
                    assert(final(self)@ =~= old(self)@.remove(service@));
                }
            },
        }
    }

    /// Drops every window.
    pub fn reset_all(&mut self)
        requires
            old(self).wf(),
        ensures
            final(self).wf(),
            final(self)@ == Map::<Seq<char>, Seq<u64>>::empty(),
            final(self).is_enabled() == old(self).is_enabled(),
    {
        self.windows.clear();
        proof {
            assert(window_models(self.windows@) =~= Seq::<WindowModel>::empty());
        }
    }

    /// Prunes the window of `service` to the instant `now` and reports how
    /// long the caller must wait before its request may be recorded: zero
    /// when the window is below `requests_per_minute`. The shell sleeps
    /// that long with no lock held, then calls `record_at`. A disabled
    /// limiter never waits and records nothing.
    pub fn required_wait_at(&mut self, service: &str, requests_per_minute: u32, now: u64) -> (r:
        u64)
        requires
            old(self).wf(),
        ensures
            final(self).wf(),
            final(self).is_enabled() == old(self).is_enabled(),
            !old(self).is_enabled() ==> r == 0 && final(self)@ == old(self)@,
            old(self).is_enabled() ==> {
                &&& r == wait_spec(stamps_of(old(self)@, service@), requests_per_minute, now)
                &&& final(self)@ == (if old(self)@.contains_key(service@) {
                    old(self)@.insert(
                        service@,
                        prune_spec(stamps_of(old(self)@, service@), now),
                    )
                } else {
                    old(self)@
                })
            },
    {
        if !self.enabled {
            return 0;
        }
        let ghost pre = window_models(self.windows@);
        proof {
            lemma_windows_as_map_props(pre);
        }
        match self.find_index(service) {
            Some(i) => {
                let mut win = self.windows.remove(i);
                let ghost old_stamps = win.stamps@;
                proof {
                    lemma_windows_map_remove(pre, i as int);
                    assert(window_models(self.windows@) =~= pre.remove(i as int));
                    assert(services_unique(pre.remove(i as int)));
                    assert(pre[i as int].service == service@);
                    assert(old_stamps == pre[i as int].stamps);
                    assert(old_stamps == stamps_of(old(self)@, service@));
                    assert(sorted_stamps(old_stamps));
                }
                let pruned = prune_stamps(&win.stamps, now);
                win.stamps = pruned;
                let wait = compute_wait(&win.stamps, requests_per_minute, now);
                let ghost mid = window_models(self.windows@);
                let ghost win_model = win@;
                self.windows.push(win);
                proof {
                    let post = window_models(self.windows@);
                    assert(post.drop_last() =~= mid);
                    assert(post.last() == win_model);
                    assert(!windows_as_map(mid).contains_key(win_model.service)) by {
                        lemma_windows_as_map_props(pre.remove(i as int));
                    }
                    assert(services_unique(post)) by {
                        lemma_windows_as_map_props(mid);
                        assert forall|a: int| 0 <= a < mid.len() implies mid[a].service
                            != win_model.service by {
                            assert(windows_as_map(mid).contains_key(mid[a].service));
                        }
                        assert forall|a: int, b: int| 0 <= a < b < post.len() implies post[a].service
                            != post[b].service by {
                            if b < post.len() - 1 {
                                assert(post[a] == mid[a] && post[b] == mid[b]);
                            } else {
                                assert(post[a] == mid[a] && post[b] == win_model);
                            }
                        }
                    }
                    assert(final(self)@ =~= old(self)@.insert(
                        service@,
                        prune_spec(stamps_of(old(self)@, service@), now),
                    ));
                    assert(final(self).wf()) by {
                        lemma_prune_sorted(old_stamps, now);
                        assert forall|a: int| 0 <= a < post.len() implies sorted_stamps(
                            #[trigger] post[a].stamps,
                        ) by {
                            if a < post.len() - 1 {
                                assert(post[a] == mid[a]);
                                assert(mid[a] == pre.remove(i as int)[a]);
                            }
                        }
                    }
                }
                wait
            },
            None => {
                proof {
                    assert(!old(self)@.contains_key(service@));
                    assert(stamps_of(old(self)@, service@) =~= Seq::<u64>::empty());
                }
                0
            },
        }
    }

    /// Prunes the window of `service` to `now` and appends `now` as the
    /// just-admitted request, creating the window on first use. A disabled
    /// limiter records nothing.
    pub fn record_at(&mut self, service: &str, now: u64)
        requires
            old(self).wf(),
        ensures
            final(self).wf(),
            final(self).is_enabled() == old(self).is_enabled(),
            !old(self).is_enabled() ==> final(self)@ == old(self)@,
            old(self).is_enabled() ==> final(self)@ == old(self)@.insert(
                service@,
                prune_spec(stamps_of(old(self)@, service@), now).push(now),
            ),
    {
        if !self.enabled {
            return ;
        }
        let ghost pre = window_models(self.windows@);
        proof {
            lemma_windows_as_map_props(pre);
        }
        let mut win = match self.find_index(service) {
            Some(i) => {
                let w = self.windows.remove(i);
                proof {
                    lemma_windows_map_remove(pre, i as int);
                    assert(window_models(self.windows@) =~= pre.remove(i as int));
                    assert(services_unique(pre.remove(i as int)));
                    assert(pre[i as int].service == service@);
                    assert(w.stamps@ == pre[i as int].stamps);
                    assert(w.stamps@ == stamps_of(old(self)@, service@));
                    assert(sorted_stamps(w.stamps@));
                }
                w
            },
            None => {
                proof {
                    assert(stamps_of(old(self)@, service@) =~= Seq::<u64>::empty());
                    assert(old(self)@.remove(service@) =~= old(self)@);
                }
                ServiceWindow { service: service.to_owned(), stamps: Vec::new() }
            },
        };
        let ghost old_stamps = win.stamps@;
        proof {
            assert(sorted_stamps(old_stamps));
        }
        let mut pruned = prune_stamps(&win.stamps, now);
        proof {
            lemma_prune_sorted(old_stamps, now);
            lemma_prune_in_window(old_stamps, now);
            assert forall|a: int, b: int|
                0 <= a < b < pruned@.push(now).len() implies pruned@.push(now)[a] <= pruned@.push(
                now,
            )[b] by {
                if b < pruned@.len() {
                    assert(pruned@.push(now)[a] == pruned@[a]);
                } else {
                    assert(in_window(pruned@[a], now));
                }
            }
        }
        pruned.push(now);
        win.stamps = pruned;
        let ghost mid = window_models(self.windows@);
        let ghost win_model = win@;
        self.windows.push(win);
        proof {
            let post = window_models(self.windows@);
            assert(post.drop_last() =~= mid);
            assert(post.last() == win_model);
            assert(!windows_as_map(mid).contains_key(win_model.service)) by {
                lemma_windows_as_map_props(mid);
            }
            assert(services_unique(post)) by {
                lemma_windows_as_map_props(mid);
                assert forall|a: int| 0 <= a < mid.len() implies mid[a].service
                    != win_model.service by {
                    assert(windows_as_map(mid).contains_key(mid[a].service));
                }
                assert forall|a: int, b: int| 0 <= a < b < post.len() implies post[a].service
                    != post[b].service by {
                    if b < post.len() - 1 {
                        assert(post[a] == mid[a] && post[b] == mid[b]);
                    } else {
                        assert(post[a] == mid[a] && post[b] == win_model);
                    }
                }
            }
            assert(final(self)@ =~= old(self)@.insert(
                service@,
                prune_spec(stamps_of(old(self)@, service@), now).push(now),
            ));
            assert(final(self).wf()) by {
                assert forall|a: int| 0 <= a < post.len() implies sorted_stamps(
                    #[trigger] post[a].stamps,
                ) by {
                    if a < post.len() - 1 {
                        assert(post[a] == mid[a]);
                    }
                }
            }
        }
    }
}

/// The timestamps of `stamps` that still count at `now`, in order.
fn prune_stamps(stamps: &Vec<u64>, now: u64) -> (r: Vec<u64>)
    ensures
        r@ == prune_spec(stamps@, now),
{
    let minute_ago = if now >= WINDOW_SECONDS {
        now - WINDOW_SECONDS
    } else {
        0
    };
    let mut out: Vec<u64> = Vec::new();
    let mut i: usize = 0;
    proof {
        assert(stamps@.skip(0) =~= stamps@);
        assert(out@ + prune_spec(stamps@, now) =~= prune_spec(stamps@, now));
    }
    while i < stamps.len()
        invariant
            i <= stamps@.len(),
            minute_ago == cutoff(now),
            out@ + prune_spec(stamps@.skip(i as int), now) == prune_spec(stamps@, now),
        decreases stamps@.len() - i,
    {
        proof {
            assert(stamps@.skip(i as int).drop_first() =~= stamps@.skip(i + 1));
            assert(stamps@.skip(i as int).first() == stamps@[i as int]);
        }
        let ts = stamps[i];
        if ts > minute_ago && ts <= now {
            out.push(ts);
            proof {
                assert(out@ + prune_spec(stamps@.skip(i + 1), now) =~= prune_spec(stamps@, now));
            }
        } else {
            proof {
                assert(out@ + prune_spec(stamps@.skip(i + 1), now) =~= prune_spec(stamps@, now));
            }
        }
        i += 1;
    }
    proof {
        assert(stamps@.skip(stamps@.len() as int) =~= Seq::<u64>::empty());
        assert(out@ =~= prune_spec(stamps@, now));
    }
    out
}

/// The wait that an already pruned window demands.
fn compute_wait(pruned: &Vec<u64>, requests_per_minute: u32, now: u64) -> (r: u64)
    ensures
        r == wait_from_pruned(pruned@, requests_per_minute, now),
{
    if pruned.len() >= requests_per_minute as usize && pruned.len() > 0 {
        let oldest = pruned[0];
        if oldest <= now && now - oldest < 60 {
            60 - (now - oldest)
        } else {
            0
        }
    } else {
        0
    }
}

} // verus!
