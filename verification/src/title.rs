//! The content-side title watcher. The remote application signals unread
//! messages by prefixing the document title with a parenthesized count, e.g.
//! `(3) New messages`. The watcher polls the title and issues a notification
//! request whenever the title matches that convention and differs from the
//! last title it issued one for; a repeated identical title is suppressed
//! until the title changes again.

use vstd::prelude::*;
use vstd::string::StrSliceExecFns;
use crate::requests::NotificationRequest;
use crate::text::str_eq;

verus! {

/// A decimal digit.
pub open spec fn is_count_digit(c: char) -> bool {
    48 <= c as u32 <= 57
}

/// First index at or after `from` that does not hold a decimal digit, or
/// `s.len()` when digits run to the end.
pub open spec fn digit_run_end(s: Seq<char>, from: int) -> int
    decreases s.len() - from,
{
    if from < 0 || from >= s.len() {
        from
    } else if is_count_digit(s[from]) {
        digit_run_end(s, from + 1)
    } else {
        from
    }
}

/// The unread-badge convention of the remote application: the title starts
/// with `(`, one or more decimal digits, and `)`; anything may follow.
pub open spec fn is_notification_title(s: Seq<char>) -> bool {
    let e = digit_run_end(s, 1);
    s.len() >= 1 && s[0] == '(' && e > 1 && e < s.len() && s[e] == ')'
}

/// End of the digit run starting at `from`, as `digit_run_end` gives it.
fn scan_digits(s: &str, from: usize) -> (e: usize)
    requires
        from <= s@.len(),
    ensures
        e as int == digit_run_end(s@, from as int),
{
    let n = s.unicode_len();
    let mut i: usize = from;
    while i < n
        invariant
            from <= i <= n,
            n == s@.len(),
            digit_run_end(s@, from as int) == digit_run_end(s@, i as int),
        decreases n - i,
    {
        let u = s.get_char(i) as u32;
        if !(48 <= u && u <= 57) {
            return i;
        }
        i = i + 1;
    }
    i
}

/// Whether a document title matches the unread-badge pattern.
pub fn title_matches(title: &str) -> (r: bool)
    ensures
        r == is_notification_title(title@),
{
    let n = title.unicode_len();
    if n == 0 {
        return false;
    }
    if title.get_char(0) != '(' {
        return false;
    }
    let e = scan_digits(title, 1);
    if e <= 1 || e >= n {
        return false;
    }
    title.get_char(e) == ')'
}

/// Whether observing title `t` while `last` is the last issued value issues
/// a notification request: `t` matches the badge pattern and differs from
/// the last issued title.
pub open spec fn issues(last: Option<Seq<char>>, t: Seq<char>) -> bool {
    is_notification_title(t) && last != Some(t)
}

/// The watcher state after observing `t` in state `last`.
pub open spec fn next_state(last: Option<Seq<char>>, t: Seq<char>) -> Option<Seq<char>> {
    if issues(last, t) {
        Some(t)
    } else {
        last
    }
}

/// The watcher state after observing the whole sequence `ts`, oldest first,
/// starting from state `last`.
pub open spec fn state_after(last: Option<Seq<char>>, ts: Seq<Seq<char>>) -> Option<Seq<char>>
    decreases ts.len(),
{
    if ts.len() == 0 {
        last
    } else {
        next_state(state_after(last, ts.drop_last()), ts.last())
    }
}

/// The titles a notification request is issued for, in order, when the
/// sequence `ts` is observed starting from state `last`.
pub open spec fn issued_titles(last: Option<Seq<char>>, ts: Seq<Seq<char>>) -> Seq<Seq<char>>
    decreases ts.len(),
{
    if ts.len() == 0 {
        Seq::empty()
    } else {
        let prev = issued_titles(last, ts.drop_last());
        if issues(state_after(last, ts.drop_last()), ts.last()) {
            prev.push(ts.last())
        } else {
            prev
        }
    }
}

/// One content-load session's title-watch state: the last title a
/// notification was issued for, if any. A fresh watcher is installed on
/// every page load, so the state never outlives a session.
pub struct TitleWatch {
    last_issued: Option<String>,
}

impl View for TitleWatch {
    type V = Option<Seq<char>>;

    closed spec fn view(&self) -> Option<Seq<char>> {
        match self.last_issued {
            Some(t) => Some(t@),
            None => None,
        }
    }
}

impl TitleWatch {
    /// A watcher that has issued nothing yet.
    pub fn new() -> (w: TitleWatch)
        ensures
            w@ is None,
    {
        TitleWatch { last_issued: None }
    }

    /// One polling step: observe the current document title and decide
    /// whether to issue a notification request for it.
    pub fn observe(&mut self, current_title: &str) -> (r: Option<NotificationRequest>)
        ensures
            final(self)@ == next_state(old(self)@, current_title@),
            r is Some <==> issues(old(self)@, current_title@),
            r matches Some(req) ==> req.title@ == current_title@,
    {
        let matches_badge = title_matches(current_title);
        let differs = match &self.last_issued {
            Some(prev) => !str_eq(prev.as_str(), current_title),
            None => true,
        };
        if matches_badge && differs {
            self.last_issued = Some(current_title.to_owned());
            Some(NotificationRequest { title: current_title.to_owned() })
        } else {
            None
        }
    }
}

/// The views of a sequence of observed titles.
pub open spec fn title_views(ts: Seq<String>) -> Seq<Seq<char>> {
    ts.map_values(|t: String| t@)
}

/// The titles carried by a sequence of notification requests.
pub open spec fn request_titles(rs: Seq<NotificationRequest>) -> Seq<Seq<char>> {
    rs.map_values(|r: NotificationRequest| r.title@)
}

/// Run a fresh watcher over a whole sequence of observed titles, oldest
/// first, and collect the notification requests it issues, in order.
pub fn observe_all(titles: &Vec<String>) -> (reqs: Vec<NotificationRequest>)
    ensures
        request_titles(reqs@) == issued_titles(None::<Seq<char>>, title_views(titles@)),
{
    let mut w = TitleWatch::new();
    let mut reqs: Vec<NotificationRequest> = Vec::new();
    let mut i: usize = 0;
    while i < titles.len()
        invariant
            i <= titles@.len(),
            w@ == state_after(None::<Seq<char>>, title_views(titles@).take(i as int)),
            request_titles(reqs@) == issued_titles(
                None::<Seq<char>>,
                title_views(titles@).take(i as int),
            ),
        decreases titles@.len() - i,
    {
        let ghost reqs_before = reqs@;
        let r = w.observe(titles[i].as_str());
        proof {
            let tv = title_views(titles@);
            assert(tv.take(i as int + 1).drop_last() =~= tv.take(i as int));
            assert(tv.take(i as int + 1).last() == titles@[i as int]@);
        }
        match r {
            Some(req) => {
                reqs.push(req);
                proof {
                    assert(request_titles(reqs@) =~= request_titles(reqs_before).push(
                        reqs@.last().title@,
                    ));
                }
            },
            None => {},
        }
        i = i + 1;
    }
    proof {
        assert(title_views(titles@).take(titles@.len() as int) =~= title_views(titles@));
    }
    reqs
}

/// Every title a notification request is issued for matches the badge
/// pattern; a title that does not match never produces a request.
pub proof fn lemma_issued_titles_match(last: Option<Seq<char>>, ts: Seq<Seq<char>>, k: int)
    requires
        0 <= k < issued_titles(last, ts).len(),
    ensures
        is_notification_title(issued_titles(last, ts)[k]),
    decreases ts.len(),
{
    if ts.len() > 0 {
        let prev = issued_titles(last, ts.drop_last());
        if k < prev.len() {
            lemma_issued_titles_match(last, ts.drop_last(), k);
        }
    }
}

/// After any sequence of observations the watcher state holds exactly the
/// last issued title, or the initial state when nothing was issued.
pub proof fn lemma_state_is_last_issued(last: Option<Seq<char>>, ts: Seq<Seq<char>>)
    ensures
        issued_titles(last, ts).len() == 0 ==> state_after(last, ts) == last,
        issued_titles(last, ts).len() > 0 ==> state_after(last, ts) == Some(
            issued_titles(last, ts).last(),
        ),
    decreases ts.len(),
{
    if ts.len() > 0 {
        lemma_state_is_last_issued(last, ts.drop_last());
    }
}

/// No two consecutive issued requests carry the same title: an unchanged
/// matching title is suppressed until the title changes again.
pub proof fn lemma_no_consecutive_duplicates(last: Option<Seq<char>>, ts: Seq<Seq<char>>, k: int)
    requires
        0 <= k,
        k + 1 < issued_titles(last, ts).len(),
    ensures
        issued_titles(last, ts)[k] != issued_titles(last, ts)[k + 1],
    decreases ts.len(),
{
    if ts.len() > 0 {
        let prev_ts = ts.drop_last();
        let prev = issued_titles(last, prev_ts);
        if issues(state_after(last, prev_ts), ts.last()) {
            if k + 1 < prev.len() {
                lemma_no_consecutive_duplicates(last, prev_ts, k);
            } else {
                lemma_state_is_last_issued(last, prev_ts);
            }
        } else {
            lemma_no_consecutive_duplicates(last, prev_ts, k);
        }
    }
}

/// A request is issued at step `i` exactly when the title observed there
/// matches the badge pattern and differs from the value issued last before
/// step `i`: the issued sequence then grows by that one title, and is
/// unchanged otherwise.
pub proof fn lemma_issue_exactly_when(last: Option<Seq<char>>, ts: Seq<Seq<char>>, i: int)
    requires
        0 <= i < ts.len(),
    ensures
        issues(state_after(last, ts.take(i)), ts[i]) ==> issued_titles(last, ts.take(i + 1))
            == issued_titles(last, ts.take(i)).push(ts[i]),
        !issues(state_after(last, ts.take(i)), ts[i]) ==> issued_titles(last, ts.take(i + 1))
            == issued_titles(last, ts.take(i)),
{
    assert(ts.take(i + 1).drop_last() =~= ts.take(i));
    assert(ts.take(i + 1).last() == ts[i]);
}

} // verus!
