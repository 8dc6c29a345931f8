//! The chat consumer's decision core: command parsing, rate limiting and
//! prompt extraction. The network half — the model API calls — lives
//! outside the library and acts only on what these functions decide.

use crate::message::Segment;
use vstd::prelude::*;
use vstd::string::StrSliceExecFns;
use vstd::string::StringExecFns;

verus! {

/// How many requests one user may make inside the window.
pub const RATE_LIMIT_MAX: usize = 3;

/// The rate window, in seconds.
pub const RATE_LIMIT_WINDOW_SECS: u64 = 60;

/// The (file, URL) pairs of the image segments that carry a URL.
pub open spec fn images_of(segs: Seq<Segment>) -> Seq<(Seq<char>, Seq<char>)>
    decreases segs.len(),
{
    if segs.len() == 0 {
        Seq::empty()
    } else {
        images_of(segs.drop_last()) + (match segs.last() {
            Segment::Image { file, url: Some(u), .. } => seq![(file@, u@)],
            _ => Seq::<(Seq<char>, Seq<char>)>::empty(),
        })
    }
}

/// Splits a received message into its text prompt and the images to
/// fetch: the plain text concatenated, and each image that names a URL.
pub fn extract_text_and_images(segs: &Vec<Segment>) -> (r: (String, Vec<(String, String)>))
    ensures
        r.0@ == crate::message::plain_text_of(segs@),
        r.1@.len() == images_of(segs@).len(),
        forall|i: int|
            0 <= i < r.1@.len() ==> ((#[trigger] r.1@[i]).0@, r.1@[i].1@) == images_of(segs@)[i],
{
    let mut text = String::new();
    let mut images: Vec<(String, String)> = Vec::new();
    let n = segs.len();
    let mut i: usize = 0;
    while i < n
        invariant
            n == segs@.len(),
            i <= n,
            text@ == crate::message::plain_text_of(segs@.take(i as int)),
            images@.len() == images_of(segs@.take(i as int)).len(),
            forall|j: int|
                0 <= j < images@.len() ==> ((#[trigger] images@[j]).0@, images@[j].1@) == images_of(
                    segs@.take(i as int),
                )[j],
        decreases n - i,
    {
        proof {
            assert(segs@.take(i + 1).drop_last() =~= segs@.take(i as int));
            assert(segs@.take(i + 1).last() == segs@[i as int]);
        }
        match &segs[i] {
            Segment::Text { text: t } => {
                text.append(t.as_str());
            },
            Segment::Image { file, url, .. } => {
                match url {
                    Some(u) => {
                        images.push((file.clone(), u.clone()));
                    },
                    None => {},
                }
            },
            _ => {},
        }
        i = i + 1;
    }
    proof {
        assert(segs@.take(n as int) =~= segs@);
    }
    (text, images)
}

/// Whether a character counts as surrounding whitespace for command
/// parsing.
pub open spec fn is_sp(c: char) -> bool {
    c == ' ' || c == '\t' || c == '\n' || c == '\r'
}

/// Whether a character counts as surrounding whitespace.
pub fn is_sp_exec(c: char) -> (r: bool)
    ensures
        r == is_sp(c),
{
    c == ' ' || c == '\t' || c == '\n' || c == '\r'
}

/// The number of leading whitespace characters.
pub open spec fn lead_sp(s: Seq<char>) -> int
    decreases s.len(),
{
    if s.len() == 0 {
        0
    } else if is_sp(s.first()) {
        1 + lead_sp(s.drop_first())
    } else {
        0
    }
}

/// The number of trailing whitespace characters.
pub open spec fn trail_sp(s: Seq<char>) -> int
    decreases s.len(),
{
    if s.len() == 0 {
        0
    } else if is_sp(s.last()) {
        1 + trail_sp(s.drop_last())
    } else {
        0
    }
}

/// The text with surrounding whitespace removed.
pub open spec fn trimmed(s: Seq<char>) -> Seq<char> {
    if lead_sp(s) == s.len() {
        Seq::empty()
    } else {
        s.subrange(lead_sp(s), s.len() - trail_sp(s))
    }
}

/// A whitespace run up to a non-whitespace character (or the end) is
/// exactly the leading count.
proof fn lemma_lead_sp_eq(s: Seq<char>, lo: int)
    requires
        0 <= lo <= s.len(),
        forall|i: int| 0 <= i < lo ==> is_sp(#[trigger] s[i]),
        lo < s.len() ==> !is_sp(s[lo]),
    ensures
        lead_sp(s) == lo,
    decreases s.len(),
{
    if s.len() > 0 {
        if lo == 0 {
        } else {
            assert(is_sp(s.first()));
            assert forall|i: int| 0 <= i < lo - 1 implies is_sp(#[trigger] s.drop_first()[i]) by {
                assert(s.drop_first()[i] == s[i + 1]);
            }
            if lo - 1 < s.drop_first().len() {
                assert(s.drop_first()[lo - 1] == s[lo]);
            }
            lemma_lead_sp_eq(s.drop_first(), lo - 1);
        }
    }
}

/// A whitespace run back from the end (stopped by a non-whitespace
/// character, or covering everything) is exactly the trailing count.
proof fn lemma_trail_sp_eq(s: Seq<char>, k: int)
    requires
        0 <= k <= s.len(),
        forall|i: int| s.len() - k <= i < s.len() ==> is_sp(#[trigger] s[i]),
        k < s.len() ==> !is_sp(s[s.len() - k - 1]),
    ensures
        trail_sp(s) == k,
    decreases s.len(),
{
    if s.len() > 0 {
        if k == 0 {
        } else {
            assert(is_sp(s.last()));
            assert forall|i: int|
                s.drop_last().len() - (k - 1) <= i < s.drop_last().len() implies is_sp(
                #[trigger] s.drop_last()[i],
            ) by {
                assert(s.drop_last()[i] == s[i]);
            }
            if k - 1 < s.drop_last().len() {
                assert(s.drop_last()[s.drop_last().len() - (k - 1) - 1] == s[s.len() - k - 1]);
            }
            lemma_trail_sp_eq(s.drop_last(), k - 1);
        }
    }
}

/// Trims surrounding whitespace.
pub fn trim_text(s: &str) -> (r: String)
    ensures
        r@ == trimmed(s@),
{
    let n = s.unicode_len();
    let mut lo: usize = 0;
    while lo < n && is_sp_exec(s.get_char(lo))
        invariant
            n == s@.len(),
            lo <= n,
            forall|i: int| 0 <= i < lo ==> is_sp(#[trigger] s@[i]),
        decreases n - lo,
    {
        lo = lo + 1;
    }
    if lo == n {
        proof {
            lemma_lead_sp_eq(s@, n as int);
        }
        return String::new();
    }
    proof {
        lemma_lead_sp_eq(s@, lo as int);
    }
    let mut hi: usize = n;
    while hi > lo && is_sp_exec(s.get_char(hi - 1))
        invariant
            n == s@.len(),
            lo < n,
            !is_sp(s@[lo as int]),
            lo <= hi <= n,
            forall|i: int| hi <= i < n ==> is_sp(#[trigger] s@[i]),
        decreases hi,
    {
        hi = hi - 1;
    }
    proof {
        if hi == lo {
            assert(is_sp(s@[lo as int]));
        }
        lemma_trail_sp_eq(s@, (n - hi) as int);
    }
    let part = s.substring_char(lo, hi);
    part.to_owned()
}

/// The position of the first space, or the length if none occurs.
pub open spec fn first_space(s: Seq<char>) -> int
    decreases s.len(),
{
    if s.len() == 0 {
        0
    } else if s.first() == ' ' {
        0
    } else {
        1 + first_space(s.drop_first())
    }
}

/// A space-free prefix up to a space (or the end) pins the position.
proof fn lemma_first_space_eq(s: Seq<char>, p: int)
    requires
        0 <= p <= s.len(),
        forall|i: int| 0 <= i < p ==> #[trigger] s[i] != ' ',
        p < s.len() ==> s[p] == ' ',
    ensures
        first_space(s) == p,
    decreases s.len(),
{
    if s.len() > 0 {
        if p == 0 {
        } else {
            assert(s[0] != ' ');
            assert forall|i: int| 0 <= i < p - 1 implies #[trigger] s.drop_first()[i] != ' ' by {
                assert(s.drop_first()[i] == s[i + 1]);
            }
            if p - 1 < s.drop_first().len() {
                assert(s.drop_first()[p - 1] == s[p]);
            }
            lemma_first_space_eq(s.drop_first(), p - 1);
        }
    }
}

/// The command part of a received text: the trimmed text up to its first
/// space.
pub open spec fn cmd_of(t: Seq<char>) -> Seq<char> {
    trimmed(t).take(first_space(trimmed(t)))
}

/// The prompt part of a received text: what follows the first space of
/// the trimmed text, itself trimmed; empty when no space occurs.
pub open spec fn prompt_of(t: Seq<char>) -> Seq<char> {
    let tr = trimmed(t);
    if first_space(tr) < tr.len() {
        trimmed(tr.subrange(first_space(tr) + 1, tr.len() as int))
    } else {
        Seq::empty()
    }
}

/// Splits a received text into its command word and its prompt.
pub fn parse_command(text: &String) -> (r: (String, String))
    ensures
        r.0@ == cmd_of(text@),
        r.1@ == prompt_of(text@),
{
    let tr = trim_text(text.as_str());
    let trs = tr.as_str();
    let n = trs.unicode_len();
    let mut p: usize = 0;
    while p < n && trs.get_char(p) != ' '
        invariant
            n == trs@.len(),
            p <= n,
            forall|i: int| 0 <= i < p ==> #[trigger] trs@[i] != ' ',
        decreases n - p,
    {
        p = p + 1;
    }
    proof {
        lemma_first_space_eq(trs@, p as int);
    }
    let cmd = trs.substring_char(0, p).to_owned();
    proof {
        assert(trs@.subrange(0, p as int) =~= trs@.take(p as int));
    }
    if p < n {
        let rest = trs.substring_char(p + 1, n);
        let prompt = trim_text(rest);
        (cmd, prompt)
    } else {
        (cmd, String::new())
    }
}

/// The position one past the last dot, or zero if none occurs: where the
/// file extension starts.
pub open spec fn ext_start(s: Seq<char>) -> int
    decreases s.len(),
{
    if s.len() == 0 {
        0
    } else if s.last() == '.' {
        s.len() as int
    } else {
        ext_start(s.drop_last())
    }
}

/// The file extension: what follows the last dot, or the whole name if
/// no dot occurs.
pub open spec fn ext_of(s: Seq<char>) -> Seq<char> {
    s.subrange(ext_start(s), s.len() as int)
}

/// The extension start never exceeds the text.
proof fn lemma_ext_start_bound(s: Seq<char>)
    ensures
        0 <= ext_start(s) <= s.len(),
    decreases s.len(),
{
    if s.len() > 0 && s.last() != '.' {
        lemma_ext_start_bound(s.drop_last());
    }
}

/// A dot-free suffix after a dot (or covering everything) pins the
/// extension start.
proof fn lemma_ext_start_eq(s: Seq<char>, p: int)
    requires
        0 <= p <= s.len(),
        forall|i: int| p <= i < s.len() ==> #[trigger] s[i] != '.',
        p > 0 ==> s[p - 1] == '.',
    ensures
        ext_start(s) == p,
    decreases s.len(),
{
    if s.len() > 0 {
        if p == s.len() {
        } else {
            assert(s.last() != '.');
            assert forall|i: int| p <= i < s.drop_last().len() implies #[trigger] s.drop_last()[i]
                != '.' by {
                assert(s.drop_last()[i] == s[i]);
            }
            if p > 0 {
                assert(s.drop_last()[p - 1] == s[p - 1]);
            }
            lemma_ext_start_eq(s.drop_last(), p);
        }
    }
}

/// The content type the chat consumer reports for an image file name.
pub open spec fn mime_of(s: Seq<char>) -> Seq<char> {
    let e = ext_of(s);
    if e == "png"@ {
        "image/png"@
    } else if e == "jpg"@ || e == "jpeg"@ {
        "image/jpeg"@
    } else if e == "gif"@ {
        "image/gif"@
    } else if e == "webp"@ {
        "image/webp"@
    } else {
        "application/octet-stream"@
    }
}

/// Names the content type of an image by its file extension.
pub fn get_mime_type(file_name: &String) -> (r: &'static str)
    ensures
        r@ == mime_of(file_name@),
{
    let s = file_name.as_str();
    let n = s.unicode_len();
    let mut p: usize = n;
    while p > 0 && s.get_char(p - 1) != '.'
        invariant
            n == s@.len(),
            p <= n,
            forall|i: int| p <= i < n ==> #[trigger] s@[i] != '.',
        decreases p,
    {
        p = p - 1;
    }
    proof {
        lemma_ext_start_eq(s@, p as int);
    }
    let ext = s.substring_char(p, n).to_owned();
    if crate::event_decode::str_is(&ext, "png") {
        "image/png"
    } else if crate::event_decode::str_is(&ext, "jpg") || crate::event_decode::str_is(
        &ext,
        "jpeg",
    ) {
        "image/jpeg"
    } else if crate::event_decode::str_is(&ext, "gif") {
        "image/gif"
    } else if crate::event_decode::str_is(&ext, "webp") {
        "image/webp"
    } else {
        "application/octet-stream"
    }
}

/// Whether a request at `t` still counts against the window at `now`.
pub open spec fn in_window(t: u64, now: u64) -> bool {
    t <= now && now - t < RATE_LIMIT_WINDOW_SECS
}

/// The chat consumer's correlation-free state: per-user request times
/// for rate limiting.
pub struct ChatApp {
    rate: Vec<(i64, Vec<u64>)>,
}

/// The request times recorded for one user.
pub open spec fn user_times(rate: Seq<(i64, Vec<u64>)>, user_id: i64) -> Seq<u64>
    decreases rate.len(),
{
    if rate.len() == 0 {
        Seq::empty()
    } else if rate.first().0 == user_id {
        rate.first().1@
    } else {
        user_times(rate.drop_first(), user_id)
    }
}

impl ChatApp {
    /// The request times recorded for one user.
    pub closed spec fn times_of(self, user_id: i64) -> Seq<u64> {
        user_times(self.rate@, user_id)
    }

    /// A fresh chat consumer with no recorded requests.
    pub fn new() -> (c: ChatApp)
        ensures
            forall|u: i64| c.times_of(u) == Seq::<u64>::empty(),
    {
        let c = ChatApp { rate: Vec::new() };
        proof {
            assert(c.rate@.len() == 0);
        }
        c
    }

    /// Admits or refuses one request by `user_id` at `now`: requests
    /// older than the window are forgotten, at most the limit may stand
    /// inside it, and an admitted request is recorded at `now`.
    pub fn check_rate_limit(&mut self, user_id: i64, now: u64) -> (ok: bool)
        ensures
            ok == (old(self).times_of(user_id).filter(|t: u64| in_window(t, now)).len()
                < RATE_LIMIT_MAX),
            final(self).times_of(user_id) == if ok {
                old(self).times_of(user_id).filter(|t: u64| in_window(t, now)).push(now)
            } else {
                old(self).times_of(user_id).filter(|t: u64| in_window(t, now))
            },
    {
        let old_times: Vec<u64> = self.take_user_times(user_id);
        let mut kept: Vec<u64> = Vec::new();
        let n = old_times.len();
        let mut i: usize = 0;
        proof {
            assert(old_times@.take(0) =~= Seq::<u64>::empty());
            reveal(Seq::filter);
        }
        while i < n
            invariant
                n == old_times@.len(),
                i <= n,
                kept@ == old_times@.take(i as int).filter(|t: u64| in_window(t, now)),
            decreases n - i,
        {
            let t = old_times[i];
            proof {
                reveal(Seq::filter);
                assert(old_times@.take(i + 1).drop_last() =~= old_times@.take(i as int));
                assert(old_times@.take(i + 1).last() == t);
            }
            if now >= t && now - t < RATE_LIMIT_WINDOW_SECS {
                kept.push(t);
            } else {
                assert(!in_window(old_times@[i as int], now));
            }
            i = i + 1;
        }
        proof {
            assert(old_times@.take(n as int) =~= old_times@);
        }
        let ok = kept.len() < RATE_LIMIT_MAX;
        if ok {
            kept.push(now);
        }
        self.put_user_times(user_id, kept);
        ok
    }

    /// Removes and yields the first times entry recorded for one user.
    fn take_user_times(&mut self, user_id: i64) -> (r: Vec<u64>)
        ensures
            r@ == user_times(old(self).rate@, user_id),
    {
        let n = self.rate.len();
        let mut i: usize = 0;
        while i < n
            invariant
                n == self.rate@.len(),
                *self == *old(self),
                i <= n,
                forall|j: int| 0 <= j < i ==> (#[trigger] self.rate@[j]).0 != user_id,
            decreases n - i,
        {
            if self.rate[i].0 == user_id {
                let (_, times) = self.rate.remove(i);
                proof {
                    lemma_user_times_remove(old(self).rate@, i as int);
                }
                return times;
            }
            i = i + 1;
        }
        proof {
            lemma_user_times_absent(self.rate@, user_id);
        }
        Vec::new()
    }

    /// Records the times for one user: the fresh entry stands first, so
    /// it is what a lookup finds.
    fn put_user_times(&mut self, user_id: i64, times: Vec<u64>)
        ensures
            user_times(final(self).rate@, user_id) == times@,
    {
        self.rate.insert(0, (user_id, times));
        proof {
            assert(self.rate@.first().0 == user_id);
        }
    }
}

/// Looking a user up skips unrelated entries.
proof fn lemma_user_times_remove(rate: Seq<(i64, Vec<u64>)>, i: int)
    requires
        0 <= i < rate.len(),
        forall|j: int| 0 <= j < i ==> (#[trigger] rate[j]).0 != rate[i].0,
    ensures
        user_times(rate, rate[i].0) == rate[i].1@,
    decreases rate.len(),
{
    if i > 0 {
        assert(rate.drop_first()[i - 1] == rate[i]);
        assert forall|j: int| 0 <= j < i - 1 implies (#[trigger] rate.drop_first()[j]).0
            != rate.drop_first()[i - 1].0 by {
            assert(rate.drop_first()[j] == rate[j + 1]);
        }
        lemma_user_times_remove(rate.drop_first(), i - 1);
    }
}

/// A user with no entry has no recorded times.
proof fn lemma_user_times_absent(rate: Seq<(i64, Vec<u64>)>, user_id: i64)
    requires
        forall|j: int| 0 <= j < rate.len() ==> (#[trigger] rate[j]).0 != user_id,
    ensures
        user_times(rate, user_id) == Seq::<u64>::empty(),
    decreases rate.len(),
{
    if rate.len() > 0 {
        assert forall|j: int| 0 <= j < rate.drop_first().len() implies (
        #[trigger] rate.drop_first()[j]).0 != user_id by {
            assert(rate.drop_first()[j] == rate[j + 1]);
        }
        lemma_user_times_absent(rate.drop_first(), user_id);
    }
}

} // verus!
