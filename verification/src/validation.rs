use vstd::prelude::*;
use vstd::string::StrSliceExecFns;
use vstd::string::StringExecFns;
use crate::error::GenesisError;

verus! {

/// Body of a generation request, as validated before admission.
#[derive(Debug)]
pub struct GenerateRequest {
    pub prompt: String,
    pub backend: Option<String>,
}

// ---------------------------------------------------------------------------
// String helpers
// ---------------------------------------------------------------------------

/// Character-wise string equality, with the meaning pinned to the views.
pub fn str_eq(a: &str, b: &str) -> (r: bool)
    ensures
        r == (a@ == b@),
{
    let sa = a.to_owned();
    let sb = b.to_owned();
    sa == sb
}

/// `needle` occurs as a contiguous run inside `hay`.
pub open spec fn contains_seq(hay: Seq<char>, needle: Seq<char>) -> bool {
    exists|i: int|
        0 <= i && i + needle.len() <= hay.len() && #[trigger] hay.subrange(i, i + needle.len())
            == needle
}

/// The run of `hay` starting at `i` equals `needle`.
fn matches_at(hay: &str, needle: &str, i: usize, hay_len: usize, needle_len: usize) -> (r: bool)
    requires
        hay_len == hay@.len(),
        needle_len == needle@.len(),
        i + needle_len <= hay_len,
    ensures
        r == (hay@.subrange(i as int, i as int + needle@.len() as int) == needle@),
{
    let mut j: usize = 0;
    while j < needle_len
        invariant
            hay_len == hay@.len(),
            needle_len == needle@.len(),
            i + needle_len <= hay_len,
            j <= needle_len,
            forall|k: int| 0 <= k < j ==> hay@[i + k] == needle@[k],
        decreases needle_len - j,
    {
        if hay.get_char(i + j) != needle.get_char(j) {
            proof {
                assert(hay@.subrange(i as int, i as int + needle@.len() as int)[j as int]
                    == hay@[i + j as int]);
            }
            return false;
        }
        j += 1;
    }
    proof {
        assert(hay@.subrange(i as int, i as int + needle@.len() as int) =~= needle@);
    }
    true
}

/// Substring search: does `needle` occur anywhere in `hay`?
pub fn contains_sub(hay: &str, needle: &str) -> (r: bool)
    ensures
        r == contains_seq(hay@, needle@),
{
    let h = hay.unicode_len();
    let n = needle.unicode_len();
    if n > h {
        return false;
    }
    let mut i: usize = 0;
    while i <= h - n
        invariant
            h == hay@.len(),
            n == needle@.len(),
            n <= h,
            i <= h - n + 1,
            forall|j: int|
                0 <= j < i ==> #[trigger] hay@.subrange(j, j + needle@.len() as int) != needle@,
        decreases h - n + 1 - i,
    {
        if matches_at(hay, needle, i, h, n) {
            return true;
        }
        if i == h - n {
            return false;
        }
        i += 1;
    }
    false
}

// ---------------------------------------------------------------------------
// Prompt policy
// ---------------------------------------------------------------------------

/// What str::to_lowercase returns; the result depends on the characters alone.
pub uninterp spec fn lower_of(s: Seq<char>) -> Seq<char>;

/// Relies on str::to_lowercase: the lowercased text, a function of the
/// characters alone; an empty input gives an empty result.
#[verifier::external_body]
fn to_lowercase(s: &str) -> (r: String)
    ensures
        r@ == lower_of(s@),
        s@.len() == 0 ==> r@.len() == 0,
{
    s.to_lowercase()
}

/// The keywords a prompt may not contain (compared on the lowercased text).
pub open spec fn harmful_keywords() -> Seq<Seq<char>> {
    seq!["delete"@, "drop"@, "remove"@, "system"@, "admin"@]
}

/// Some harmful keyword occurs in the given (already lowercased) text.
pub open spec fn has_harmful(s: Seq<char>) -> bool {
    exists|k: int| 0 <= k < harmful_keywords().len() && contains_seq(s, harmful_keywords()[k])
}

/// Checks the lowercased prompt text against every harmful keyword.
pub fn contains_harmful(lowered: &str) -> (r: bool)
    ensures
        r == has_harmful(lowered@),
{
    let r = contains_sub(lowered, "delete") || contains_sub(lowered, "drop")
        || contains_sub(lowered, "remove") || contains_sub(lowered, "system")
        || contains_sub(lowered, "admin");
    proof {
        if !r {
            assert forall|k: int| 0 <= k < harmful_keywords().len() implies !contains_seq(
                lowered@,
                harmful_keywords()[k],
            ) by {
                if k == 0 {
                    assert(harmful_keywords()[0] == "delete"@);
                } else if k == 1 {
                    assert(harmful_keywords()[1] == "drop"@);
                } else if k == 2 {
                    assert(harmful_keywords()[2] == "remove"@);
                } else if k == 3 {
                    assert(harmful_keywords()[3] == "system"@);
                } else {
                    assert(harmful_keywords()[4] == "admin"@);
                }
            }
        } else {
            assert(harmful_keywords()[0] == "delete"@);
            assert(harmful_keywords()[1] == "drop"@);
            assert(harmful_keywords()[2] == "remove"@);
            assert(harmful_keywords()[3] == "system"@);
            assert(harmful_keywords()[4] == "admin"@);
        }
    }
    r
}

/// The whitespace characters blankness is judged by.
pub open spec fn is_space(c: char) -> bool {
    c == ' ' || c == '\t' || c == '\n' || c == '\r'
}

/// A text of whitespace only (an empty text is blank).
pub open spec fn is_blank(s: Seq<char>) -> bool {
    forall|i: int| 0 <= i < s.len() ==> is_space(s[i])
}

/// Checks whether the text holds whitespace only.
fn is_blank_exec(s: &str) -> (r: bool)
    ensures
        r == is_blank(s@),
{
    let len = s.unicode_len();
    let mut i: usize = 0;
    while i < len
        invariant
            len == s@.len(),
            i <= len,
            forall|j: int| 0 <= j < i ==> is_space(s@[j]),
        decreases len - i,
    {
        let c = s.get_char(i);
        if !(c == ' ' || c == '\t' || c == '\n' || c == '\r') {
            return false;
        }
        i += 1;
    }
    true
}

/// The prompt length policy, in characters.
pub open spec fn prompt_len_ok(s: Seq<char>) -> bool {
    10 <= s.len() <= 2000
}

/// The backend selector policy: absent, or one of the two named engines.
pub open spec fn backend_ok(b: Option<String>) -> bool {
    match b {
        None => true,
        Some(s) => s@ == "ollama"@ || s@ == "openai"@,
    }
}

/// A request the orchestrator admits: prompt length in policy, a known
/// backend selector, a prompt that is not all whitespace and contains no
/// harmful keyword once lowercased.
pub open spec fn valid_generate_request(r: GenerateRequest) -> bool {
    &&& prompt_len_ok(r.prompt@)
    &&& backend_ok(r.backend)
    &&& !is_blank(r.prompt@)
    &&& !has_harmful(lower_of(r.prompt@))
}

/// Validates a generation request, with one validation error per policy,
/// checked in a fixed order. Returns `Ok` exactly on valid requests.
pub fn validate_generate_request(req: &GenerateRequest) -> (r: Result<(), GenesisError>)
    ensures
        r is Ok <==> valid_generate_request(*req),
        !prompt_len_ok(req.prompt@) ==> (r matches Err(GenesisError::ValidationError(m))
            && m@ == "prompt: Prompt must be between 10 and 2000 characters"@),
        prompt_len_ok(req.prompt@) && !backend_ok(req.backend) ==> (r matches Err(
            GenesisError::ValidationError(m),
        ) && m@ == "backend: Backend must be 'ollama' or 'openai'"@),
        prompt_len_ok(req.prompt@) && backend_ok(req.backend) && is_blank(req.prompt@) ==> (
        r matches Err(GenesisError::ValidationError(m)) && m@ == "Prompt cannot be empty"@),
        prompt_len_ok(req.prompt@) && backend_ok(req.backend) && !is_blank(req.prompt@)
            && has_harmful(lower_of(req.prompt@)) ==> (r matches Err(
            GenesisError::ValidationError(m),
        ) && m@ == "Prompt contains potentially harmful keywords"@),
{
    let len = req.prompt.as_str().unicode_len();
    if len < 10 || len > 2000 {
        return Err(
            GenesisError::ValidationError(
                "prompt: Prompt must be between 10 and 2000 characters".to_owned(),
            ),
        );
    }
    let backend_is_ok = match &req.backend {
        None => true,
        Some(s) => str_eq(s.as_str(), "ollama") || str_eq(s.as_str(), "openai"),
    };
    if !backend_is_ok {
        return Err(
            GenesisError::ValidationError("backend: Backend must be 'ollama' or 'openai'".to_owned()),
        );
    }
    if is_blank_exec(req.prompt.as_str()) {
        return Err(GenesisError::ValidationError("Prompt cannot be empty".to_owned()));
    }
    let lowered = to_lowercase(req.prompt.as_str());
    if contains_harmful(lowered.as_str()) {
        return Err(
            GenesisError::ValidationError("Prompt contains potentially harmful keywords".to_owned()),
        );
    }
    Ok(())
}

// ---------------------------------------------------------------------------
// Rate limiter
// ---------------------------------------------------------------------------

/// A recorded admission at time `t` still counts against the window at `now`.
pub open spec fn in_window(t: u64, now: u64, window_millis: u64) -> bool {
    t + window_millis > now
}

/// The admissions of a window that still count at `now`, in recorded order.
pub open spec fn prune(w: Seq<u64>, now: u64, window_millis: u64) -> Seq<u64>
    decreases w.len(),
{
    if w.len() == 0 {
        Seq::empty()
    } else {
        let rest = prune(w.drop_last(), now, window_millis);
        if in_window(w.last(), now, window_millis) {
            rest.push(w.last())
        } else {
            rest
        }
    }
}

/// The recorded window of the given client, empty if the client is unknown.
pub open spec fn window_of(entries: Seq<(String, Vec<u64>)>, id: Seq<char>) -> Seq<u64>
    decreases entries.len(),
{
    if entries.len() == 0 {
        Seq::empty()
    } else if entries[0].0@ == id {
        entries[0].1@
    } else {
        window_of(entries.drop_first(), id)
    }
}

proof fn lemma_window_of_found(entries: Seq<(String, Vec<u64>)>, id: Seq<char>, i: int)
    requires
        0 <= i < entries.len(),
        entries[i].0@ == id,
        forall|j: int| 0 <= j < i ==> #[trigger] entries[j].0@ != id,
    ensures
        window_of(entries, id) == entries[i].1@,
    decreases i,
{
    if i > 0 {
        lemma_window_of_found(entries.drop_first(), id, i - 1);
    }
}

proof fn lemma_window_of_absent(entries: Seq<(String, Vec<u64>)>, id: Seq<char>)
    requires
        forall|j: int| 0 <= j < entries.len() ==> #[trigger] entries[j].0@ != id,
    ensures
        window_of(entries, id) == Seq::<u64>::empty(),
    decreases entries.len(),
{
    if entries.len() > 0 {
        lemma_window_of_absent(entries.drop_first(), id);
    }
}

proof fn lemma_window_of_update(
    entries: Seq<(String, Vec<u64>)>,
    i: int,
    e: (String, Vec<u64>),
    id: Seq<char>,
)
    requires
        0 <= i < entries.len(),
        e.0@ == entries[i].0@,
        entries[i].0@ != id,
    ensures
        window_of(entries.update(i, e), id) == window_of(entries, id),
    decreases i,
{
    if i == 0 {
        assert(entries.update(i, e).drop_first() =~= entries.drop_first());
    } else {
        assert(entries.update(i, e).drop_first() =~= entries.drop_first().update(i - 1, e));
        lemma_window_of_update(entries.drop_first(), i - 1, e, id);
    }
}

proof fn lemma_window_of_push(entries: Seq<(String, Vec<u64>)>, e: (String, Vec<u64>), id: Seq<char>)
    requires
        e.0@ != id,
    ensures
        window_of(entries.push(e), id) == window_of(entries, id),
    decreases entries.len(),
{
    if entries.len() == 0 {
        assert(entries.push(e)[0] == e);
        assert(entries.push(e).drop_first() =~= Seq::<(String, Vec<u64>)>::empty());
        assert(window_of(Seq::<(String, Vec<u64>)>::empty(), id) == Seq::<u64>::empty());
    } else {
        assert(entries.push(e)[0] == entries[0]);
        assert(entries.push(e).drop_first() =~= entries.drop_first().push(e));
        lemma_window_of_push(entries.drop_first(), e, id);
    }
}

/// Sliding-window admission control, one window of admission timestamps per
/// client identity. Timestamps and the window length are in milliseconds;
/// the caller supplies each clock reading.
#[derive(Debug)]
pub struct RateLimiter {
    pub entries: Vec<(String, Vec<u64>)>,
    pub max_requests: usize,
    pub window_millis: u64,
}

impl RateLimiter {
    /// One entry per client identity.
    pub open spec fn wf(&self) -> bool {
        forall|i: int, j: int|
            0 <= i < j < self.entries@.len() ==> #[trigger] self.entries@[i].0@ != #[trigger] self.entries@[j].0@
    }

    /// The recorded window of a client, as last stored (possibly stale).
    pub open spec fn window(&self, id: Seq<char>) -> Seq<u64> {
        window_of(self.entries@, id)
    }

    /// The admissions of a client that still count at `now`.
    pub open spec fn live_window(&self, id: Seq<char>, now: u64) -> Seq<u64> {
        prune(self.window(id), now, self.window_millis)
    }

    pub open spec fn spec_max_requests(&self) -> usize {
        self.max_requests
    }

    pub open spec fn spec_window_millis(&self) -> u64 {
        self.window_millis
    }

    /// An empty limiter admitting `max_requests` per client within a trailing
    /// window of `window_millis`.
    pub fn new(max_requests: usize, window_millis: u64) -> (r: RateLimiter)
        ensures
            r.wf(),
            r.spec_max_requests() == max_requests,
            r.spec_window_millis() == window_millis,
            forall|id: Seq<char>| #[trigger] r.window(id) == Seq::<u64>::empty(),
    {
        let r = RateLimiter { entries: Vec::new(), max_requests, window_millis };
        proof {
            assert forall|id: Seq<char>| #[trigger] r.window(id) == Seq::<u64>::empty() by {
                lemma_window_of_absent(r.entries@, id);
            }
        }
        r
    }

    /// Finds the entry of the client, or appends a fresh empty one.
    fn find_or_insert(&mut self, client_id: &str) -> (i: usize)
        requires
            old(self).wf(),
        ensures
            final(self).wf(),
            i < final(self).entries@.len(),
            final(self).entries@[i as int].0@ == client_id@,
            forall|j: int| 0 <= j < i ==> #[trigger] final(self).entries@[j].0@ != client_id@,
            final(self).max_requests == old(self).max_requests,
            final(self).window_millis == old(self).window_millis,
            final(self).entries@[i as int].1@ == old(self).window(client_id@),
            final(self).entries@ == old(self).entries@ || final(self).entries@ == old(
                self,
            ).entries@.push((final(self).entries@[i as int].0, final(self).entries@[i as int].1)),
            forall|id: Seq<char>| #[trigger] final(self).window(id) == old(self).window(id),
    {
        let ghost self0 = *self;
        let ghost entries0 = self.entries@;
        let mut i: usize = 0;
        while i < self.entries.len()
            invariant
                *self == self0,
                self0 == *old(self),
                self.wf(),
                self.entries@ == entries0,
                i <= self.entries@.len(),
                forall|j: int| 0 <= j < i ==> #[trigger] self.entries@[j].0@ != client_id@,
            decreases self.entries@.len() - i,
        {
            if str_eq(self.entries[i].0.as_str(), client_id) {
                proof {
                    lemma_window_of_found(self.entries@, client_id@, i as int);
                }
                return i;
            }
            i += 1;
        }
        let fresh: Vec<u64> = Vec::new();
        self.entries.push((client_id.to_owned(), fresh));
        proof {
            lemma_window_of_absent(entries0, client_id@);
            assert(self.entries@[entries0.len() as int].1@ =~= Seq::<u64>::empty());
            assert forall|id: Seq<char>| #[trigger] window_of(self.entries@, id) == window_of(
                entries0,
                id,
            ) by {
                if id == client_id@ {
                    lemma_window_of_found(self.entries@, id, entries0.len() as int);
                    lemma_window_of_absent(entries0, id);
                    assert(self.entries@[entries0.len() as int].1@ =~= Seq::<u64>::empty());
                } else {
                    lemma_window_of_push(entries0, self.entries@[entries0.len() as int], id);
                }
            }
        }
        self.entries.len() - 1
    }

    /// Prunes the recorded window of `client_id` to the admissions still in
    /// the window at `now`; admits and records `now` when fewer than
    /// `max_requests` remain, else denies without recording. Windows of other
    /// clients are untouched.
    pub fn is_allowed(&mut self, client_id: &str, now: u64) -> (allowed: bool)
        requires
            old(self).wf(),
        ensures
            final(self).wf(),
            final(self).spec_max_requests() == old(self).spec_max_requests(),
            final(self).spec_window_millis() == old(self).spec_window_millis(),
            allowed == (old(self).live_window(client_id@, now).len()
                < old(self).spec_max_requests()),
            final(self).window(client_id@) == if allowed {
                old(self).live_window(client_id@, now).push(now)
            } else {
                old(self).live_window(client_id@, now)
            },
            forall|id: Seq<char>|
                id != client_id@ ==> #[trigger] final(self).window(id) == old(self).window(id),
    {
        let ghost pre = *self;
        let i = self.find_or_insert(client_id);
        let ghost mid = *self;
        let pruned = prune_exec(&self.entries[i].1, now, self.window_millis);
        let full = pruned.len() >= self.max_requests;
        let mut new_window = pruned;
        if !full {
            new_window.push(now);
        }
        let key = self.entries[i].0.clone();
        self.entries[i] = (key, new_window);
        proof {
            let e = self.entries@[i as int];
            assert(e.0 == mid.entries@[i as int].0);
            assert(self.entries@ =~= mid.entries@.update(i as int, e));
            assert forall|k: int| 0 <= k < self.entries@.len() implies #[trigger] self.entries@[k].0
                == mid.entries@[k].0 by {}
            lemma_window_of_found(self.entries@, client_id@, i as int);
            assert forall|id: Seq<char>| id != client_id@ implies #[trigger] window_of(
                self.entries@,
                id,
            ) == pre.window(id) by {
                lemma_window_of_update(mid.entries@, i as int, e, id);
                assert(mid.window(id) == pre.window(id));
            }
        }
        !full
    }

    /// The admissions still open to the client at `now`: `max_requests` less
    /// the live window, floored at zero. Read-only.
    pub fn get_remaining_requests(&self, client_id: &str, now: u64) -> (r: usize)
        ensures
            self.live_window(client_id@, now).len() <= self.spec_max_requests() ==> r
                == self.spec_max_requests() - self.live_window(client_id@, now).len(),
            self.live_window(client_id@, now).len() > self.spec_max_requests() ==> r == 0,
            r <= self.spec_max_requests(),
    {
        let mut i: usize = 0;
        while i < self.entries.len()
            invariant
                i <= self.entries@.len(),
                forall|j: int| 0 <= j < i ==> #[trigger] self.entries@[j].0@ != client_id@,
            decreases self.entries@.len() - i,
        {
            if str_eq(self.entries[i].0.as_str(), client_id) {
                proof {
                    lemma_window_of_found(self.entries@, client_id@, i as int);
                }
                let live = prune_exec(&self.entries[i].1, now, self.window_millis);
                if live.len() >= self.max_requests {
                    return 0;
                }
                return self.max_requests - live.len();
            }
            i += 1;
        }
        proof {
            lemma_window_of_absent(self.entries@, client_id@);
        }
        self.max_requests
    }
}

/// The entries of `w` still inside the window at `now`, in recorded order.
fn prune_exec(w: &Vec<u64>, now: u64, window_millis: u64) -> (r: Vec<u64>)
    ensures
        r@ == prune(w@, now, window_millis),
{
    let mut r: Vec<u64> = Vec::new();
    let mut i: usize = 0;
    while i < w.len()
        invariant
            i <= w@.len(),
            r@ == prune(w@.take(i as int), now, window_millis),
        decreases w@.len() - i,
    {
        let t = w[i];
        let keep = if t > now {
            true
        } else {
            now - t < window_millis
        };
        proof {
            assert(keep == in_window(t, now, window_millis));
            assert(w@.take(i as int + 1).drop_last() =~= w@.take(i as int));
            assert(w@.take(i as int + 1).last() == w@[i as int]);
        }
        if keep {
            r.push(t);
        }
        i += 1;
    }
    proof {
        assert(w@.take(w@.len() as int) =~= w@);
    }
    r
}

/// Law: admissions all recorded inside the window survive pruning unchanged.
pub proof fn lemma_prune_all_in_window(w: Seq<u64>, now: u64, window_millis: u64)
    requires
        forall|i: int| 0 <= i < w.len() ==> in_window(#[trigger] w[i], now, window_millis),
    ensures
        prune(w, now, window_millis) == w,
    decreases w.len(),
{
    if w.len() > 0 {
        lemma_prune_all_in_window(w.drop_last(), now, window_millis);
        assert(prune(w, now, window_millis) =~= w);
    } else {
        assert(prune(w, now, window_millis) =~= w);
    }
}

/// Law: once every recorded admission has left the window, pruning empties it.
pub proof fn lemma_prune_all_expired(w: Seq<u64>, now: u64, window_millis: u64)
    requires
        forall|i: int| 0 <= i < w.len() ==> !in_window(#[trigger] w[i], now, window_millis),
    ensures
        prune(w, now, window_millis) == Seq::<u64>::empty(),
    decreases w.len(),
{
    if w.len() > 0 {
        lemma_prune_all_expired(w.drop_last(), now, window_millis);
    }
    assert(prune(w, now, window_millis) =~= Seq::<u64>::empty());
}

/// Law: after `n` admissions recorded inside the window, and none expired,
/// the remaining allowance is exactly `max_requests - n` — never negative.
pub proof fn lemma_remaining_after_admissions(
    limiter: RateLimiter,
    id: Seq<char>,
    now: u64,
    n: nat,
)
    requires
        limiter.window(id).len() == n,
        n <= limiter.spec_max_requests(),
        forall|i: int|
            0 <= i < limiter.window(id).len() ==> in_window(
                #[trigger] limiter.window(id)[i],
                now,
                limiter.spec_window_millis(),
            ),
    ensures
        limiter.live_window(id, now).len() == n,
        limiter.spec_max_requests() - limiter.live_window(id, now).len() == limiter.spec_max_requests() - n >= 0,
{
    lemma_prune_all_in_window(limiter.window(id), now, limiter.spec_window_millis());
}

} // verus!
