//! Recognising and cleaning a video URL. The accepted shape is an optional
//! scheme, an optional leading `www.`, then either the long host form with a
//! watch query or the short host form, each followed by a non-empty video
//! identifier. Cleaning returns the matched prefix of the input and drops
//! whatever trails it (extra query parameters, fragments, surrounding text).

use vstd::prelude::*;

verus! {

/// Characters allowed in a video identifier: ASCII letters, digits,
/// underscore and hyphen.
pub open spec fn is_id_char(c: char) -> bool {
    (48 <= c as u32 && c as u32 <= 57) || (65 <= c as u32 && c as u32 <= 90) || (97 <= c as u32
        && c as u32 <= 122) || c == '_' || c == '-'
}

/// `s` starts with `p`.
pub open spec fn has_prefix(s: Seq<char>, p: Seq<char>) -> bool {
    p.len() <= s.len() && s.subrange(0, p.len() as int) == p
}

/// Length of the longest prefix of `s` made of identifier characters.
pub open spec fn id_run(s: Seq<char>) -> nat
    decreases s.len(),
{
    if s.len() > 0 && is_id_char(s[0]) {
        1 + id_run(s.skip(1))
    } else {
        0
    }
}

/// Length of the scheme prefix of `s`: the secure scheme is preferred over
/// the plain one, and a missing scheme is accepted.
pub open spec fn scheme_len(s: Seq<char>) -> nat {
    if has_prefix(s, "https://"@) {
        8
    } else if has_prefix(s, "http://"@) {
        7
    } else {
        0
    }
}

/// Length of the optional `www.` prefix of `s`.
pub open spec fn www_len(s: Seq<char>) -> nat {
    if has_prefix(s, "www."@) {
        4
    } else {
        0
    }
}

/// Length of a host-and-identifier match at the start of `s`: the long host
/// form with its watch query, or the short host form, each followed by at
/// least one identifier character.
pub open spec fn host_match_len(s: Seq<char>) -> Option<nat> {
    if has_prefix(s, "youtube.com/watch?v="@) {
        if id_run(s.skip(20)) > 0 {
            Some(20 + id_run(s.skip(20)))
        } else {
            None
        }
    } else if has_prefix(s, "youtu.be/"@) {
        if id_run(s.skip(9)) > 0 {
            Some(9 + id_run(s.skip(9)))
        } else {
            None
        }
    } else {
        None
    }
}

/// Length of the full pattern match at the start of `s`: optional scheme,
/// optional `www.`, then a host-and-identifier match.
pub open spec fn url_match_len(s: Seq<char>) -> Option<nat> {
    let k = scheme_len(s);
    let w = www_len(s.skip(k as int));
    match host_match_len(s.skip(k + w as int)) {
        Some(h) => Some(k + w + h),
        None => None,
    }
}

/// A run of `k` identifier characters stopped by the end of `s` or by a
/// non-identifier character is exactly the longest such run.
proof fn lemma_id_run_value(s: Seq<char>, k: nat)
    requires
        k <= s.len(),
        forall|j: int| 0 <= j < k ==> is_id_char(s[j]),
        k < s.len() ==> !is_id_char(s[k as int]),
    ensures
        id_run(s) == k,
    decreases k,
{
    if k == 0 {
    } else {
        assert(is_id_char(s[0]));
        let t = s.skip(1);
        assert forall|j: int| 0 <= j < k - 1 implies is_id_char(t[j]) by {
            assert(t[j] == s[j + 1]);
        }
        if k - 1 < t.len() {
            assert(t[k - 1] == s[k as int]);
        }
        lemma_id_run_value(t, (k - 1) as nat);
    }
}

/// Every character inside the longest identifier run is an identifier
/// character.
proof fn lemma_id_run_chars(s: Seq<char>)
    ensures
        forall|j: int| 0 <= j < id_run(s) ==> is_id_char(s[j]),
    decreases s.len(),
{
    if s.len() > 0 && is_id_char(s[0]) {
        let t = s.skip(1);
        lemma_id_run_bound(s);
        lemma_id_run_chars(t);
        assert forall|j: int| 0 <= j < id_run(s) implies is_id_char(s[j]) by {
            if j > 0 {
                assert(t[j - 1] == s[j]);
            }
        }
    }
}

/// Truncating a string right after its longest identifier run keeps that
/// run intact.
proof fn lemma_id_run_take(s: Seq<char>, r: nat)
    requires
        r == id_run(s),
    ensures
        id_run(s.take(r as int)) == r,
{
    lemma_id_run_bound(s);
    lemma_id_run_chars(s);
    assert forall|j: int| 0 <= j < r implies is_id_char(s.take(r as int)[j]) by {
        assert(s.take(r as int)[j] == s[j]);
    }
    lemma_id_run_value(s.take(r as int), r);
}

/// A run is never longer than the string it is a prefix of.
proof fn lemma_id_run_bound(s: Seq<char>)
    ensures
        id_run(s) <= s.len(),
    decreases s.len(),
{
    if s.len() > 0 && is_id_char(s[0]) {
        lemma_id_run_bound(s.skip(1));
    }
}

/// Truncating at or beyond a prefix neither makes nor breaks it.
proof fn lemma_prefix_take(s: Seq<char>, p: Seq<char>, m: int)
    requires
        p.len() <= m <= s.len(),
    ensures
        has_prefix(s.take(m), p) == has_prefix(s, p),
{
    assert(s.take(m).subrange(0, p.len() as int) =~= s.subrange(0, p.len() as int));
}

/// A string shorter than `p` cannot start with `p`; together with
/// [`lemma_prefix_take`] this settles every truncation.
proof fn lemma_prefix_take_cases(s: Seq<char>, p: Seq<char>, m: int)
    requires
        0 <= m <= s.len(),
        !has_prefix(s, p),
    ensures
        !has_prefix(s.take(m), p),
{
    if p.len() <= m {
        lemma_prefix_take(s, p, m);
    }
}

/// Does `s`, from position `from` on, start with `p`? The lengths of both
/// strings are passed in so they are counted once.
fn str_has_prefix_at(s: &str, n: usize, from: usize, p: &str, m: usize) -> (b: bool)
    requires
        n == s@.len(),
        m == p@.len(),
        from <= n,
    ensures
        b == has_prefix(s@.skip(from as int), p@),
{
    if n - from < m {
        return false;
    }
    let mut i: usize = 0;
    while i < m
        invariant
            n == s@.len(),
            m == p@.len(),
            from + m <= n,
            i <= m,
            forall|j: int| 0 <= j < i ==> s@[from + j] == p@[j],
        decreases m - i,
    {
        if s.get_char(from + i) != p.get_char(i) {
            proof {
                assert(!has_prefix(s@.skip(from as int), p@)) by {
                    if has_prefix(s@.skip(from as int), p@) {
                        assert(s@.skip(from as int).subrange(0, m as int)[i as int] == p@[
                            i as int
                        ]);
                        assert(s@.skip(from as int)[i as int] == s@[from + i]);
                    }
                }
            }
            return false;
        }
        i = i + 1;
    }
    proof {
        assert(s@.skip(from as int).subrange(0, m as int) =~= p@);
    }
    true
}

/// Length of the run of identifier characters in `s` starting at `from`.
fn id_run_at(s: &str, n: usize, from: usize) -> (r: usize)
    requires
        n == s@.len(),
        from <= n,
    ensures
        r == id_run(s@.skip(from as int)),
        from + r <= n,
{
    let mut i: usize = from;
    while i < n
        invariant
            n == s@.len(),
            from <= i <= n,
            forall|j: int| from <= j < i ==> is_id_char(s@[j]),
        decreases n - i,
    {
        let c = s.get_char(i);
        let u = c as u32;
        let ok = (48 <= u && u <= 57) || (65 <= u && u <= 90) || (97 <= u && u <= 122) || c == '_'
            || c == '-';
        if !ok {
            proof {
                let t = s@.skip(from as int);
                assert forall|j: int| 0 <= j < i - from implies is_id_char(t[j]) by {
                    assert(t[j] == s@[from + j]);
                }
                assert(t[i - from] == s@[i as int]);
                lemma_id_run_value(t, (i - from) as nat);
            }
            return i - from;
        }
        i = i + 1;
    }
    proof {
        let t = s@.skip(from as int);
        assert forall|j: int| 0 <= j < n - from implies is_id_char(t[j]) by {
            assert(t[j] == s@[from + j]);
        }
        lemma_id_run_value(t, (n - from) as nat);
    }
    n - from
}

/// Law: cleaning is idempotent. The prefix that cleaning returns matches the
/// accepted shape in full, so cleaning the cleaned URL returns it unchanged.
pub proof fn lemma_clean_idempotent(s: Seq<char>, l: nat)
    requires
        url_match_len(s) == Some(l),
    ensures
        l <= s.len(),
        url_match_len(s.take(l as int)) == Some(l),
{
    reveal_strlit("https://");
    reveal_strlit("http://");
    reveal_strlit("www.");
    reveal_strlit("youtube.com/watch?v=");
    reveal_strlit("youtu.be/");
    let k = scheme_len(s);
    let s1 = s.skip(k as int);
    let w = www_len(s1);
    let u = s.skip(k + w as int);
    let h = (l - k - w) as nat;
    assert(host_match_len(u) == Some(h));
    if has_prefix(u, "youtube.com/watch?v="@) {
        lemma_id_run_bound(u.skip(20));
        assert(h == 20 + id_run(u.skip(20)));
    } else {
        lemma_id_run_bound(u.skip(9));
        assert(h == 9 + id_run(u.skip(9)));
    }
    assert(10 <= h <= u.len());
    assert(l == k + w + h);
    assert(l <= s.len());
    let t = s.take(l as int);
    // The scheme is unchanged by the truncation.
    lemma_prefix_take(s, "https://"@, l as int);
    lemma_prefix_take(s, "http://"@, l as int);
    assert(scheme_len(t) == k);
    // So is the optional www. prefix.
    assert(t.skip(k as int) =~= s1.take((l - k) as int));
    lemma_prefix_take(s1, "www."@, (l - k) as int);
    assert(www_len(t.skip(k as int)) == w);
    // And so is the host-and-identifier match.
    assert(t.skip(k + w as int) =~= u.take(h as int));
    if has_prefix(u, "youtube.com/watch?v="@) {
        let run = id_run(u.skip(20));
        lemma_prefix_take(u, "youtube.com/watch?v="@, h as int);
        assert(u.take(h as int).skip(20) =~= u.skip(20).take(run as int));
        lemma_id_run_take(u.skip(20), run);
        assert(host_match_len(u.take(h as int)) == Some(h));
    } else {
        let run = id_run(u.skip(9));
        lemma_prefix_take_cases(u, "youtube.com/watch?v="@, h as int);
        lemma_prefix_take(u, "youtu.be/"@, h as int);
        assert(u.take(h as int).skip(9) =~= u.skip(9).take(run as int));
        lemma_id_run_take(u.skip(9), run);
        assert(host_match_len(u.take(h as int)) == Some(h));
    }
}

/// Cleans a video URL: returns the longest prefix of `url` that matches the
/// accepted shape, or nothing when no prefix matches.
pub fn clean_youtube_url(url: &str) -> (r: Option<String>)
    ensures
        (match r {
            Some(p) => url_match_len(url@) == Some(p@.len()) && p@ == url@.take(p@.len() as int),
            None => url_match_len(url@) is None,
        }),
{
    let n = url.unicode_len();
    proof {
        reveal_strlit("https://");
        reveal_strlit("http://");
        reveal_strlit("www.");
        reveal_strlit("youtube.com/watch?v=");
        reveal_strlit("youtu.be/");
        assert(url@.skip(0) =~= url@);
    }
    let k: usize = if str_has_prefix_at(url, n, 0, "https://", 8) {
        8
    } else if str_has_prefix_at(url, n, 0, "http://", 7) {
        7
    } else {
        0
    };
    proof {
        assert(k == scheme_len(url@));
        assert(k <= n);
    }
    let w: usize = if str_has_prefix_at(url, n, k, "www.", 4) {
        4
    } else {
        0
    };
    let base = k + w;
    proof {
        assert(w == www_len(url@.skip(k as int)));
        assert(base <= n);
    }
    if str_has_prefix_at(url, n, base, "youtube.com/watch?v=", 20) {
        proof {
            assert(url@.skip(base as int).skip(20) =~= url@.skip(base + 20));
        }
        let run = id_run_at(url, n, base + 20);
        if run > 0 {
            let total = base + 20 + run;
            let matched = String::from_str(url.substring_char(0, total));
            proof {
                assert(url@.take(total as int) =~= url@.subrange(0, total as int));
            }
            Some(matched)
        } else {
            None
        }
    } else if str_has_prefix_at(url, n, base, "youtu.be/", 9) {
        proof {
            assert(url@.skip(base as int).skip(9) =~= url@.skip(base + 9));
        }
        let run = id_run_at(url, n, base + 9);
        if run > 0 {
            let total = base + 9 + run;
            let matched = String::from_str(url.substring_char(0, total));
            proof {
                assert(url@.take(total as int) =~= url@.subrange(0, total as int));
            }
            Some(matched)
        } else {
            None
        }
    } else {
        None
    }
}

} // verus!
