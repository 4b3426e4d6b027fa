//! What the Stress page does with `stress-ng`'s output: the list of CPU
//! stress methods it reports, and how each log line is shown.

use vstd::prelude::*;
use vstd::string::*;

use crate::text::{
    ascii_alnum, ascii_lower, chars_of, contains, contains_chars, find, find_from, find_index,
    is_ascii_alnum, is_ws, lower_all, lower_char, occurs_at, push_char, split_words, string_of_range, views, words,
};

verus! {

/// How a line in the Stress page's log is styled.
#[derive(Clone, Copy, PartialEq, Eq, Structural, Debug)]
pub enum LogKind {
    /// A line written by the page itself (the command line, the outcome).
    Info,
    /// A line `stress-ng` wrote to its standard output.
    Stdout,
    /// A line `stress-ng` wrote to its standard error.
    Stderr,
    /// A failure: a `--verify` failure reported by `stress-ng`, or a run
    /// that could not be started.
    Fail,
}

/// A line reports a failure when, ignoring ASCII case, it holds `fail:` or
/// `failed`.
pub open spec fn spec_is_verify_failure(line: Seq<char>) -> bool {
    contains(ascii_lower(line), "fail:"@) || contains(ascii_lower(line), "failed"@)
}

/// Whether a line of `stress-ng`'s standard error reports a failure.
pub fn is_verify_failure(line: &str) -> (r: bool)
    ensures
        r == spec_is_verify_failure(line@),
{
    let lower = lower_all(&chars_of(line));
    contains_chars(&lower, &chars_of("fail:")) || contains_chars(&lower, &chars_of("failed"))
}

/// The style of a line read from `stress-ng`'s standard error: `Fail` for a
/// failure report, `Stderr` otherwise.
pub fn stderr_line_kind(line: &str) -> (k: LogKind)
    ensures
        k == (if spec_is_verify_failure(line@) { LogKind::Fail } else { LogKind::Stderr }),
{
    if is_verify_failure(line) {
        LogKind::Fail
    } else {
        LogKind::Stderr
    }
}

/// The text-buffer tag a line of the given kind is inserted with; standard
/// output is inserted untagged.
pub open spec fn spec_log_tag(kind: LogKind) -> Option<Seq<char>> {
    match kind {
        LogKind::Stdout => None,
        LogKind::Info => Some("stress-log-info"@),
        LogKind::Stderr => Some("stress-log-stderr"@),
        LogKind::Fail => Some("stress-log-fail"@),
    }
}

/// The tag name for `kind` (see `spec_log_tag`).
pub fn log_tag(kind: LogKind) -> (r: Option<&'static str>)
    ensures
        match r {
            Some(t) => spec_log_tag(kind) == Some(t@),
            None => spec_log_tag(kind) is None,
        },
{
    match kind {
        LogKind::Stdout => None,
        LogKind::Info => Some("stress-log-info"),
        LogKind::Stderr => Some("stress-log-stderr"),
        LogKind::Fail => Some("stress-log-fail"),
    }
}

/// The text appended to the log for one line: the line and a newline.
pub fn log_line_text(line: &str) -> (r: String)
    ensures
        r@ == line@.push('\n'),
{
    let mut r = String::from_str(line);
    push_char(&mut r, '\n');
    r
}

/// Each kind of log line has a style of its own: standard output, the
/// page's own lines, other standard-error lines and failures are told apart.
pub proof fn lemma_log_styles_distinct(a: LogKind, b: LogKind)
    requires
        a != b,
    ensures
        spec_log_tag(a) != spec_log_tag(b),
{
    reveal_strlit("stress-log-info");
    reveal_strlit("stress-log-stderr");
    reveal_strlit("stress-log-fail");
    assert("stress-log-info"@[11] != "stress-log-stderr"@[11]);
    assert("stress-log-info"@[11] != "stress-log-fail"@[11]);
    assert("stress-log-stderr"@[11] != "stress-log-fail"@[11]);
}

/// The characters a CPU method name keeps at its ends: ASCII letters and
/// digits, and `-`.
pub open spec fn keep(c: char) -> bool {
    is_ascii_alnum(c) || c == '-'
}

pub open spec fn trim_start(t: Seq<char>) -> Seq<char>
    decreases t.len(),
{
    if t.len() > 0 && !keep(t[0]) {
        trim_start(t.drop_first())
    } else {
        t
    }
}

pub open spec fn trim_end(t: Seq<char>) -> Seq<char>
    decreases t.len(),
{
    if t.len() > 0 && !keep(t.last()) {
        trim_end(t.drop_last())
    } else {
        t
    }
}

/// A word with every leading and trailing character that is not kept
/// (see `keep`) removed (`str::trim_matches`).
pub open spec fn trim_method(t: Seq<char>) -> Seq<char> {
    trim_end(trim_start(t))
}

/// The trimmed words, without those that trimming left empty.
pub open spec fn method_list(ws: Seq<Seq<char>>) -> Seq<Seq<char>>
    decreases ws.len(),
{
    if ws.len() == 0 {
        seq![]
    } else {
        let rest = method_list(ws.drop_last());
        let m = trim_method(ws.last());
        if m.len() > 0 {
            rest.push(m)
        } else {
            rest
        }
    }
}

/// Where the list of methods starts in the (lower-cased) output: just after
/// the first `choices are:`, or, when there is none, just after the first
/// `must be one of:`.
pub open spec fn list_start(lower: Seq<char>) -> Option<int> {
    match find(lower, "choices are:"@) {
        Some(i) => Some(i + "choices are:"@.len()),
        None => match find(lower, "must be one of:"@) {
            Some(i) => Some(i + "must be one of:"@.len()),
            None => None,
        },
    }
}

/// The list used when the output names no method: just `all`.
pub open spec fn fallback_methods() -> Seq<Seq<char>> {
    seq!["all"@]
}

/// The CPU stress methods named in the output of `stress-ng --cpu-method
/// which`: the trimmed words after the list delimiter, or the fallback when
/// there is no delimiter or no word survives.
pub open spec fn cpu_method_list(output: Seq<char>) -> Seq<Seq<char>> {
    match list_start(ascii_lower(output)) {
        None => fallback_methods(),
        Some(start) => {
            let ms = method_list(words(output.subrange(start, output.len() as int)));
            if ms.len() == 0 {
                fallback_methods()
            } else {
                ms
            }
        },
    }
}

/// What `stress-ng` printed: its standard output, a newline, and its
/// standard error.
pub open spec fn combined_output(stdout: Seq<char>, stderr: Seq<char>) -> Seq<char> {
    stdout.push('\n') + stderr
}

/// The method list used when `stress-ng` cannot be run.
pub fn fallback_cpu_methods() -> (r: Vec<String>)
    ensures
        views(r@) == fallback_methods(),
{
    let mut r: Vec<String> = Vec::new();
    r.push(String::from_str("all"));
    assert(views(r@) =~= fallback_methods());
    r
}

fn trimmed(word: &Vec<char>) -> (r: String)
    ensures
        r@ == trim_method(word@),
{
    let n = word.len();
    let mut i: usize = 0;
    assert(word@.subrange(0, n as int) =~= word@);
    while i < n && !(ascii_alnum(word[i]) || word[i] == '-')
        invariant
            n == word.len(),
            i <= n,
            trim_start(word@) == trim_start(word@.subrange(i as int, n as int)),
        decreases n - i,
    {
        assert(word@.subrange(i as int, n as int).drop_first() =~= word@.subrange(i + 1, n as int));
        i = i + 1;
    }
    assert(trim_start(word@) == word@.subrange(i as int, n as int));
    let mut j: usize = n;
    while j > i && !(ascii_alnum(word[j - 1]) || word[j - 1] == '-')
        invariant
            n == word.len(),
            i <= j <= n,
            trim_method(word@) == trim_end(word@.subrange(i as int, j as int)),
        decreases j - i,
    {
        assert(word@.subrange(i as int, j as int).drop_last() =~= word@.subrange(i as int, j - 1));
        j = j - 1;
    }
    string_of_range(word, i, j)
}

/// The CPU stress methods named in `stress-ng`'s output (see
/// `cpu_method_list`).
pub fn cpu_methods_from_output(stdout: &str, stderr: &str) -> (r: Vec<String>)
    ensures
        views(r@) == cpu_method_list(combined_output(stdout@, stderr@)),
{
    let mut combined = chars_of(stdout);
    combined.push('\n');
    let err = chars_of(stderr);
    let mut k: usize = 0;
    let ghost out_prefix = combined@;
    while k < err.len()
        invariant
            k <= err.len(),
            out_prefix == stdout@.push('\n'),
            combined@ == out_prefix + err@.take(k as int),
        decreases err.len() - k,
    {
        combined.push(err[k]);
        k = k + 1;
        assert(combined@ =~= out_prefix + err@.take(k as int));
    }
    assert(err@.take(err.len() as int) =~= err@);
    let ghost output = combined@;
    assert(output =~= combined_output(stdout@, stderr@));
    let lower = lower_all(&combined);
    let d1 = chars_of("choices are:");
    let d2 = chars_of("must be one of:");
    let start = match find_index(&lower, &d1) {
        Some(i) => {
            proof {
                lemma_find_occurs(lower@, d1@, 0);
                assert(find_from(lower@, d1@, 0) == Some(i as int));
                assert(i + d1@.len() <= lower@.len());
                assert(lower@.len() == lower.len());
                assert(d1@.len() == d1.len());
            }
            i + d1.len()
        },
        None => match find_index(&lower, &d2) {
            Some(i) => {
                proof {
                    lemma_find_occurs(lower@, d2@, 0);
                    assert(find_from(lower@, d2@, 0) == Some(i as int));
                    assert(i + d2@.len() <= lower@.len());
                    assert(lower@.len() == lower.len());
                    assert(d2@.len() == d2.len());
                }
                i + d2.len()
            },
            None => return fallback_cpu_methods(),
        },
    };
    assert(list_start(ascii_lower(output)) == Some(start as int));
    let ws = split_words(&combined, start);
    let ghost wseq = words(output.subrange(start as int, output.len() as int));
    let mut r: Vec<String> = Vec::new();
    let mut i: usize = 0;
    while i < ws.len()
        invariant
            i <= ws.len(),
            ws@.len() == wseq.len(),
            forall|k: int| 0 <= k < ws@.len() ==> #[trigger] ws@[k]@ == wseq[k],
            views(r@) == method_list(wseq.take(i as int)),
        decreases ws.len() - i,
    {
        let m = trimmed(&ws[i]);
        assert(wseq.take(i + 1).drop_last() =~= wseq.take(i as int));
        if !m.as_str().is_empty() {
            r.push(m);
            assert(views(r@) =~= method_list(wseq.take(i + 1)));
        }
        i = i + 1;
    }
    assert(wseq.take(ws.len() as int) =~= wseq);
    if r.len() == 0 {
        fallback_cpu_methods()
    } else {
        r
    }
}

proof fn lemma_find_occurs(s: Seq<char>, pat: Seq<char>, i: int)
    requires
        find_from(s, pat, i) is Some,
    ensures
        occurs_at(s, pat, find_from(s, pat, i)->0),
        find_from(s, pat, i)->0 + pat.len() <= s.len(),
    decreases s.len() + 1 - i,
{
    if i < 0 || i + pat.len() > s.len() {
    } else if occurs_at(s, pat, i) {
    } else {
        lemma_find_occurs(s, pat, i + 1);
    }
}

/// The index of the first `all` at or after `i`, if there is one.
pub open spec fn first_all_from(methods: Seq<Seq<char>>, i: int) -> Option<int>
    decreases methods.len() - i,
{
    if i < 0 || i >= methods.len() {
        None
    } else if methods[i] == "all"@ {
        Some(i)
    } else {
        first_all_from(methods, i + 1)
    }
}

/// Which entry the method selector starts on: the first `all`, or the first
/// entry when there is none.
pub open spec fn spec_default_method_index(methods: Seq<Seq<char>>) -> int {
    match first_all_from(methods, 0) {
        Some(i) => i,
        None => 0,
    }
}

/// The entry of `methods` that the method selector starts on.
pub fn default_method_index(methods: &Vec<String>) -> (r: usize)
    ensures
        r == spec_default_method_index(views(methods@)),
{
    let all = String::from_str("all");
    let mut i: usize = 0;
    while i < methods.len()
        invariant
            i <= methods.len(),
            all@ == "all"@,
            first_all_from(views(methods@), 0) == first_all_from(views(methods@), i as int),
        decreases methods.len() - i,
    {
        if methods[i] == all {
            return i;
        }
        i = i + 1;
    }
    0
}

/// A word is a non-empty run of characters none of which is whitespace.
pub open spec fn is_word(w: Seq<char>) -> bool {
    w.len() > 0 && forall|j: int| 0 <= j < w.len() ==> !is_ws(#[trigger] w[j])
}

/// A usable method name: a word whose first and last characters are kept
/// ones (see `keep`).
pub open spec fn is_method_name(m: Seq<char>) -> bool {
    is_word(m) && keep(m[0]) && keep(m.last())
}

proof fn lemma_words_are_words(s: Seq<char>)
    ensures
        forall|k: int| 0 <= k < words(s).len() ==> is_word(#[trigger] words(s)[k]),
        s.len() > 0 && !is_ws(s.last()) ==> words(s).len() > 0,
    decreases s.len(),
{
    if s.len() > 0 {
        let c = s.last();
        let pre = s.drop_last();
        lemma_words_are_words(pre);
        let w = words(pre);
        if is_ws(c) {
        } else if s.len() >= 2 && !is_ws(s[s.len() - 2]) {
            assert(pre.last() == s[s.len() - 2]);
            let nw = w.update(w.len() - 1, w.last().push(c));
            assert forall|k: int| 0 <= k < nw.len() implies is_word(#[trigger] nw[k]) by {
                if k == w.len() - 1 {
                    assert(is_word(w[k]));
                    assert forall|j: int| 0 <= j < nw[k].len() implies !is_ws(#[trigger] nw[k][j]) by {
                        if j < w[k].len() {
                            assert(nw[k][j] == w[k][j]);
                        }
                    }
                }
            }
        } else {
            let nw = w.push(seq![c]);
            assert forall|k: int| 0 <= k < nw.len() implies is_word(#[trigger] nw[k]) by {
                if k == w.len() {
                    assert(nw[k] == seq![c]);
                }
            }
        }
    }
}

proof fn lemma_trim_start_suffix(t: Seq<char>) -> (a: int)
    ensures
        0 <= a <= t.len(),
        trim_start(t) == t.subrange(a, t.len() as int),
        a < t.len() ==> keep(t[a]),
    decreases t.len(),
{
    if t.len() > 0 && !keep(t[0]) {
        let a = lemma_trim_start_suffix(t.drop_first());
        assert(t.drop_first().subrange(a, t.len() - 1) =~= t.subrange(a + 1, t.len() as int));
        a + 1
    } else {
        assert(t.subrange(0, t.len() as int) =~= t);
        0
    }
}

proof fn lemma_trim_end_prefix(t: Seq<char>) -> (b: int)
    ensures
        0 <= b <= t.len(),
        trim_end(t) == t.subrange(0, b),
        b > 0 ==> keep(t[b - 1]),
    decreases t.len(),
{
    if t.len() > 0 && !keep(t.last()) {
        let b = lemma_trim_end_prefix(t.drop_last());
        assert(t.drop_last().subrange(0, b) =~= t.subrange(0, b));
        b
    } else {
        assert(t.subrange(0, t.len() as int) =~= t);
        t.len() as int
    }
}

proof fn lemma_trimmed_word(t: Seq<char>)
    requires
        forall|j: int| 0 <= j < t.len() ==> !is_ws(#[trigger] t[j]),
    ensures
        trim_method(t).len() > 0 ==> is_method_name(trim_method(t)),
{
    let a = lemma_trim_start_suffix(t);
    let u = trim_start(t);
    let b = lemma_trim_end_prefix(u);
    let m = trim_method(t);
    if m.len() > 0 {
        assert(m == u.subrange(0, b));
        assert forall|j: int| 0 <= j < m.len() implies !is_ws(#[trigger] m[j]) by {
            assert(m[j] == u[j]);
            assert(u[j] == t[a + j]);
        }
        assert(m[0] == t[a]);
        assert(m.last() == u[b - 1]);
    }
}

proof fn lemma_method_list_names(ws: Seq<Seq<char>>)
    requires
        forall|k: int| 0 <= k < ws.len() ==> is_word(#[trigger] ws[k]),
    ensures
        forall|k: int| 0 <= k < method_list(ws).len() ==> is_method_name(#[trigger] method_list(ws)[k]),
    decreases ws.len(),
{
    if ws.len() > 0 {
        let pre = ws.drop_last();
        assert forall|k: int| 0 <= k < pre.len() implies is_word(#[trigger] pre[k]) by {
            assert(pre[k] == ws[k]);
        }
        lemma_method_list_names(pre);
        assert(is_word(ws[ws.len() - 1]));
        lemma_trimmed_word(ws.last());
        let rest = method_list(pre);
        let m = trim_method(ws.last());
        if m.len() > 0 {
            assert(method_list(ws) == rest.push(m));
            assert forall|k: int| 0 <= k < method_list(ws).len() implies is_method_name(
                #[trigger] method_list(ws)[k],
            ) by {
                if k < rest.len() {
                    assert(method_list(ws)[k] == rest[k]);
                }
            }
        } else {
            assert(method_list(ws) == rest);
        }
    }
}

/// Every list of CPU methods offered on the Stress page is non-empty, and
/// every entry in it is a method name: non-empty, free of whitespace, and
/// starting and ending with an ASCII letter, digit or `-`.
pub proof fn lemma_cpu_methods_are_names(output: Seq<char>)
    ensures
        cpu_method_list(output).len() > 0,
        forall|k: int|
            0 <= k < cpu_method_list(output).len() ==> is_method_name(
                #[trigger] cpu_method_list(output)[k],
            ),
{
    reveal_strlit("all");
    let f = fallback_methods();
    assert(is_method_name(f[0])) by {
        assert(f[0] == "all"@);
        assert(f[0][0] == 'a');
        assert(f[0].last() == 'l');
    }
    match list_start(ascii_lower(output)) {
        None => {},
        Some(start) => {
            let ws = words(output.subrange(start, output.len() as int));
            lemma_words_are_words(output.subrange(start, output.len() as int));
            lemma_method_list_names(ws);
        },
    }
}

proof fn lemma_lower_char_idempotent(c: char)
    ensures
        lower_char(lower_char(c)) == lower_char(c),
{
}

/// Telling failure lines apart ignores ASCII case: a line reports a failure
/// exactly when its lower-cased form does.
pub proof fn lemma_verify_failure_ignores_case(line: Seq<char>)
    ensures
        spec_is_verify_failure(ascii_lower(line)) == spec_is_verify_failure(line),
{
    assert forall|i: int| 0 <= i < line.len() implies lower_char(lower_char(#[trigger] line[i]))
        == lower_char(line[i]) by {
        lemma_lower_char_idempotent(line[i]);
    }
    assert(ascii_lower(ascii_lower(line)) =~= ascii_lower(line));
}

proof fn lemma_first_all_from(methods: Seq<Seq<char>>, i: int)
    requires
        0 <= i,
    ensures
        first_all_from(methods, i) matches Some(k) ==> i <= k < methods.len() && methods[k] == "all"@
            && forall|j: int| i <= j < k ==> methods[j] != "all"@,
        first_all_from(methods, i) is None ==> forall|j: int| i <= j < methods.len() ==> methods[j] != "all"@,
    decreases methods.len() - i,
{
    if i < methods.len() && methods[i] != "all"@ {
        lemma_first_all_from(methods, i + 1);
    }
}

/// The method selector starts on an entry of the list (when there is one),
/// and that entry is `all` whenever the list holds `all`; no `all` comes
/// before it.
pub proof fn lemma_default_method_is_first_all(methods: Seq<Seq<char>>)
    ensures
        methods.len() > 0 ==> 0 <= spec_default_method_index(methods) < methods.len(),
        (exists|j: int| 0 <= j < methods.len() && methods[j] == "all"@) ==> {
            let d = spec_default_method_index(methods);
            methods[d] == "all"@ && forall|j: int| 0 <= j < d ==> methods[j] != "all"@
        },
{
    lemma_first_all_from(methods, 0);
}

proof fn lemma_method_list_prefix(ws: Seq<Seq<char>>, n: int)
    requires
        0 <= n <= ws.len(),
    ensures
        method_list(ws.take(n)).len() <= method_list(ws).len(),
        forall|i: int| 0 <= i < method_list(ws.take(n)).len() ==> #[trigger] method_list(ws)[i] == method_list(ws.take(n))[i],
    decreases ws.len() - n,
{
    if n < ws.len() {
        lemma_method_list_prefix(ws, n + 1);
        assert(ws.take(n + 1).drop_last() =~= ws.take(n));
    } else {
        assert(ws.take(n) =~= ws);
    }
}

proof fn lemma_method_at(ws: Seq<Seq<char>>, k: int) -> (i: int)
    requires
        0 <= k < ws.len(),
        trim_method(ws[k]).len() > 0,
    ensures
        0 <= i < method_list(ws).len(),
        method_list(ws)[i] == trim_method(ws[k]),
        i == method_list(ws.take(k)).len(),
{
    let pre = ws.take(k + 1);
    assert(pre.drop_last() =~= ws.take(k));
    assert(pre.last() == ws[k]);
    lemma_method_list_prefix(ws, k + 1);
    method_list(ws.take(k)).len() as int
}

/// Every word after the list delimiter that keeps a character after
/// trimming is offered, in the order the words come: no word is left out
/// and none is moved, however long the list is.
pub proof fn lemma_every_listed_method_offered(output: Seq<char>, start: int, k1: int, k2: int)
    requires
        list_start(ascii_lower(output)) == Some(start),
        0 <= k1 < k2 < words(output.subrange(start, output.len() as int)).len(),
        trim_method(words(output.subrange(start, output.len() as int))[k1]).len() > 0,
        trim_method(words(output.subrange(start, output.len() as int))[k2]).len() > 0,
    ensures
        exists|i1: int, i2: int|
            0 <= i1 < i2 < cpu_method_list(output).len() && cpu_method_list(output)[i1] == trim_method(
                words(output.subrange(start, output.len() as int))[k1],
            ) && cpu_method_list(output)[i2] == trim_method(words(output.subrange(start, output.len() as int))[k2]),
{
    let ws = words(output.subrange(start, output.len() as int));
    let i1 = lemma_method_at(ws, k1);
    let i2 = lemma_method_at(ws, k2);
    let pre = ws.take(k2);
    lemma_method_list_prefix(pre, k1 + 1);
    assert(pre.take(k1 + 1) =~= ws.take(k1 + 1));
    assert(ws.take(k1 + 1).drop_last() =~= ws.take(k1));
    assert(method_list(ws.take(k1 + 1)).len() == i1 + 1);
    assert(i1 < i2);
    assert(cpu_method_list(output) == method_list(ws));
}

/// Every word after the list delimiter that keeps a character after
/// trimming is offered.
pub proof fn lemma_listed_method_offered(output: Seq<char>, start: int, k: int)
    requires
        list_start(ascii_lower(output)) == Some(start),
        0 <= k < words(output.subrange(start, output.len() as int)).len(),
        trim_method(words(output.subrange(start, output.len() as int))[k]).len() > 0,
    ensures
        cpu_method_list(output).contains(trim_method(words(output.subrange(start, output.len() as int))[k])),
{
    let ws = words(output.subrange(start, output.len() as int));
    let i = lemma_method_at(ws, k);
    assert(cpu_method_list(output) == method_list(ws));
    assert(cpu_method_list(output)[i] == trim_method(ws[k]));
}

} // verus!
