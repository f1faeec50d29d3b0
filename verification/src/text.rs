//! Character-level text utilities: case-insensitive and exact substring
//! search, trimming, whitespace tokens, colon-separated fields, and line
//! splitting. All of the layout-detection parsing is built on these.
use vstd::prelude::*;

verus! {

/// Whitespace as trimmed from command output: blank, tab, and line ends.
pub open spec fn is_space_char(c: char) -> bool {
    c == ' ' || c == '\t' || c == '\r' || c == '\n'
}

/// Code point of `c` with an ASCII capital letter folded to lower case.
pub open spec fn lower_code(c: char) -> u32 {
    if 65 <= c as u32 && c as u32 <= 90 {
        (c as u32 + 32) as u32
    } else {
        c as u32
    }
}

/// Control characters: the C0 range, DEL, and the C1 range.
pub open spec fn is_control_char(c: char) -> bool {
    (c as u32) < 32 || (127 <= c as u32 && c as u32 <= 159)
}

pub fn space_char(c: char) -> (b: bool)
    ensures
        b == is_space_char(c),
{
    c == ' ' || c == '\t' || c == '\r' || c == '\n'
}

pub fn char_lower_code(c: char) -> (r: u32)
    ensures
        r == lower_code(c),
{
    let u = c as u32;
    if 65 <= u && u <= 90 {
        u + 32
    } else {
        u
    }
}

pub fn control_char(c: char) -> (b: bool)
    ensures
        b == is_control_char(c),
{
    let u = c as u32;
    u < 32 || (127 <= u && u <= 159)
}

/// Index of the first occurrence of `c` in `s` at or after `from`,
/// or `s.len()` when there is none.
pub open spec fn find_from(s: Seq<char>, c: char, from: int) -> int
    decreases s.len() - from,
{
    if from >= s.len() {
        s.len() as int
    } else if s[from] == c {
        from
    } else {
        find_from(s, c, from + 1)
    }
}

pub proof fn lemma_find_from(s: Seq<char>, c: char, from: int)
    requires
        0 <= from <= s.len(),
    ensures
        from <= find_from(s, c, from) <= s.len(),
        find_from(s, c, from) < s.len() ==> s[find_from(s, c, from)] == c,
        forall|k: int| from <= k < find_from(s, c, from) ==> s[k] != c,
    decreases s.len() - from,
{
    if from < s.len() && s[from] != c {
        lemma_find_from(s, c, from + 1);
    }
}

#[verifier::loop_isolation(false)]
pub fn str_find_char(s: &str, c: char, from: usize) -> (r: usize)
    requires
        from <= s@.len(),
    ensures
        r == find_from(s@, c, from as int),
        from <= r <= s@.len(),
{
    proof {
        lemma_find_from(s@, c, from as int);
    }
    let n = s.unicode_len();
    let mut i = from;
    while i < n
        invariant
            from <= i <= n,
            find_from(s@, c, from as int) == find_from(s@, c, i as int),
        decreases n - i,
    {
        if s.get_char(i) == c {
            return i;
        }
        i = i + 1;
    }
    i
}

/// `pat` occurs in `text` starting at position `i`.
pub open spec fn match_at(text: Seq<char>, pat: Seq<char>, i: int) -> bool {
    forall|j: int| 0 <= j < pat.len() ==> text[i + j] == pat[j]
}

/// `pat` occurs somewhere in `text`.
pub open spec fn contains_seq(text: Seq<char>, pat: Seq<char>) -> bool {
    exists|i: int| 0 <= i && i + pat.len() <= text.len() && match_at(text, pat, i)
}

/// `pat` occurs in `text` at `i`, compared with ASCII case folded.
pub open spec fn match_at_ci(text: Seq<char>, pat: Seq<char>, i: int) -> bool {
    forall|j: int| 0 <= j < pat.len() ==> lower_code(text[i + j]) == lower_code(pat[j])
}

/// `pat` occurs somewhere in `text`, compared with ASCII case folded.
pub open spec fn contains_ci(text: Seq<char>, pat: Seq<char>) -> bool {
    exists|i: int| 0 <= i && i + pat.len() <= text.len() && match_at_ci(text, pat, i)
}

#[verifier::loop_isolation(false)]
pub fn str_contains(text: &str, pat: &str) -> (b: bool)
    ensures
        b == contains_seq(text@, pat@),
{
    let n = text.unicode_len();
    let m = pat.unicode_len();
    if m > n {
        return false;
    }
    let mut i: usize = 0;
    while i <= n - m
        invariant
            i <= n - m + 1,
            forall|k: int| 0 <= k < i ==> !match_at(text@, pat@, k),
        decreases n - m + 1 - i,
    {
        let mut j: usize = 0;
        let mut ok = true;
        while ok && j < m
            invariant
                j <= m,
                i + m <= n,
                ok ==> forall|q: int| 0 <= q < j ==> text@[i + q] == pat@[q],
                !ok ==> !match_at(text@, pat@, i as int),
            decreases m - j, if ok { 1int } else { 0int },
        {
            if text.get_char(i + j) != pat.get_char(j) {
                assert(!match_at(text@, pat@, i as int));
                ok = false;
            } else {
                j = j + 1;
            }
        }
        if ok {
            assert(match_at(text@, pat@, i as int));
            return true;
        }
        i = i + 1;
    }
    false
}

#[verifier::loop_isolation(false)]
pub fn str_contains_ci(text: &str, pat: &str) -> (b: bool)
    ensures
        b == contains_ci(text@, pat@),
{
    let n = text.unicode_len();
    let m = pat.unicode_len();
    if m > n {
        return false;
    }
    let mut i: usize = 0;
    while i <= n - m
        invariant
            i <= n - m + 1,
            forall|k: int| 0 <= k < i ==> !match_at_ci(text@, pat@, k),
        decreases n - m + 1 - i,
    {
        let mut j: usize = 0;
        let mut ok = true;
        while ok && j < m
            invariant
                j <= m,
                i + m <= n,
                ok ==> forall|q: int| 0 <= q < j ==> lower_code(text@[i + q]) == lower_code(
                    pat@[q],
                ),
                !ok ==> !match_at_ci(text@, pat@, i as int),
            decreases m - j, if ok { 1int } else { 0int },
        {
            if char_lower_code(text.get_char(i + j)) != char_lower_code(pat.get_char(j)) {
                assert(!match_at_ci(text@, pat@, i as int));
                ok = false;
            } else {
                j = j + 1;
            }
        }
        if ok {
            assert(match_at_ci(text@, pat@, i as int));
            return true;
        }
        i = i + 1;
    }
    false
}

/// `s` begins with `pat`.
pub open spec fn starts_with_seq(s: Seq<char>, pat: Seq<char>) -> bool {
    pat.len() <= s.len() && match_at(s, pat, 0)
}

#[verifier::loop_isolation(false)]
pub fn str_starts_with(s: &str, pat: &str) -> (b: bool)
    ensures
        b == starts_with_seq(s@, pat@),
{
    let n = s.unicode_len();
    let m = pat.unicode_len();
    if m > n {
        return false;
    }
    let mut j: usize = 0;
    while j < m
        invariant
            j <= m,
            m <= n,
            forall|q: int| 0 <= q < j ==> s@[q] == pat@[q],
        decreases m - j,
    {
        if s.get_char(j) != pat.get_char(j) {
            return false;
        }
        j = j + 1;
    }
    assert(match_at(s@, pat@, 0));
    true
}


/// Characters stripped around a quoted field value: quote and comma.
pub open spec fn is_quote_comma(c: char) -> bool {
    c == '"' || c == ','
}

pub fn quote_comma_char(c: char) -> (b: bool)
    ensures
        b == is_quote_comma(c),
{
    c == '"' || c == ','
}

/// Index of the first character at or after `from` that is not whitespace,
/// or `s.len()` when all of the rest is whitespace.
pub open spec fn skip_spaces(s: Seq<char>, from: int) -> int
    decreases s.len() - from,
{
    if from >= s.len() {
        s.len() as int
    } else if is_space_char(s[from]) {
        skip_spaces(s, from + 1)
    } else {
        from
    }
}

/// Index of the first whitespace character at or after `from`,
/// or `s.len()` when there is none.
pub open spec fn skip_token(s: Seq<char>, from: int) -> int
    decreases s.len() - from,
{
    if from >= s.len() {
        s.len() as int
    } else if is_space_char(s[from]) {
        from
    } else {
        skip_token(s, from + 1)
    }
}

/// End of `s` with trailing whitespace dropped: scans from the back past
/// whitespace to the index just after the last other character.
pub open spec fn rtrim_end(s: Seq<char>, upto: int) -> int
    decreases upto,
{
    if upto <= 0 {
        0
    } else if is_space_char(s[upto - 1]) {
        rtrim_end(s, upto - 1)
    } else {
        upto
    }
}

/// `s` with leading and trailing whitespace dropped.
pub open spec fn trim_seq(s: Seq<char>) -> Seq<char> {
    let a = skip_spaces(s, 0);
    let b = rtrim_end(s, s.len() as int);
    if a <= b {
        s.subrange(a, b)
    } else {
        Seq::empty()
    }
}

#[verifier::loop_isolation(false)]
pub fn str_skip_spaces(s: &str, from: usize) -> (r: usize)
    requires
        from <= s@.len(),
    ensures
        r == skip_spaces(s@, from as int),
        from <= r <= s@.len(),
{
    let n = s.unicode_len();
    let mut i = from;
    while i < n
        invariant
            from <= i <= n,
            skip_spaces(s@, from as int) == skip_spaces(s@, i as int),
        decreases n - i,
    {
        if !space_char(s.get_char(i)) {
            return i;
        }
        i = i + 1;
    }
    i
}

#[verifier::loop_isolation(false)]
pub fn str_skip_token(s: &str, from: usize) -> (r: usize)
    requires
        from <= s@.len(),
    ensures
        r == skip_token(s@, from as int),
        from <= r <= s@.len(),
{
    let n = s.unicode_len();
    let mut i = from;
    while i < n
        invariant
            from <= i <= n,
            skip_token(s@, from as int) == skip_token(s@, i as int),
        decreases n - i,
    {
        if space_char(s.get_char(i)) {
            return i;
        }
        i = i + 1;
    }
    i
}

#[verifier::loop_isolation(false)]
pub fn str_trim(s: &str) -> (r: String)
    ensures
        r@ == trim_seq(s@),
{
    let n = s.unicode_len();
    let a = str_skip_spaces(s, 0);
    let mut b: usize = n;
    while b > 0 && space_char(s.get_char(b - 1))
        invariant
            b <= n,
            rtrim_end(s@, n as int) == rtrim_end(s@, b as int),
        decreases b,
    {
        b = b - 1;
    }
    if a <= b {
        String::from_str(s.substring_char(a, b))
    } else {
        String::new()
    }
}

/// Index past any leading quotes and commas at or after `from`.
pub open spec fn skip_quote_comma(s: Seq<char>, from: int) -> int
    decreases s.len() - from,
{
    if from >= s.len() {
        s.len() as int
    } else if is_quote_comma(s[from]) {
        skip_quote_comma(s, from + 1)
    } else {
        from
    }
}

/// End of `s` with trailing quotes and commas dropped.
pub open spec fn rtrim_quote_comma(s: Seq<char>, upto: int) -> int
    decreases upto,
{
    if upto <= 0 {
        0
    } else if is_quote_comma(s[upto - 1]) {
        rtrim_quote_comma(s, upto - 1)
    } else {
        upto
    }
}

/// `s` with leading and trailing quotes and commas dropped, as around the
/// quoted field value of a structured device listing.
pub open spec fn trim_quote_comma_seq(s: Seq<char>) -> Seq<char> {
    let a = skip_quote_comma(s, 0);
    let b = rtrim_quote_comma(s, s.len() as int);
    if a <= b {
        s.subrange(a, b)
    } else {
        Seq::empty()
    }
}

#[verifier::loop_isolation(false)]
pub fn str_trim_quote_comma(s: &str) -> (r: String)
    ensures
        r@ == trim_quote_comma_seq(s@),
{
    let n = s.unicode_len();
    let mut a: usize = 0;
    while a < n && quote_comma_char(s.get_char(a))
        invariant
            a <= n,
            skip_quote_comma(s@, 0) == skip_quote_comma(s@, a as int),
        decreases n - a,
    {
        a = a + 1;
    }
    let mut b: usize = n;
    while b > 0 && quote_comma_char(s.get_char(b - 1))
        invariant
            b <= n,
            rtrim_quote_comma(s@, n as int) == rtrim_quote_comma(s@, b as int),
        decreases b,
    {
        b = b - 1;
    }
    if a <= b {
        String::from_str(s.substring_char(a, b))
    } else {
        String::new()
    }
}

/// The second whitespace-separated token of `s`, when there is one.
pub open spec fn second_token(s: Seq<char>) -> Option<Seq<char>> {
    let t1s = skip_spaces(s, 0);
    if t1s >= s.len() {
        None
    } else {
        let t2s = skip_spaces(s, skip_token(s, t1s));
        if t2s >= s.len() {
            None
        } else {
            Some(s.subrange(t2s, skip_token(s, t2s)))
        }
    }
}

pub fn str_second_token(s: &str) -> (r: Option<String>)
    ensures
        match r {
            Some(t) => second_token(s@) == Some(t@),
            None => second_token(s@) is None,
        },
{
    let n = s.unicode_len();
    let t1s = str_skip_spaces(s, 0);
    if t1s >= n {
        return None;
    }
    let t1e = str_skip_token(s, t1s);
    let t2s = str_skip_spaces(s, t1e);
    if t2s >= n {
        return None;
    }
    let t2e = str_skip_token(s, t2s);
    Some(String::from_str(s.substring_char(t2s, t2e)))
}

/// The piece of `s` between its first and second colon: what a split on
/// colons yields at position one, when `s` has a colon at all.
pub open spec fn colon_field1(s: Seq<char>) -> Option<Seq<char>> {
    let i = find_from(s, ':', 0);
    if i >= s.len() {
        None
    } else {
        Some(s.subrange(i + 1, find_from(s, ':', i + 1)))
    }
}

pub fn str_colon_field1(s: &str) -> (r: Option<String>)
    ensures
        match r {
            Some(t) => colon_field1(s@) == Some(t@),
            None => colon_field1(s@) is None,
        },
{
    let n = s.unicode_len();
    let i = str_find_char(s, ':', 0);
    if i >= n {
        return None;
    }
    let j = str_find_char(s, ':', i + 1);
    Some(String::from_str(s.substring_char(i + 1, j)))
}

/// A line with one trailing carriage return dropped.
pub open spec fn strip_cr(l: Seq<char>) -> Seq<char> {
    if l.len() > 0 && l[l.len() - 1] == '\r' {
        l.subrange(0, l.len() - 1)
    } else {
        l
    }
}

/// The lines of `s` from position `i` on, given that the current line began
/// at `start`: split on newlines, one trailing carriage return dropped from
/// each line, and no empty final line after a terminating newline.
pub open spec fn lines_acc(s: Seq<char>, start: int, i: int) -> Seq<Seq<char>>
    decreases s.len() - i,
{
    if i >= s.len() {
        if start < s.len() {
            seq![strip_cr(s.subrange(start, s.len() as int))]
        } else {
            Seq::empty()
        }
    } else if s[i] == '\n' {
        seq![strip_cr(s.subrange(start, i))] + lines_acc(s, i + 1, i + 1)
    } else {
        lines_acc(s, start, i + 1)
    }
}

/// The lines of `s`, as a line-by-line scan of command output sees them.
pub open spec fn lines_of(s: Seq<char>) -> Seq<Seq<char>> {
    lines_acc(s, 0, 0)
}

/// The views of the strings in `v`.
pub open spec fn strs_view(v: Seq<String>) -> Seq<Seq<char>> {
    Seq::new(v.len(), |i: int| v[i]@)
}

#[verifier::loop_isolation(false)]
pub fn split_lines(s: &str) -> (v: Vec<String>)
    ensures
        strs_view(v@) == lines_of(s@),
{
    let n = s.unicode_len();
    let mut v: Vec<String> = Vec::new();
    let mut start: usize = 0;
    let mut i: usize = 0;
    while i < n
        invariant
            start <= i <= n,
            lines_of(s@) == strs_view(v@) + lines_acc(s@, start as int, i as int),
        decreases n - i,
    {
        if s.get_char(i) == '\n' {
            let end = if i > start && s.get_char(i - 1) == '\r' {
                i - 1
            } else {
                i
            };
            let line = String::from_str(s.substring_char(start, end));
            assert(line@ == strip_cr(s@.subrange(start as int, i as int)));
            v.push(line);
            proof {
                assert(strs_view(v@) =~= strs_view(v@.drop_last()).push(v@.last()@));
            }
            start = i + 1;
        }
        i = i + 1;
        proof {
            assert(lines_of(s@) =~= strs_view(v@) + lines_acc(s@, start as int, i as int));
        }
    }
    if start < n {
        let end = if n > start && s.get_char(n - 1) == '\r' {
            n - 1
        } else {
            n
        };
        let line = String::from_str(s.substring_char(start, end));
        assert(line@ == strip_cr(s@.subrange(start as int, n as int)));
        v.push(line);
        proof {
            assert(strs_view(v@) =~= strs_view(v@.drop_last()).push(v@.last()@));
        }
    }
    proof {
        assert(strs_view(v@) =~= lines_of(s@));
    }
    v
}


/// The view of an optional string.
pub open spec fn opt_view(o: Option<String>) -> Option<Seq<char>> {
    match o {
        Some(s) => Some(s@),
        None => None,
    }
}

} // verus!
