//! Small verified text helpers shared by the table views: counting the
//! non-empty lines of a multi-line cell and comparing strings.

use vstd::prelude::*;

verus! {

/// Position `i` starts a non-empty line: it holds a character other than a
/// line break, and is either the first position or preceded by a break.
pub open spec fn is_seg_start(s: Seq<char>, i: int) -> bool {
    &&& 0 <= i < s.len()
    &&& s[i] != '\n'
    &&& (i == 0 || s[i - 1] == '\n')
}

/// Number of non-empty line starts among the first `n` positions.
pub open spec fn seg_count_upto(s: Seq<char>, n: int) -> nat
    decreases n,
{
    if n <= 0 {
        0
    } else {
        seg_count_upto(s, n - 1) + if is_seg_start(s, n - 1) {
            1nat
        } else {
            0nat
        }
    }
}

/// Number of non-empty lines of a piece of text: maximal runs of characters
/// between line breaks that hold at least one character.
pub open spec fn seg_count(s: Seq<char>) -> nat {
    seg_count_upto(s, s.len() as int)
}

proof fn lemma_seg_count_upto_le(s: Seq<char>, n: int)
    requires
        n >= 0,
    ensures
        seg_count_upto(s, n) <= n,
    decreases n,
{
    if n > 0 {
        lemma_seg_count_upto_le(s, n - 1);
    }
}

/// Count the non-empty lines of `s`, as [`seg_count`] defines them.
pub fn count_text_lines(s: &str) -> (r: usize)
    ensures
        r == seg_count(s@),
{
    let n = s.unicode_len();
    let mut count: usize = 0;
    let mut i: usize = 0;
    let mut after_break: bool = true;
    while i < n
        invariant
            i <= n,
            n == s@.len(),
            count == seg_count_upto(s@, i as int),
            after_break == (i == 0 || s@[i as int - 1] == '\n'),
        decreases n - i,
    {
        proof {
            lemma_seg_count_upto_le(s@, i as int);
        }
        let c = s.get_char(i);
        if c != '\n' && after_break {
            count = count + 1;
        }
        after_break = c == '\n';
        i = i + 1;
    }
    count
}

/// The whitespace characters that daemon messages carry.
pub open spec fn is_plain_ws(c: char) -> bool {
    c == ' ' || c == '\t' || c == '\n' || c == '\r'
}

/// The text with its leading whitespace removed.
pub open spec fn trim_start_spec(s: Seq<char>) -> Seq<char>
    decreases s.len(),
{
    if s.len() > 0 && is_plain_ws(s[0]) {
        trim_start_spec(s.drop_first())
    } else {
        s
    }
}

/// The text with its trailing whitespace removed.
pub open spec fn trim_end_spec(s: Seq<char>) -> Seq<char>
    decreases s.len(),
{
    if s.len() > 0 && is_plain_ws(s.last()) {
        trim_end_spec(s.drop_last())
    } else {
        s
    }
}

/// The text with whitespace removed from both ends.
pub open spec fn trim_spec(s: Seq<char>) -> Seq<char> {
    trim_end_spec(trim_start_spec(s))
}

proof fn lemma_trim_start_at(s: Seq<char>, i: int)
    requires
        0 <= i <= s.len(),
        forall|k: int| 0 <= k < i ==> is_plain_ws(#[trigger] s[k]),
        i < s.len() ==> !is_plain_ws(s[i]),
    ensures
        trim_start_spec(s) == s.subrange(i, s.len() as int),
    decreases i,
{
    if i == 0 {
        assert(s.subrange(0, s.len() as int) =~= s);
    } else {
        let t = s.drop_first();
        assert(forall|k: int| 0 <= k < i - 1 ==> is_plain_ws(#[trigger] t[k]));
        lemma_trim_start_at(t, i - 1);
        assert(t.subrange(i - 1, t.len() as int) =~= s.subrange(i, s.len() as int));
    }
}

proof fn lemma_trim_end_at(s: Seq<char>, j: int)
    requires
        0 <= j <= s.len(),
        forall|k: int| j <= k < s.len() ==> is_plain_ws(#[trigger] s[k]),
        j > 0 ==> !is_plain_ws(s[j - 1]),
    ensures
        trim_end_spec(s) == s.subrange(0, j),
    decreases s.len() - j,
{
    if j == s.len() {
        assert(s.subrange(0, s.len() as int) =~= s);
    } else {
        let t = s.drop_last();
        assert(forall|k: int| j <= k < t.len() ==> is_plain_ws(#[trigger] t[k]));
        lemma_trim_end_at(t, j);
        assert(t.subrange(0, j) =~= s.subrange(0, j));
    }
}

fn is_ws_char(c: char) -> (r: bool)
    ensures
        r == is_plain_ws(c),
{
    c == ' ' || c == '\t' || c == '\n' || c == '\r'
}

/// Remove the whitespace at both ends of the text, as [`trim_spec`]
/// states.
pub fn trim_plain(s: &str) -> (r: String)
    ensures
        r@ == trim_spec(s@),
{
    let n = s.unicode_len();
    let mut i: usize = 0;
    while i < n && is_ws_char(s.get_char(i))
        invariant
            i <= n,
            n == s@.len(),
            forall|k: int| 0 <= k < i ==> is_plain_ws(#[trigger] s@[k]),
        decreases n - i,
    {
        i = i + 1;
    }
    proof {
        lemma_trim_start_at(s@, i as int);
    }
    if i == n {
        proof {
            assert(s@.subrange(n as int, n as int) =~= Seq::<char>::empty());
        }
        return String::new();
    }
    let mut j: usize = n;
    while j > i && is_ws_char(s.get_char(j - 1))
        invariant
            i <= j <= n,
            n == s@.len(),
            i < n,
            !is_plain_ws(s@[i as int]),
            forall|k: int| j <= k < n ==> is_plain_ws(#[trigger] s@[k]),
        decreases j,
    {
        j = j - 1;
    }
    proof {
        let t = s@.subrange(i as int, n as int);
        assert(forall|k: int| j - i <= k < t.len() ==> is_plain_ws(#[trigger] t[k]));
        assert(j > i ==> !is_plain_ws(t[j - i - 1]));
        assert(j == i ==> !is_plain_ws(t[j - i]));
        assert(j > i) by {
            if j == i {
                assert(is_plain_ws(t[0]));
                assert(!is_plain_ws(t[0]));
            }
        }
        lemma_trim_end_at(t, j - i);
        assert(t.subrange(0, j - i) =~= s@.subrange(i as int, j as int));
    }
    s.substring_char(i, j).to_owned()
}

/// The first `limit` characters of the text, or all of it when it is
/// shorter.
pub open spec fn prefix_chars(s: Seq<char>, limit: int) -> Seq<char> {
    if s.len() > limit {
        s.subrange(0, limit)
    } else {
        s
    }
}

/// Take the first `limit` characters, as [`prefix_chars`] states.
pub fn take_prefix(s: &str, limit: usize) -> (r: String)
    ensures
        r@ == prefix_chars(s@, limit as int),
{
    let n = s.unicode_len();
    if n > limit {
        s.substring_char(0, limit).to_owned()
    } else {
        proof {
            assert(s@.subrange(0, n as int) =~= s@);
        }
        s.substring_char(0, n).to_owned()
    }
}

/// The character for one decimal digit.
pub open spec fn digit_char(d: int) -> char {
    if d == 0 {
        '0'
    } else if d == 1 {
        '1'
    } else if d == 2 {
        '2'
    } else if d == 3 {
        '3'
    } else if d == 4 {
        '4'
    } else if d == 5 {
        '5'
    } else if d == 6 {
        '6'
    } else if d == 7 {
        '7'
    } else if d == 8 {
        '8'
    } else {
        '9'
    }
}

/// The decimal digits of a non-negative number, most significant first.
pub open spec fn dec_digits(n: int) -> Seq<char>
    decreases n,
{
    if n < 10 {
        seq![digit_char(n)]
    } else {
        dec_digits(n / 10).push(digit_char(n % 10))
    }
}

/// The decimal text of a number, with a leading minus sign when it is
/// negative.
pub open spec fn dec_text(n: int) -> Seq<char> {
    if n < 0 {
        seq!['-'] + dec_digits(-n)
    } else {
        dec_digits(n)
    }
}

fn digit_str(d: u64) -> (r: &'static str)
    requires
        d < 10,
    ensures
        r@ == seq![digit_char(d as int)],
{
    if d == 0 {
        proof {
            reveal_strlit("0");
            assert("0"@ =~= seq![digit_char(0int)]);
        }
        "0"
    } else if d == 1 {
        proof {
            reveal_strlit("1");
            assert("1"@ =~= seq![digit_char(1int)]);
        }
        "1"
    } else if d == 2 {
        proof {
            reveal_strlit("2");
            assert("2"@ =~= seq![digit_char(2int)]);
        }
        "2"
    } else if d == 3 {
        proof {
            reveal_strlit("3");
            assert("3"@ =~= seq![digit_char(3int)]);
        }
        "3"
    } else if d == 4 {
        proof {
            reveal_strlit("4");
            assert("4"@ =~= seq![digit_char(4int)]);
        }
        "4"
    } else if d == 5 {
        proof {
            reveal_strlit("5");
            assert("5"@ =~= seq![digit_char(5int)]);
        }
        "5"
    } else if d == 6 {
        proof {
            reveal_strlit("6");
            assert("6"@ =~= seq![digit_char(6int)]);
        }
        "6"
    } else if d == 7 {
        proof {
            reveal_strlit("7");
            assert("7"@ =~= seq![digit_char(7int)]);
        }
        "7"
    } else if d == 8 {
        proof {
            reveal_strlit("8");
            assert("8"@ =~= seq![digit_char(8int)]);
        }
        "8"
    } else {
        proof {
            reveal_strlit("9");
            assert("9"@ =~= seq![digit_char(9int)]);
        }
        "9"
    }
}

/// Append the decimal digits of `n`, as [`dec_digits`] states.
pub fn push_u64_dec(out: &mut String, n: u64)
    ensures
        final(out)@ == old(out)@ + dec_digits(n as int),
    decreases n,
{
    let ghost before = out@;
    if n >= 10 {
        push_u64_dec(out, n / 10);
    }
    let d = digit_str(n % 10);
    out.append(d);
    proof {
        if n < 10 {
            assert(n as int % 10 == n as int);
            assert(out@ =~= before + dec_digits(n as int));
        } else {
            assert(dec_digits(n as int) == dec_digits(n as int / 10).push(
                digit_char(n as int % 10),
            ));
            assert(out@ =~= before + dec_digits(n as int));
        }
    }
}

/// The decimal text of `n`, as [`dec_digits`] states.
pub fn u64_to_string(n: u64) -> (r: String)
    ensures
        r@ == dec_digits(n as int),
{
    let mut out = String::new();
    push_u64_dec(&mut out, n);
    proof {
        assert(out@ =~= dec_digits(n as int));
    }
    out
}

/// The decimal text of `n` with its sign, as [`dec_text`] states.
pub fn i64_to_string(n: i64) -> (r: String)
    ensures
        r@ == dec_text(n as int),
{
    if n >= 0 {
        u64_to_string(n as u64)
    } else {
        let magnitude: u64 = if n == i64::MIN {
            9223372036854775808u64
        } else {
            (-n) as u64
        };
        let mut out = "-".to_owned();
        push_u64_dec(&mut out, magnitude);
        proof {
            reveal_strlit("-");
            assert("-"@ =~= seq!['-']);
            assert(out@ =~= dec_text(n as int));
        }
        out
    }
}

/// The views of a sequence of strings.
pub open spec fn string_views(s: Seq<String>) -> Seq<Seq<char>> {
    s.map_values(|x: String| x@)
}

/// The lines joined with a line break between each pair.
pub open spec fn joined_lines(lines: Seq<Seq<char>>) -> Seq<char>
    decreases lines.len(),
{
    if lines.len() == 0 {
        Seq::<char>::empty()
    } else if lines.len() == 1 {
        lines[0]
    } else {
        joined_lines(lines.drop_last()) + seq!['\n'] + lines.last()
    }
}

/// Join the lines with a line break between each pair, as
/// [`joined_lines`] states.
pub fn join_lines(lines: &Vec<String>) -> (r: String)
    ensures
        r@ == joined_lines(string_views(lines@)),
{
    let ghost mapped = string_views(lines@);
    let mut out = String::new();
    let mut i: usize = 0;
    while i < lines.len()
        invariant
            i <= lines@.len(),
            mapped == string_views(lines@),
            out@ == joined_lines(mapped.subrange(0, i as int)),
        decreases lines@.len() - i,
    {
        if i > 0 {
            out.append("\n");
        }
        out.append(lines[i].as_str());
        proof {
            reveal_strlit("\n");
            assert("\n"@ =~= seq!['\n']);
            assert(mapped.subrange(0, i + 1).drop_last() =~= mapped.subrange(0, i as int));
            assert(mapped.subrange(0, i + 1).last() == lines@[i as int]@);
            if i == 0 {
                assert(out@ =~= joined_lines(mapped.subrange(0, 1)));
            } else {
                assert(out@ =~= joined_lines(mapped.subrange(0, i + 1)));
            }
        }
        i = i + 1;
    }
    proof {
        assert(mapped.subrange(0, mapped.len() as int) =~= mapped);
    }
    out
}

/// The position of the first line break, or the length when there is
/// none.
pub open spec fn first_break(s: Seq<char>) -> int
    decreases s.len(),
{
    if s.len() == 0 {
        0
    } else if s[0] == '\n' {
        0
    } else {
        1 + first_break(s.drop_first())
    }
}

proof fn lemma_first_break_at(s: Seq<char>, k: int)
    requires
        0 <= k <= s.len(),
        forall|j: int| 0 <= j < k ==> s[j] != '\n',
        k < s.len() ==> s[k] == '\n',
    ensures
        first_break(s) == k,
    decreases k,
{
    if k > 0 {
        let t = s.drop_first();
        assert(forall|j: int| 0 <= j < k - 1 ==> t[j] != '\n');
        lemma_first_break_at(t, k - 1);
    }
}

/// The first line break, if any, comes no earlier than the second
/// position when the text does not start with a break.
pub proof fn lemma_first_break_bounds(s: Seq<char>)
    ensures
        0 <= first_break(s) <= s.len(),
        s.len() > 0 && s[0] != '\n' ==> first_break(s) >= 1,
    decreases s.len(),
{
    if s.len() > 0 && s[0] != '\n' {
        lemma_first_break_bounds(s.drop_first());
    }
}

#[via_fn]
proof fn nonempty_segments_decreases(s: Seq<char>) {
    lemma_first_break_bounds(s);
}

/// The position of the first occurrence of `sep`, or the length when
/// there is none.
pub open spec fn first_sep(s: Seq<char>, sep: char) -> int
    decreases s.len(),
{
    if s.len() == 0 {
        0
    } else if s[0] == sep {
        0
    } else {
        1 + first_sep(s.drop_first(), sep)
    }
}

proof fn lemma_first_sep_at(s: Seq<char>, sep: char, k: int)
    requires
        0 <= k <= s.len(),
        forall|j: int| 0 <= j < k ==> s[j] != sep,
        k < s.len() ==> s[k] == sep,
    ensures
        first_sep(s, sep) == k,
    decreases k,
{
    if k > 0 {
        let t = s.drop_first();
        assert(forall|j: int| 0 <= j < k - 1 ==> t[j] != sep);
        lemma_first_sep_at(t, sep, k - 1);
    }
}

/// Find the first occurrence of `sep`, as [`first_sep`] states.
pub fn find_sep(s: &str, sep: char) -> (r: usize)
    ensures
        r == first_sep(s@, sep),
        r <= s@.len(),
{
    let n = s.unicode_len();
    let mut k: usize = 0;
    while k < n && s.get_char(k) != sep
        invariant
            k <= n,
            n == s@.len(),
            forall|j: int| 0 <= j < k ==> s@[j] != sep,
        decreases n - k,
    {
        k = k + 1;
    }
    proof {
        lemma_first_sep_at(s@, sep, k as int);
    }
    k
}

/// The non-empty lines of the text, in order.
pub open spec fn nonempty_segments(s: Seq<char>) -> Seq<Seq<char>>
    decreases s.len(),
    via nonempty_segments_decreases
{
    if s.len() == 0 {
        Seq::<Seq<char>>::empty()
    } else if s[0] == '\n' {
        nonempty_segments(s.drop_first())
    } else {
        seq![s.subrange(0, first_break(s))] + nonempty_segments(s.skip(first_break(s)))
    }
}

/// Split the text at line breaks, dropping empty lines, as
/// [`nonempty_segments`] states.
pub fn split_nonempty_lines(s: &str) -> (r: Vec<String>)
    ensures
        string_views(r@) == nonempty_segments(s@),
    decreases s@.len(),
{
    let n = s.unicode_len();
    if n == 0 {
        let r: Vec<String> = Vec::new();
        proof {
            assert(string_views(r@) =~= nonempty_segments(s@));
        }
        return r;
    }
    if s.get_char(0) == '\n' {
        let rest = s.substring_char(1, n);
        proof {
            assert(rest@ =~= s@.drop_first());
        }
        return split_nonempty_lines(rest);
    }
    let mut k: usize = 1;
    while k < n && s.get_char(k) != '\n'
        invariant
            1 <= k <= n,
            n == s@.len(),
            forall|j: int| 0 <= j < k ==> s@[j] != '\n',
        decreases n - k,
    {
        k = k + 1;
    }
    proof {
        lemma_first_break_at(s@, k as int);
    }
    let head = s.substring_char(0, k).to_owned();
    let tail = s.substring_char(k, n);
    proof {
        assert(tail@ =~= s@.skip(k as int));
    }
    let mut rest = split_nonempty_lines(tail);
    let ghost rest_mapped = string_views(rest@);
    rest.insert(0, head);
    proof {
        assert(string_views(rest@) =~= seq![s@.subrange(0, k as int)] + rest_mapped);
    }
    rest
}

/// Whether a resource state string reads `running`.
pub fn is_running_state(state: &String) -> (r: bool)
    ensures
        r == (state@ == "running"@),
{
    *state == "running".to_owned()
}

} // verus!
