//! Text handling for form fields: Unicode whitespace, trimming, splitting
//! multi-line inputs into items, decimal rendering and parsing of `u64`.

use vstd::prelude::*;

verus! {

/// The Unicode `White_Space` property, which `char::is_whitespace` and
/// `str::trim` go by.
pub open spec fn is_white_space(c: char) -> bool {
    let n = c as u32;
    ||| 0x9 <= n <= 0xd
    ||| n == 0x20
    ||| n == 0x85
    ||| n == 0xa0
    ||| n == 0x1680
    ||| 0x2000 <= n <= 0x200a
    ||| n == 0x2028
    ||| n == 0x2029
    ||| n == 0x202f
    ||| n == 0x205f
    ||| n == 0x3000
}

/// Whether `c` is Unicode whitespace.
pub fn is_white_space_char(c: char) -> (r: bool)
    ensures
        r == is_white_space(c),
{
    let n = c as u32;
    (0x9 <= n && n <= 0xd) || n == 0x20 || n == 0x85 || n == 0xa0 || n == 0x1680 || (0x2000 <= n
        && n <= 0x200a) || n == 0x2028 || n == 0x2029 || n == 0x202f || n == 0x205f || n == 0x3000
}

/// `s` without its leading whitespace.
pub open spec fn trim_start(s: Seq<char>) -> Seq<char>
    decreases s.len(),
{
    if s.len() > 0 && is_white_space(s[0]) {
        trim_start(s.drop_first())
    } else {
        s
    }
}

/// `s` without its trailing whitespace.
pub open spec fn trim_end(s: Seq<char>) -> Seq<char>
    decreases s.len(),
{
    if s.len() > 0 && is_white_space(s.last()) {
        trim_end(s.drop_last())
    } else {
        s
    }
}

/// `s` without leading and trailing whitespace, as `str::trim` gives it.
pub open spec fn trim(s: Seq<char>) -> Seq<char> {
    trim_end(trim_start(s))
}

/// Whether `s` holds nothing but whitespace.
pub open spec fn is_blank(s: Seq<char>) -> bool {
    trim(s).len() == 0
}

proof fn lemma_trim_start_at(s: Seq<char>, k: int)
    requires
        0 <= k <= s.len(),
        forall|i: int| 0 <= i < k ==> is_white_space(#[trigger] s[i]),
        k == s.len() || !is_white_space(s[k]),
    ensures
        trim_start(s) == s.subrange(k, s.len() as int),
    decreases k,
{
    if k == 0 {
        assert(s.subrange(0, s.len() as int) =~= s);
    } else {
        let t = s.drop_first();
        assert forall|i: int| 0 <= i < k - 1 implies is_white_space(#[trigger] t[i]) by {
            assert(t[i] == s[i + 1]);
        }
        lemma_trim_start_at(t, k - 1);
        assert(t.subrange(k - 1, t.len() as int) =~= s.subrange(k, s.len() as int));
    }
}

proof fn lemma_trim_end_at(s: Seq<char>, k: int)
    requires
        0 <= k <= s.len(),
        forall|i: int| k <= i < s.len() ==> is_white_space(#[trigger] s[i]),
        k == 0 || !is_white_space(s[k - 1]),
    ensures
        trim_end(s) == s.subrange(0, k),
    decreases s.len() - k,
{
    if k == s.len() {
        assert(s.subrange(0, k) =~= s);
    } else {
        let t = s.drop_last();
        assert forall|i: int| k <= i < t.len() implies is_white_space(#[trigger] t[i]) by {
            assert(t[i] == s[i]);
        }
        lemma_trim_end_at(t, k);
        assert(t.subrange(0, k) =~= s.subrange(0, k));
    }
}

/// The bounds `(a', b')` with `a <= a' <= b' <= b` of the trimmed part of `chars[a..b]`.
fn trimmed_bounds(chars: &Vec<char>, a: usize, b: usize) -> (r: (usize, usize))
    requires
        a <= b <= chars.len(),
    ensures
        a <= r.0 <= r.1 <= b,
        chars@.subrange(r.0 as int, r.1 as int) == trim(chars@.subrange(a as int, b as int)),
{
    let mut lo = a;
    while lo < b && is_white_space_char(chars[lo])
        invariant
            a <= lo <= b <= chars.len(),
            forall|i: int| a <= i < lo ==> is_white_space(#[trigger] chars@[i]),
        decreases b - lo,
    {
        lo = lo + 1;
    }
    let mut hi = b;
    while hi > lo && is_white_space_char(chars[hi - 1])
        invariant
            a <= lo <= hi <= b <= chars.len(),
            forall|i: int| hi <= i < b ==> is_white_space(#[trigger] chars@[i]),
        decreases hi - lo,
    {
        hi = hi - 1;
    }
    proof {
        let s = chars@.subrange(a as int, b as int);
        assert forall|i: int| 0 <= i < lo - a implies is_white_space(#[trigger] s[i]) by {
            assert(s[i] == chars@[a + i]);
        }
        lemma_trim_start_at(s, lo - a);
        let u = s.subrange(lo - a, b - a);
        assert(u =~= chars@.subrange(lo as int, b as int));
        assert forall|i: int| hi - lo <= i < u.len() implies is_white_space(#[trigger] u[i]) by {
            assert(u[i] == chars@[lo + i]);
        }
        if hi > lo {
            assert(u[hi - lo - 1] == chars@[hi - 1]);
        }
        lemma_trim_end_at(u, hi - lo);
        assert(u.subrange(0, hi - lo) =~= chars@.subrange(lo as int, hi as int));
    }
    (lo, hi)
}

/// The characters of `s`, one by one.
fn chars_of(s: &str) -> (r: Vec<char>)
    ensures
        r@ == s@,
{
    let n = s.unicode_len();
    let mut out: Vec<char> = Vec::new();
    let mut i: usize = 0;
    while i < n
        invariant
            n == s@.len(),
            i <= n,
            out@ == s@.subrange(0, i as int),
        decreases n - i,
    {
        let c = s.get_char(i);
        out.push(c);
        i = i + 1;
        assert(out@ =~= s@.subrange(0, i as int));
    }
    assert(out@ =~= s@);
    out
}

/// The text of `s` without leading and trailing whitespace.
pub fn trimmed(s: &str) -> (r: String)
    ensures
        r@ == trim(s@),
{
    let chars = chars_of(s);
    let (lo, hi) = trimmed_bounds(&chars, 0, chars.len());
    assert(chars@.subrange(0, chars@.len() as int) =~= chars@);
    s.substring_char(lo, hi).to_owned()
}

/// Whether `s` holds nothing but whitespace.
pub fn is_blank_text(s: &str) -> (r: bool)
    ensures
        r == is_blank(s@),
{
    let chars = chars_of(s);
    let (lo, hi) = trimmed_bounds(&chars, 0, chars.len());
    assert(chars@.subrange(0, chars@.len() as int) =~= chars@);
    lo == hi
}

/// Whether `c` ends an item of a multi-line list: a line break always,
/// a comma where `commas` holds.
pub open spec fn is_item_separator(c: char, commas: bool) -> bool {
    c == '\n' || (commas && c == ',')
}

/// The fields of `s` between separators, as `str::split` gives them: one
/// more field than separators, empty fields included.
pub open spec fn split_fields(s: Seq<char>, commas: bool) -> Seq<Seq<char>>
    decreases s.len(),
{
    if s.len() == 0 {
        seq![Seq::<char>::empty()]
    } else {
        let prev = split_fields(s.drop_last(), commas);
        if is_item_separator(s.last(), commas) {
            prev.push(Seq::<char>::empty())
        } else {
            prev.update(prev.len() - 1, prev.last().push(s.last()))
        }
    }
}

/// The items of a multi-line list: each field trimmed, blank fields dropped.
pub open spec fn list_items(s: Seq<char>, commas: bool) -> Seq<Seq<char>> {
    split_fields(s, commas).map_values(|f: Seq<char>| trim(f)).filter(|f: Seq<char>| f.len() > 0)
}

/// The character sequences that a vector of strings holds.
pub open spec fn strings_view(v: Seq<String>) -> Seq<Seq<char>> {
    v.map_values(|x: String| x@)
}

/// The items of `input`: the fields between separators, trimmed, without the blank ones.
fn split_items(input: &str, commas: bool) -> (r: Vec<String>)
    ensures
        strings_view(r@) == list_items(input@, commas),
{
    broadcast use vstd::seq_lib::group_seq_properties;

    let chars = chars_of(input);
    let n = chars.len();
    let mut out: Vec<String> = Vec::new();
    let mut start: usize = 0;
    let mut i: usize = 0;
    let ghost mut done: Seq<Seq<char>> = Seq::empty();
    let ghost keep = |f: Seq<char>| f.len() > 0;
    let ghost tr = |f: Seq<char>| trim(f);
    while i < n
        invariant
            n == chars@.len(),
            chars@ == input@,
            start <= i <= n,
            split_fields(chars@.subrange(0, i as int), commas) == done.push(
                chars@.subrange(start as int, i as int),
            ),
            strings_view(out@) == done.map_values(tr).filter(keep),
            tr == (|f: Seq<char>| trim(f)),
            keep == (|f: Seq<char>| f.len() > 0),
        decreases n - i,
    {
        let c = chars[i];
        proof {
            let p = chars@.subrange(0, i + 1);
            assert(p.drop_last() =~= chars@.subrange(0, i as int));
            assert(p.last() == c);
        }
        if c == '\n' || (commas && c == ',') {
            let (lo, hi) = trimmed_bounds(&chars, start, i);
            let ghost field = chars@.subrange(start as int, i as int);
            let ghost before = out@;
            if lo < hi {
                let piece = input.substring_char(lo, hi).to_owned();
                out.push(piece);
                proof {
                    before.lemma_push_map_commute(|x: String| x@, piece);
                }
            }
            proof {
                done.lemma_push_map_commute(tr, field);
                done.map_values(tr).lemma_filter_push(trim(field), keep);
                assert(strings_view(out@) =~= done.push(field).map_values(tr).filter(keep));
                done = done.push(field);
                assert(chars@.subrange(i + 1, i + 1) =~= Seq::<char>::empty());
            }
            start = i + 1;
        } else {
            proof {
                assert(chars@.subrange(start as int, i + 1) =~= chars@.subrange(
                    start as int,
                    i as int,
                ).push(c));
                assert(done.push(chars@.subrange(start as int, i as int)).update(
                    done.len() as int,
                    chars@.subrange(start as int, i + 1),
                ) =~= done.push(chars@.subrange(start as int, i + 1)));
            }
        }
        i = i + 1;
    }
    let (lo, hi) = trimmed_bounds(&chars, start, n);
    let ghost field = chars@.subrange(start as int, n as int);
    if lo < hi {
        let piece = input.substring_char(lo, hi).to_owned();
        out.push(piece);
    }
    proof {
        assert(chars@.subrange(0, n as int) =~= chars@);
        done.lemma_push_map_commute(tr, field);
        done.map_values(tr).lemma_filter_push(trim(field), keep);
        assert(strings_view(out@) =~= done.push(field).map_values(tr).filter(keep));
    }
    out
}

/// The items of a list typed one per line or separated by commas, each
/// trimmed, blank ones left out.
pub fn split_lines(input: &str) -> (r: Vec<String>)
    ensures
        strings_view(r@) == list_items(input@, true),
{
    split_items(input, true)
}

/// The non-blank lines of `input`, each trimmed.
pub fn nonblank_lines(input: &str) -> (r: Vec<String>)
    ensures
        strings_view(r@) == list_items(input@, false),
{
    split_items(input, false)
}

/// Whether `c` is one of the ASCII digits `0` to `9`.
pub open spec fn is_digit(c: char) -> bool {
    48 <= c as u32 <= 57
}

/// The value of the ASCII digit `c`.
pub open spec fn digit_value(c: char) -> nat {
    (c as u32 - 48) as nat
}

/// The ASCII digit for `d`, which is below ten.
pub open spec fn digit_char(d: nat) -> char {
    (d + 48) as char
}

/// Whether every character of `s` is an ASCII digit.
pub open spec fn all_digits(s: Seq<char>) -> bool {
    forall|i: int| 0 <= i < s.len() ==> is_digit(#[trigger] s[i])
}

/// The number that the digits `s` spell in base ten.
pub open spec fn digits_value(s: Seq<char>) -> nat
    decreases s.len(),
{
    if s.len() == 0 {
        0
    } else {
        digits_value(s.drop_last()) * 10 + digit_value(s.last())
    }
}

/// What `str::parse::<u64>` gives for `s`: an optional `+`, then at least
/// one ASCII digit and nothing else, spelling a number that fits in a `u64`.
pub open spec fn parse_u64_spec(s: Seq<char>) -> Option<u64> {
    let body = if s.len() > 0 && s[0] == '+' {
        s.drop_first()
    } else {
        s
    };
    if body.len() > 0 && all_digits(body) && digits_value(body) <= u64::MAX {
        Some(digits_value(body) as u64)
    } else {
        None
    }
}

/// The base-ten digits of `n`, without leading zeros, as `Display` writes them.
pub open spec fn decimal(n: nat) -> Seq<char>
    decreases n,
{
    if n < 10 {
        seq![digit_char(n)]
    } else {
        decimal(n / 10).push(digit_char(n % 10))
    }
}

proof fn lemma_digits_value_prefix(s: Seq<char>, k: int)
    requires
        0 <= k <= s.len(),
    ensures
        digits_value(s.subrange(0, k)) <= digits_value(s),
    decreases s.len(),
{
    if k < s.len() {
        assert(s.drop_last() =~= s.subrange(0, s.len() - 1));
        lemma_digits_value_prefix(s.drop_last(), k);
        assert(s.drop_last().subrange(0, k) =~= s.subrange(0, k));
    } else {
        assert(s.subrange(0, k) =~= s);
    }
}

/// The ASCII digit of `d`, as a string.
fn digit_text(d: u64) -> (r: &'static str)
    requires
        d < 10,
    ensures
        r@ == seq![digit_char(d as nat)],
{
    if d == 0 {
        proof { reveal_strlit("0"); }
        "0"
    } else if d == 1 {
        proof { reveal_strlit("1"); }
        "1"
    } else if d == 2 {
        proof { reveal_strlit("2"); }
        "2"
    } else if d == 3 {
        proof { reveal_strlit("3"); }
        "3"
    } else if d == 4 {
        proof { reveal_strlit("4"); }
        "4"
    } else if d == 5 {
        proof { reveal_strlit("5"); }
        "5"
    } else if d == 6 {
        proof { reveal_strlit("6"); }
        "6"
    } else if d == 7 {
        proof { reveal_strlit("7"); }
        "7"
    } else if d == 8 {
        proof { reveal_strlit("8"); }
        "8"
    } else {
        proof { reveal_strlit("9"); }
        "9"
    }
}

/// The base-ten text of `n`.
pub fn decimal_text(n: u64) -> (r: String)
    ensures
        r@ == decimal(n as nat),
    decreases n,
{
    if n < 10 {
        let mut out = String::new();
        out.append(digit_text(n));
        assert(out@ =~= decimal(n as nat));
        out
    } else {
        let mut out = decimal_text(n / 10);
        out.append(digit_text(n % 10));
        assert(out@ =~= decimal(n as nat));
        out
    }
}

/// `str::parse::<u64>` on the characters `chars`.
fn parse_u64_chars(chars: &Vec<char>) -> (r: Option<u64>)
    ensures
        r == parse_u64_spec(chars@),
{
    let n = chars.len();
    let start: usize = if n > 0 && chars[0] == '+' {
        1
    } else {
        0
    };
    let ghost body = chars@.subrange(start as int, n as int);
    proof {
        if start == 1 {
            assert(body =~= chars@.drop_first());
        } else {
            assert(body =~= chars@);
        }
    }
    if start == n {
        return None;
    }
    let mut acc: u64 = 0;
    let mut i: usize = start;
    while i < n
        invariant
            start <= i <= n == chars@.len(),
            body == chars@.subrange(start as int, n as int),
            body == (if chars@.len() > 0 && chars@[0] == '+' {
                chars@.drop_first()
            } else {
                chars@
            }),
            body.len() > 0,
            all_digits(chars@.subrange(start as int, i as int)),
            acc as nat == digits_value(chars@.subrange(start as int, i as int)),
        decreases n - i,
    {
        let c = chars[i];
        let prefix_next = Ghost(chars@.subrange(start as int, i + 1));
        proof {
            assert(prefix_next@.drop_last() =~= chars@.subrange(start as int, i as int));
            assert(prefix_next@.last() == c);
        }
        let code = c as u32;
        if code < 48 || code > 57 {
            proof {
                assert(body[i - start] == c);
            }
            return None;
        }
        let d = (code - 48) as u64;
        match acc.checked_mul(10) {
            Some(m) => match m.checked_add(d) {
                Some(v) => {
                    acc = v;
                },
                None => {
                    proof {
                        lemma_digits_value_prefix(body, i + 1 - start);
                        assert(body.subrange(0, i + 1 - start) =~= prefix_next@);
                    }
                    return None;
                },
            },
            None => {
                proof {
                    lemma_digits_value_prefix(body, i + 1 - start);
                    assert(body.subrange(0, i + 1 - start) =~= prefix_next@);
                }
                return None;
            },
        }
        i = i + 1;
    }
    Some(acc)
}

/// `str::parse::<u64>` on the trimmed text of `value`.
pub fn parse_trimmed_u64(value: &str) -> (r: Option<u64>)
    ensures
        r == parse_u64_spec(trim(value@)),
{
    let chars = chars_of(value);
    let (lo, hi) = trimmed_bounds(&chars, 0, chars.len());
    assert(chars@.subrange(0, chars@.len() as int) =~= chars@);
    let mut part: Vec<char> = Vec::new();
    let mut i = lo;
    while i < hi
        invariant
            lo <= i <= hi <= chars@.len(),
            part@ == chars@.subrange(lo as int, i as int),
        decreases hi - i,
    {
        part.push(chars[i]);
        i = i + 1;
        assert(part@ =~= chars@.subrange(lo as int, i as int));
    }
    parse_u64_chars(&part)
}

/// The message for a field whose text is not a valid value: `invalid {name}: {value}`.
pub open spec fn invalid_field_message(name: Seq<char>, value: Seq<char>) -> Seq<char> {
    "invalid "@ + name + ": "@ + value
}

/// The message for a field whose text is not a valid value.
pub fn invalid_field_text(name: &str, value: &str) -> (r: String)
    ensures
        r@ == invalid_field_message(name@, value@),
{
    let mut out = String::new();
    out.append("invalid ");
    out.append(name);
    out.append(": ");
    out.append(value);
    out
}

/// Reads a whole number from a form field: its trimmed text must be what
/// `str::parse::<u64>` accepts; otherwise the error names the field and
/// repeats its text as typed.
pub fn parse_u64_field(name: &str, value: &str) -> (r: Result<u64, String>)
    ensures
        parse_u64_spec(trim(value@)) matches Some(n) ==> r == Ok::<u64, String>(n),
        parse_u64_spec(trim(value@)) is None ==> (r matches Err(msg) && msg@
            == invalid_field_message(name@, value@)),
{
    match parse_trimmed_u64(value) {
        Some(n) => Ok(n),
        None => Err(invalid_field_text(name, value)),
    }
}

/// Whether two texts hold the same characters.
pub fn same_text(a: &str, b: &str) -> (r: bool)
    ensures
        r == (a@ == b@),
{
    let x = chars_of(a);
    let y = chars_of(b);
    if x.len() != y.len() {
        return false;
    }
    let mut i: usize = 0;
    while i < x.len()
        invariant
            x@ == a@,
            y@ == b@,
            x.len() == y.len(),
            i <= x.len(),
            forall|j: int| 0 <= j < i ==> x@[j] == y@[j],
        decreases x.len() - i,
    {
        if x[i] != y[i] {
            return false;
        }
        i = i + 1;
    }
    assert(x@ =~= y@);
    true
}

/// The rest of `line` after `prefix`, where `line` begins with it.
pub fn strip_prefix_text(line: &str, prefix: &str) -> (r: Option<String>)
    ensures
        r matches Some(rest) ==> line@ == prefix@ + rest@,
        r is None ==> !(prefix@.len() <= line@.len() && line@.subrange(0, prefix@.len() as int)
            == prefix@),
{
    let x = chars_of(line);
    let p = chars_of(prefix);
    if p.len() > x.len() {
        return None;
    }
    let mut i: usize = 0;
    while i < p.len()
        invariant
            x@ == line@,
            p@ == prefix@,
            p.len() <= x.len(),
            i <= p.len(),
            forall|j: int| 0 <= j < i ==> x@[j] == p@[j],
        decreases p.len() - i,
    {
        if x[i] != p[i] {
            assert(line@.subrange(0, prefix@.len() as int)[i as int] != prefix@[i as int]);
            return None;
        }
        i = i + 1;
    }
    let rest = line.substring_char(p.len(), x.len()).to_owned();
    assert(line@ =~= prefix@ + rest@);
    Some(rest)
}

/// A copy of a list of strings.
pub fn copy_strings(v: &Vec<String>) -> (r: Vec<String>)
    ensures
        r@ == v@,
{
    let mut out: Vec<String> = Vec::new();
    let mut i: usize = 0;
    while i < v.len()
        invariant
            i <= v.len(),
            out@ == v@.subrange(0, i as int),
        decreases v.len() - i,
    {
        out.push(v[i].clone());
        i = i + 1;
        assert(out@ =~= v@.subrange(0, i as int));
    }
    assert(out@ =~= v@);
    out
}

/// A copy of an optional string.
pub fn copy_optional_text(v: &Option<String>) -> (r: Option<String>)
    ensures
        r == *v,
{
    match v {
        Some(s) => Some(s.clone()),
        None => None,
    }
}

} // verus!
