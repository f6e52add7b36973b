//! Pure text operations on path strings.
//!
//! Paths are carried as plain strings, and the handful of path operations the
//! crate needs (joining, final components, stems, extensions, numeric
//! suffixes) are written here against explicit specifications over the
//! strings' character sequences.
//!
//! The path model is deliberately simple: `/` separates components, trailing
//! separators are ignored, a component's stem is the part before its last
//! dot (unless the dot starts the component), and the extension is the part
//! after that dot.

use vstd::prelude::*;
use vstd::string::StrSliceExecFns;
use vstd::string::StringExecFns;

verus! {

/// Joins `name` onto the directory `base`, inserting a `/` unless `base`
/// already ends with one.
pub fn join(base: &str, name: &str) -> (r: String)
    ensures
        r@ == crate::spec_join(base@, name@),
{
    let n = base.unicode_len();
    let mut s = String::from_str(base);
    if n == 0 || base.get_char(n - 1) != '/' {
        s.append("/");
    }
    s.append(name);
    s
}

/// `suffix` closes `s`.
pub open spec fn spec_ends_with(s: Seq<char>, suffix: Seq<char>) -> bool {
    suffix.len() <= s.len() && s.subrange(s.len() - suffix.len(), s.len() as int) == suffix
}

/// `prefix` opens `s`.
pub open spec fn spec_starts_with(s: Seq<char>, prefix: Seq<char>) -> bool {
    prefix.len() <= s.len() && s.subrange(0, prefix.len() as int) == prefix
}

pub fn ends_with(s: &str, suffix: &str) -> (r: bool)
    ensures
        r == spec_ends_with(s@, suffix@),
{
    let n = s.unicode_len();
    let m = suffix.unicode_len();
    if m > n {
        return false;
    }
    let mut i: usize = 0;
    while i < m
        invariant
            i <= m <= n,
            n == s@.len(),
            m == suffix@.len(),
            forall|j: int| 0 <= j < i ==> s@[n - m + j] == suffix@[j],
        decreases m - i,
    {
        if s.get_char(n - m + i) != suffix.get_char(i) {
            assert(s@.subrange(n - m, n as int)[i as int] != suffix@[i as int]);
            return false;
        }
        i += 1;
    }
    assert(s@.subrange(n - m, n as int) =~= suffix@);
    true
}

pub fn starts_with(s: &str, prefix: &str) -> (r: bool)
    ensures
        r == spec_starts_with(s@, prefix@),
{
    let n = s.unicode_len();
    let m = prefix.unicode_len();
    if m > n {
        return false;
    }
    let mut i: usize = 0;
    while i < m
        invariant
            i <= m <= n,
            n == s@.len(),
            m == prefix@.len(),
            forall|j: int| 0 <= j < i ==> s@[j] == prefix@[j],
        decreases m - i,
    {
        if s.get_char(i) != prefix.get_char(i) {
            assert(s@.subrange(0, m as int)[i as int] != prefix@[i as int]);
            return false;
        }
        i += 1;
    }
    assert(s@.subrange(0, m as int) =~= prefix@);
    true
}

/// The rest of `s` after `prefix`, when `s` starts with it.
pub fn strip_prefix<'a>(s: &'a str, prefix: &str) -> (r: Option<&'a str>)
    ensures
        spec_starts_with(s@, prefix@) ==> (r matches Some(t) && t@ == s@.subrange(
            prefix@.len() as int,
            s@.len() as int,
        )),
        !spec_starts_with(s@, prefix@) ==> r is None,
{
    if starts_with(s, prefix) {
        Some(s.substring_char(prefix.unicode_len(), s.unicode_len()))
    } else {
        None
    }
}

/// Character-by-character string equality.
pub fn str_eq(a: &str, b: &str) -> (r: bool)
    ensures
        r == (a@ == b@),
{
    let n = a.unicode_len();
    if n != b.unicode_len() {
        return false;
    }
    let mut i: usize = 0;
    while i < n
        invariant
            i <= n,
            n == a@.len() == b@.len(),
            forall|j: int| 0 <= j < i ==> a@[j] == b@[j],
        decreases n - i,
    {
        if a.get_char(i) != b.get_char(i) {
            return false;
        }
        i += 1;
    }
    assert(a@ =~= b@);
    true
}

/// `p` without its trailing separators.
pub open spec fn spec_trim_slashes(p: Seq<char>) -> Seq<char>
    decreases p.len(),
{
    if p.len() > 0 && p[p.len() - 1] == '/' {
        spec_trim_slashes(p.drop_last())
    } else {
        p
    }
}

/// The text after the last separator of `p`; all of `p` when it has none.
pub open spec fn spec_suffix_after_slash(p: Seq<char>) -> Seq<char>
    decreases p.len(),
{
    if p.len() == 0 {
        p
    } else if p[p.len() - 1] == '/' {
        Seq::empty()
    } else {
        spec_suffix_after_slash(p.drop_last()).push(p[p.len() - 1])
    }
}

/// The final component of path `p`: the text after the last separator, with
/// trailing separators ignored.  Empty text and `..` name no component.
pub open spec fn spec_file_name(p: Seq<char>) -> Option<Seq<char>> {
    let name = spec_suffix_after_slash(spec_trim_slashes(p));
    if name.len() == 0 || name == ".."@ {
        None
    } else {
        Some(name)
    }
}

proof fn lemma_trim_slashes_take(p: Seq<char>, end: int)
    requires
        0 <= end <= p.len(),
        forall|j: int| end <= j < p.len() ==> p[j] == '/',
    ensures
        spec_trim_slashes(p) == spec_trim_slashes(p.take(end)),
    decreases p.len() - end,
{
    if end < p.len() {
        assert(p.drop_last() =~= p.take(p.len() - 1));
        lemma_trim_slashes_take(p.take(p.len() - 1), end);
        assert(p.take(p.len() - 1).take(end) =~= p.take(end));
    } else {
        assert(p.take(end) =~= p);
    }
}

proof fn lemma_suffix_after_slash_subrange(p: Seq<char>, start: int)
    requires
        0 <= start <= p.len(),
        forall|j: int| start <= j < p.len() ==> p[j] != '/',
        start > 0 ==> p[start - 1] == '/',
    ensures
        spec_suffix_after_slash(p) == p.subrange(start, p.len() as int),
    decreases p.len(),
{
    if p.len() == 0 {
        assert(p.subrange(0, 0) =~= p);
    } else if start == p.len() {
        assert(p[p.len() - 1] == '/');
        assert(spec_suffix_after_slash(p) =~= p.subrange(start, p.len() as int));
    } else {
        assert(p[p.len() - 1] != '/');
        lemma_suffix_after_slash_subrange(p.drop_last(), start);
        assert(p.drop_last() =~= p.take(p.len() - 1));
        assert(spec_suffix_after_slash(p) =~= p.subrange(start, p.len() as int));
    }
}

/// The final component of `s` under the module's path model.
pub fn file_name(s: &str) -> (r: Option<&str>)
    ensures
        r matches Some(t) ==> spec_file_name(s@) == Some(t@),
        r is None ==> spec_file_name(s@) is None,
{
    let n = s.unicode_len();
    let mut end: usize = n;
    while end > 0 && s.get_char(end - 1) == '/'
        invariant
            end <= n,
            n == s@.len(),
            forall|j: int| end <= j < n ==> s@[j] == '/',
        decreases end,
    {
        end -= 1;
    }
    proof {
        lemma_trim_slashes_take(s@, end as int);
        assert(spec_trim_slashes(s@.take(end as int)) == s@.take(end as int));
    }
    let mut start: usize = end;
    while start > 0 && s.get_char(start - 1) != '/'
        invariant
            start <= end <= n,
            n == s@.len(),
            forall|j: int| start <= j < end ==> s@[j] != '/',
        decreases start,
    {
        start -= 1;
    }
    proof {
        lemma_suffix_after_slash_subrange(s@.take(end as int), start as int);
        assert(s@.take(end as int).subrange(start as int, end as int) =~= s@.subrange(
            start as int,
            end as int,
        ));
    }
    let name = s.substring_char(start, end);
    if name.unicode_len() == 0 || str_eq(name, "..") {
        None
    } else {
        Some(name)
    }
}

/// The index of the last dot of `name`, or -1 when it has none.
pub open spec fn spec_last_dot(name: Seq<char>) -> int
    decreases name.len(),
{
    if name.len() == 0 {
        -1
    } else if name[name.len() - 1] == '.' {
        name.len() - 1
    } else {
        spec_last_dot(name.drop_last())
    }
}

/// The stem of a component: the part before its last dot, unless the dot is
/// first or absent, in which case the whole component.
pub open spec fn spec_stem_of(name: Seq<char>) -> Seq<char> {
    let d = spec_last_dot(name);
    if d <= 0 {
        name
    } else {
        name.take(d)
    }
}

/// The extension of a component: the part after its last dot, provided the
/// dot is neither first nor absent.
pub open spec fn spec_extension_of(name: Seq<char>) -> Option<Seq<char>> {
    let d = spec_last_dot(name);
    if d <= 0 {
        None
    } else {
        Some(name.subrange(d + 1, name.len() as int))
    }
}

/// The stem of path `p`'s final component.
pub open spec fn spec_file_stem(p: Seq<char>) -> Option<Seq<char>> {
    match spec_file_name(p) {
        Some(name) => Some(spec_stem_of(name)),
        None => None,
    }
}

/// The extension of path `p`'s final component.
pub open spec fn spec_file_extension(p: Seq<char>) -> Option<Seq<char>> {
    match spec_file_name(p) {
        Some(name) => spec_extension_of(name),
        None => None,
    }
}

proof fn lemma_last_dot_range(name: Seq<char>)
    ensures
        -1 <= spec_last_dot(name) < name.len(),
        spec_last_dot(name) >= 0 ==> name[spec_last_dot(name)] == '.',
        forall|j: int| spec_last_dot(name) < j < name.len() ==> name[j] != '.',
    decreases name.len(),
{
    if name.len() > 0 && name[name.len() - 1] != '.' {
        lemma_last_dot_range(name.drop_last());
        assert forall|j: int| spec_last_dot(name) < j < name.len() implies name[j] != '.' by {
            if j < name.len() - 1 {
                assert(name.drop_last()[j] != '.');
            }
        }
    }
}

proof fn lemma_last_dot_at(name: Seq<char>, d: int)
    requires
        -1 <= d < name.len(),
        d >= 0 ==> name[d] == '.',
        forall|j: int| d < j < name.len() ==> name[j] != '.',
    ensures
        spec_last_dot(name) == d,
    decreases name.len(),
{
    if name.len() > 0 {
        if d == name.len() - 1 {
        } else {
            assert(name[name.len() - 1] != '.');
            assert forall|j: int| d < j < name.drop_last().len() implies name.drop_last()[j]
                != '.' by {
                assert(name.drop_last()[j] == name[j]);
            }
            if d >= 0 {
                assert(name.drop_last()[d] == name[d]);
            }
            lemma_last_dot_at(name.drop_last(), d);
        }
    }
}

/// The index just past the last dot of `name`, or 0 when it has none.
fn find_after_last_dot(name: &str) -> (r: usize)
    ensures
        r == spec_last_dot(name@) + 1,
        r <= name@.len(),
{
    proof {
        lemma_last_dot_range(name@);
    }
    let n = name.unicode_len();
    let mut i: usize = n;
    while i > 0 && name.get_char(i - 1) != '.'
        invariant
            i <= n,
            n == name@.len(),
            forall|j: int| i <= j < n ==> name@[j] != '.',
        decreases i,
    {
        i -= 1;
    }
    proof {
        lemma_last_dot_at(name@, i - 1);
    }
    i
}

/// The stem of `s`'s final component.
pub fn file_stem(s: &str) -> (r: Option<&str>)
    ensures
        r matches Some(t) ==> spec_file_stem(s@) == Some(t@),
        r is None ==> spec_file_stem(s@) is None,
{
    match file_name(s) {
        None => None,
        Some(name) => {
            let d = find_after_last_dot(name);
            if d <= 1 {
                proof {
                    assert(name@.take(name@.len() as int) =~= name@);
                }
                Some(name.substring_char(0, name.unicode_len()))
            } else {
                Some(name.substring_char(0, d - 1))
            }
        },
    }
}

/// The extension of `s`'s final component.
pub fn file_extension(s: &str) -> (r: Option<&str>)
    ensures
        r matches Some(t) ==> spec_file_extension(s@) == Some(t@),
        r is None ==> spec_file_extension(s@) is None,
{
    match file_name(s) {
        None => None,
        Some(name) => {
            let d = find_after_last_dot(name);
            if d <= 1 {
                None
            } else {
                Some(name.substring_char(d, name.unicode_len()))
            }
        },
    }
}

/// Whether `c` is a decimal digit.
pub open spec fn spec_is_digit(c: char) -> bool {
    '0' <= c <= '9'
}

/// The value of digit `c`.
pub open spec fn spec_digit_val(c: char) -> int {
    c as int - '0' as int
}

/// Every character of `s` is a decimal digit.
pub open spec fn spec_all_digits(s: Seq<char>) -> bool {
    forall|i: int| 0 <= i < s.len() ==> spec_is_digit(s[i])
}

/// The value of the digit string `s`.
pub open spec fn spec_digits_val(s: Seq<char>) -> int
    decreases s.len(),
{
    if s.len() == 0 {
        0
    } else {
        spec_digits_val(s.drop_last()) * 10 + spec_digit_val(s.last())
    }
}

/// The number a string denotes under Rust's unsigned decimal grammar: an
/// optional leading `+`, then at least one digit, valuing at most `max`.
pub open spec fn spec_parse_uint(s: Seq<char>, max: int) -> Option<int> {
    let body = if s.len() > 0 && s[0] == '+' {
        s.drop_first()
    } else {
        s
    };
    if body.len() == 0 || !spec_all_digits(body) {
        None
    } else if spec_digits_val(body) > max {
        None
    } else {
        Some(spec_digits_val(body))
    }
}

proof fn lemma_digits_val_bounds(s: Seq<char>)
    requires
        spec_all_digits(s),
    ensures
        spec_digits_val(s) >= 0,
    decreases s.len(),
{
    if s.len() > 0 {
        lemma_digits_val_bounds(s.drop_last());
    }
}

/// Reads a run of decimal digits, saturating at 100000 so callers can detect
/// values out of their range.
fn scan_decimal(s: &str, from: usize) -> (r: Option<u32>)
    requires
        from <= s@.len(),
    ensures
        ({
            let body = s@.subrange(from as int, s@.len() as int);
            match r {
                None => body.len() == 0 || !spec_all_digits(body),
                Some(v) => body.len() > 0 && spec_all_digits(body) && (if spec_digits_val(body)
                    <= 100000 {
                    v == spec_digits_val(body)
                } else {
                    v == 100000
                }),
            }
        }),
{
    let n = s.unicode_len();
    if from == n {
        return None;
    }
    let ghost body = s@.subrange(from as int, s@.len() as int);
    let mut val: u32 = 0;
    let mut i: usize = from;
    while i < n
        invariant
            from <= i <= n,
            n == s@.len(),
            body == s@.subrange(from as int, s@.len() as int),
            spec_all_digits(body.take(i - from)),
            val <= 100000,
            spec_digits_val(body.take(i - from)) <= 100000 ==> val == spec_digits_val(
                body.take(i - from),
            ),
            spec_digits_val(body.take(i - from)) > 100000 ==> val == 100000,
        decreases n - i,
    {
        let c = s.get_char(i);
        if c < '0' || c > '9' {
            assert(!spec_is_digit(body[i - from]));
            return None;
        }
        let d: u32 = (c as u32) - ('0' as u32);
        proof {
            assert(body.take(i + 1 - from).drop_last() =~= body.take(i - from));
            assert(body.take(i + 1 - from).last() == s@[i as int]);
            lemma_digits_val_bounds(body.take(i - from));
        }
        if val > 10000 {
            val = 100000;
        } else {
            val = val * 10 + d;
            if val > 100000 {
                val = 100000;
            }
        }
        i += 1;
    }
    proof {
        assert(body.take(n - from) =~= body);
    }
    Some(val)
}

/// Parses `s` as a `u16` under Rust's decimal grammar.
pub fn parse_u16(s: &str) -> (r: Option<u16>)
    ensures
        ({
            let p = spec_parse_uint(s@, u16::MAX as int);
            match r {
                None => p is None,
                Some(v) => p == Some(v as int),
            }
        }),
{
    let n = s.unicode_len();
    let from: usize = if n > 0 && s.get_char(0) == '+' {
        1
    } else {
        0
    };
    proof {
        if from == 1 {
            assert(s@.subrange(1, s@.len() as int) =~= s@.drop_first());
        } else {
            assert(s@.subrange(0, s@.len() as int) =~= s@);
        }
    }
    match scan_decimal(s, from) {
        None => None,
        Some(v) => if v <= u16::MAX as u32 {
            Some(v as u16)
        } else {
            None
        },
    }
}

/// Parses `s` as a `u8` under Rust's decimal grammar.
pub fn parse_u8(s: &str) -> (r: Option<u8>)
    ensures
        ({
            let p = spec_parse_uint(s@, u8::MAX as int);
            match r {
                None => p is None,
                Some(v) => p == Some(v as int),
            }
        }),
{
    let n = s.unicode_len();
    let from: usize = if n > 0 && s.get_char(0) == '+' {
        1
    } else {
        0
    };
    proof {
        if from == 1 {
            assert(s@.subrange(1, s@.len() as int) =~= s@.drop_first());
        } else {
            assert(s@.subrange(0, s@.len() as int) =~= s@);
        }
    }
    match scan_decimal(s, from) {
        None => None,
        Some(v) => if v <= u8::MAX as u32 {
            Some(v as u8)
        } else {
            None
        },
    }
}

} // verus!
