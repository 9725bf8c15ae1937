//! Version strings: finding a dotted version inside free text, reading it as four
//! numbers, and comparing two of them.
use vstd::prelude::*;
use std::cmp::Ordering;
use crate::text::{chars_of, is_digit, split_on, string_of};

verus! {

// ---------------------------------------------------------------------------
// Model
// ---------------------------------------------------------------------------

/// The characters taken from `s` starting at `i`: digits, and each dot that
/// directly follows a digit; the first other character ends the run.
pub open spec fn run_from(s: Seq<char>, i: int, after_digit: bool) -> Seq<char>
    decreases s.len() - i,
{
    if i < 0 || i >= s.len() {
        Seq::empty()
    } else if is_digit(s[i]) {
        seq![s[i]] + run_from(s, i + 1, true)
    } else if s[i] == '.' && after_digit {
        seq!['.'] + run_from(s, i + 1, false)
    } else {
        Seq::empty()
    }
}

/// `c` without its trailing dots.
pub open spec fn strip_dots(c: Seq<char>) -> Seq<char>
    decreases c.len(),
{
    if c.len() > 0 && c.last() == '.' {
        strip_dots(c.drop_last())
    } else {
        c
    }
}

/// The version candidate that starts at position `i` of `s`.
pub open spec fn candidate_at(s: Seq<char>, i: int) -> Seq<char> {
    strip_dots(run_from(s, i, false))
}

/// The first candidate, at a digit at position `i` or later, that holds a dot.
pub open spec fn normalize_from(s: Seq<char>, i: int) -> Option<Seq<char>>
    decreases s.len() - i,
{
    if i < 0 || i >= s.len() {
        None
    } else if is_digit(s[i]) && candidate_at(s, i).contains('.') {
        Some(candidate_at(s, i))
    } else {
        normalize_from(s, i + 1)
    }
}

/// The dotted version found in a text, if any.
pub open spec fn normalized(s: Seq<char>) -> Option<Seq<char>> {
    normalize_from(s, 0)
}

/// The pieces of `s` between dots: `str::split('.')`.
pub open spec fn split_dots(s: Seq<char>) -> Seq<Seq<char>> {
    split_on(s, '.')
}

/// The number that a string of decimal digits spells.
pub open spec fn digits_value(p: Seq<char>) -> nat
    decreases p.len(),
{
    if p.len() == 0 {
        0
    } else {
        digits_value(p.drop_last()) * 10 + ((p.last() as int) - ('0' as int)) as nat
    }
}

/// Every character of `p` is a decimal digit.
pub open spec fn all_digits(p: Seq<char>) -> bool {
    forall|j: int| 0 <= j < p.len() ==> is_digit(#[trigger] p[j])
}

/// What `str::parse::<u32>` gives on a text of digits and dots: the number, when
/// the text is a non-empty run of digits whose value fits in 32 bits.
pub open spec fn parse_u32_spec(p: Seq<char>) -> Option<u32> {
    if p.len() > 0 && all_digits(p) && digits_value(p) <= u32::MAX {
        Some(digits_value(p) as u32)
    } else {
        None
    }
}

/// The four numbers of a version whose pieces are `parts`: the first four pieces
/// are read, missing ones are zero, and one that does not read spoils the whole.
pub open spec fn parts_value(parts: Seq<Seq<char>>) -> Option<Seq<u32>> {
    let k = if parts.len() < 4 { parts.len() as int } else { 4 };
    if forall|j: int| 0 <= j < k ==> (#[trigger] parse_u32_spec(parts[j])) is Some {
        Some(Seq::new(4, |j: int| if j < k { parse_u32_spec(parts[j])->Some_0 } else { 0u32 }))
    } else {
        None
    }
}

/// The four numbers of the version found in a text.
pub open spec fn version_of(s: Seq<char>) -> Option<Seq<u32>> {
    match normalized(s) {
        Some(n) => parts_value(split_dots(n)),
        None => None,
    }
}

/// Lexicographic order of two four-number versions.
pub open spec fn order_of(a: Seq<u32>, b: Seq<u32>) -> Ordering {
    if a[0] != b[0] {
        if a[0] < b[0] { Ordering::Less } else { Ordering::Greater }
    } else if a[1] != b[1] {
        if a[1] < b[1] { Ordering::Less } else { Ordering::Greater }
    } else if a[2] != b[2] {
        if a[2] < b[2] { Ordering::Less } else { Ordering::Greater }
    } else if a[3] != b[3] {
        if a[3] < b[3] { Ordering::Less } else { Ordering::Greater }
    } else {
        Ordering::Equal
    }
}

/// The comparison of two optional version texts: known only when both are
/// present and both hold a readable version.
pub open spec fn compared(left: Option<Seq<char>>, right: Option<Seq<char>>) -> Option<Ordering> {
    match (left, right) {
        (Some(l), Some(r)) => match (version_of(l), version_of(r)) {
            (Some(a), Some(b)) => Some(order_of(a, b)),
            _ => None,
        },
        _ => None,
    }
}

/// The opposite of an ordering.
pub open spec fn flipped(o: Ordering) -> Ordering {
    match o {
        Ordering::Less => Ordering::Greater,
        Ordering::Equal => Ordering::Equal,
        Ordering::Greater => Ordering::Less,
    }
}

// ---------------------------------------------------------------------------
// Code
// ---------------------------------------------------------------------------

/// A version read as four numbers.
#[derive(Clone, Copy, Debug, PartialEq, Eq, PartialOrd, Ord)]
pub struct VersionParts(pub [u32; 4]);

impl VersionParts {
    /// The four numbers.
    pub open spec fn numbers(&self) -> Seq<u32> {
        self.0@
    }

    /// Lexicographic comparison of the four numbers (what `Ord` gives).
    pub fn compare(&self, other: &VersionParts) -> (o: Ordering)
        ensures
            o == order_of(self.numbers(), other.numbers()),
    {
        let a = &self.0;
        let b = &other.0;
        if a[0] != b[0] {
            if a[0] < b[0] { Ordering::Less } else { Ordering::Greater }
        } else if a[1] != b[1] {
            if a[1] < b[1] { Ordering::Less } else { Ordering::Greater }
        } else if a[2] != b[2] {
            if a[2] < b[2] { Ordering::Less } else { Ordering::Greater }
        } else if a[3] != b[3] {
            if a[3] < b[3] { Ordering::Less } else { Ordering::Greater }
        } else {
            Ordering::Equal
        }
    }
}

/// Compares the versions in two optional texts; `None` when either is missing or
/// holds no readable version.
pub fn compare_versions(left: Option<&str>, right: Option<&str>) -> (o: Option<Ordering>)
    ensures
        o == compared(
            match left { Some(l) => Some(l@), None => None },
            match right { Some(r) => Some(r@), None => None },
        ),
{
    let l = match left {
        Some(l) => l,
        None => return None,
    };
    let r = match right {
        Some(r) => r,
        None => return None,
    };
    let a = match parse_version(l) {
        Some(a) => a,
        None => return None,
    };
    let b = match parse_version(r) {
        Some(b) => b,
        None => return None,
    };
    Some(a.compare(&b))
}

/// Collects the run that starts at `start` (a digit), without trailing dots.
fn candidate_chars(s: &Vec<char>, start: usize) -> (c: Vec<char>)
    requires
        start < s.len(),
    ensures
        c@ == candidate_at(s@, start as int),
{
    let mut c: Vec<char> = Vec::new();
    let mut j: usize = start;
    let mut after_digit = false;
    let mut done = false;
    while j < s.len() && !done
        invariant
            start <= j <= s.len(),
            run_from(s@, start as int, false) == c@ + run_from(s@, j as int, after_digit),
            done ==> run_from(s@, j as int, after_digit) == Seq::<char>::empty(),
        decreases s.len() - j + if done { 0int } else { 1int },
    {
        let ch = s[j];
        if '0' <= ch && ch <= '9' {
            assert(run_from(s@, j as int, after_digit) == seq![ch] + run_from(s@, j + 1, true));
            c.push(ch);
            after_digit = true;
            proof {
                assert(c@ + run_from(s@, j + 1, true) =~= (c@.drop_last() + seq![ch]) + run_from(
                    s@,
                    j + 1,
                    true,
                ));
            }
        } else if ch == '.' && after_digit {
            assert(run_from(s@, j as int, after_digit) == seq!['.'] + run_from(s@, j + 1, false));
            c.push(ch);
            after_digit = false;
            proof {
                assert(c@ + run_from(s@, j + 1, false) =~= (c@.drop_last() + seq!['.'])
                    + run_from(s@, j + 1, false));
            }
        } else {
            assert(run_from(s@, j as int, after_digit) == Seq::<char>::empty());
            done = true;
        }
        if !done {
            j = j + 1;
        }
    }
    assert(run_from(s@, j as int, after_digit) == Seq::<char>::empty());
    assert(c@ + Seq::<char>::empty() =~= c@);
    while c.len() > 0 && c[c.len() - 1] == '.'
        invariant
            strip_dots(run_from(s@, start as int, false)) == strip_dots(c@),
        decreases c.len(),
    {
        c.pop();
    }
    c
}

/// Whether `c` holds a dot.
fn has_dot(c: &Vec<char>) -> (b: bool)
    ensures
        b == c@.contains('.'),
{
    let mut i: usize = 0;
    while i < c.len()
        invariant
            i <= c.len(),
            forall|j: int| 0 <= j < i ==> c@[j] != '.',
        decreases c.len() - i,
    {
        if c[i] == '.' {
            assert(c@[i as int] == '.');
            return true;
        }
        i = i + 1;
    }
    false
}

/// The characters of the dotted version found in `s`.
fn normalized_chars(s: &Vec<char>) -> (r: Option<Vec<char>>)
    ensures
        match r {
            Some(v) => normalized(s@) == Some(v@),
            None => normalized(s@) is None,
        },
{
    let mut start: usize = 0;
    while start < s.len()
        invariant
            start <= s.len(),
            normalized(s@) == normalize_from(s@, start as int),
        decreases s.len() - start,
    {
        let ch = s[start];
        if '0' <= ch && ch <= '9' {
            let c = candidate_chars(s, start);
            if has_dot(&c) {
                return Some(c);
            }
        }
        start = start + 1;
    }
    None
}

/// Finds the first dotted version in a text: the first digit from which digits
/// and single dots run on and include a dot, trailing dots dropped.
pub fn normalize_version_string(value: &str) -> (r: Option<String>)
    ensures
        match r {
            Some(v) => normalized(value@) == Some(v@),
            None => normalized(value@) is None,
        },
{
    let s = chars_of(value);
    match normalized_chars(&s) {
        Some(c) => Some(string_of(&c)),
        None => None,
    }
}

proof fn lemma_split_nonempty(s: Seq<char>)
    ensures
        split_dots(s).len() >= 1,
    decreases s.len(),
{
    if s.len() > 0 {
        lemma_split_nonempty(s.drop_last());
    }
}

proof fn lemma_digits_value_push(p: Seq<char>, c: char)
    requires
        is_digit(c),
    ensures
        digits_value(p.push(c)) == digits_value(p) * 10 + ((c as int) - ('0' as int)),
        digits_value(p.push(c)) >= digits_value(p),
{
    assert(p.push(c).drop_last() =~= p);
}

proof fn lemma_all_digits_push(p: Seq<char>, c: char)
    ensures
        all_digits(p.push(c)) == (all_digits(p) && is_digit(c)),
{
    if all_digits(p.push(c)) {
        assert forall|j: int| 0 <= j < p.len() implies is_digit(#[trigger] p[j]) by {
            assert(p.push(c)[j] == p[j]);
        }
        assert(p.push(c)[p.len() as int] == c);
    }
}

/// What is known of the piece being read: whether it is empty, whether it holds a
/// non-digit, whether its value exceeds 32 bits, and its value otherwise.
struct PieceReader {
    empty: bool,
    bad: bool,
    too_big: bool,
    value: u64,
}

impl PieceReader {
    spec fn reads(&self, cur: Seq<char>) -> bool {
        &&& self.empty == (cur.len() == 0)
        &&& self.bad == !all_digits(cur)
        &&& !self.bad ==> (self.too_big == (digits_value(cur) > u32::MAX))
        &&& (!self.bad && !self.too_big) ==> self.value == digits_value(cur)
    }

    fn fresh() -> (r: PieceReader)
        ensures
            r.reads(Seq::empty()),
    {
        PieceReader { empty: true, bad: false, too_big: false, value: 0 }
    }

    fn take(&mut self, ch: char, Ghost(cur): Ghost<Seq<char>>)
        requires
            old(self).reads(cur),
        ensures
            final(self).reads(cur.push(ch)),
    {
        proof {
            lemma_all_digits_push(cur, ch);
        }
        self.empty = false;
        if '0' <= ch && ch <= '9' {
            proof {
                lemma_digits_value_push(cur, ch);
            }
            if !self.bad && !self.too_big {
                let d: u64 = (ch as u32 - '0' as u32) as u64;
                let nv: u64 = self.value * 10 + d;
                if nv > 0xffff_ffff {
                    self.too_big = true;
                } else {
                    self.value = nv;
                }
            }
        } else {
            self.bad = true;
        }
    }

    fn result(&self, Ghost(cur): Ghost<Seq<char>>) -> (r: Option<u32>)
        requires
            self.reads(cur),
        ensures
            r == parse_u32_spec(cur),
    {
        if self.empty || self.bad || self.too_big {
            None
        } else {
            Some(self.value as u32)
        }
    }
}

proof fn lemma_split_step(s: Seq<char>, c: char)
    ensures
        split_dots(s).len() >= 1,
        c == '.' ==> split_dots(s.push(c)) == split_dots(s).push(Seq::empty()),
        c != '.' ==> split_dots(s.push(c)) == split_dots(s).update(
            split_dots(s).len() - 1,
            split_dots(s).last().push(c),
        ),
{
    lemma_split_nonempty(s);
    assert(s.push(c).drop_last() =~= s);
}

/// Reads a version text into its four numbers, as `parts_value` of its pieces.
fn read_parts(n: &Vec<char>) -> (r: Option<[u32; 4]>)
    ensures
        match r {
            Some(a) => parts_value(split_dots(n@)) == Some(a@),
            None => parts_value(split_dots(n@)) is None,
        },
{
    let mut out: [u32; 4] = [0u32, 0u32, 0u32, 0u32];
    let mut k: usize = 0;
    let mut failed = false;
    let ghost mut cur: Seq<char> = Seq::empty();
    let mut rd = PieceReader::fresh();
    let mut i: usize = 0;
    proof {
        assert(n@.take(0) =~= Seq::<char>::empty());
    }
    while i < n.len()
        invariant
            i <= n.len(),
            k <= i,
            split_dots(n@.take(i as int)).len() == k + 1,
            split_dots(n@.take(i as int))[k as int] == cur,
            rd.reads(cur),
            failed == exists|j: int|
                0 <= j < k && j < 4 && (#[trigger] parse_u32_spec(
                    split_dots(n@.take(i as int))[j],
                )) is None,
            !failed ==> forall|j: int|
                0 <= j < k && j < 4 ==> #[trigger] parse_u32_spec(
                    split_dots(n@.take(i as int))[j],
                ) == Some(out@[j]),
            forall|j: int| k <= j < 4 ==> out@[j] == 0,
        decreases n.len() - i,
    {
        let ch = n[i];
        let ghost before = split_dots(n@.take(i as int));
        proof {
            lemma_split_step(n@.take(i as int), ch);
            assert(n@.take(i + 1) =~= n@.take(i as int).push(ch));
        }
        if ch == '.' {
            let got = rd.result(Ghost(cur));
            if k < 4 {
                match got {
                    Some(v) => {
                        out[k] = v;
                    },
                    None => {
                        failed = true;
                    },
                }
            }
            proof {
                let after = split_dots(n@.take(i + 1));
                assert(after == before.push(Seq::empty()));
                assert forall|j: int| 0 <= j < k + 1 implies after[j] == before[j] by {}
                if !failed {
                    assert forall|j: int| 0 <= j < k + 1 && j < 4 implies #[trigger] parse_u32_spec(
                        after[j],
                    ) == Some(out@[j]) by {
                        if j < k {
                            assert(after[j] == before[j]);
                        }
                    }
                }
                if failed {
                    if k < 4 && got is None {
                        assert(parse_u32_spec(after[k as int]) is None);
                    } else {
                        let w = choose|j: int|
                            0 <= j < k && j < 4 && (#[trigger] parse_u32_spec(before[j])) is None;
                        assert(after[w] == before[w]);
                    }
                } else {
                    assert forall|j: int| 0 <= j < k + 1 && j < 4 implies (#[trigger] parse_u32_spec(
                        after[j],
                    )) is Some by {
                        if j < k {
                            assert(after[j] == before[j]);
                        }
                    }
                }
            }
            k = k + 1;
            rd = PieceReader::fresh();
            proof {
                cur = Seq::empty();
            }
        } else {
            rd.take(ch, Ghost(cur));
            proof {
                let after = split_dots(n@.take(i + 1));
                assert(after == before.update(k as int, cur.push(ch)));
                assert forall|j: int| 0 <= j < k implies after[j] == before[j] by {}
                if failed {
                    let w = choose|j: int|
                        0 <= j < k && j < 4 && (#[trigger] parse_u32_spec(before[j])) is None;
                    assert(after[w] == before[w]);
                }
                cur = cur.push(ch);
            }
        }
        i = i + 1;
    }
    proof {
        assert(n@.take(n.len() as int) =~= n@);
    }
    if failed {
        return None;
    }
    if k < 4 {
        match rd.result(Ghost(cur)) {
            Some(v) => {
                out[k] = v;
            },
            None => {
                return None;
            },
        }
    }
    proof {
        let parts = split_dots(n@);
        let kk = if parts.len() < 4 { parts.len() as int } else { 4 };
        assert forall|j: int| 0 <= j < kk implies (#[trigger] parse_u32_spec(parts[j])) is Some by {}
        assert(Seq::new(4, |j: int| if j < kk { parse_u32_spec(parts[j])->Some_0 } else { 0u32 })
            =~= out@);
    }
    Some(out)
}

/// Reads the version found in a text as four numbers; `None` when the text holds
/// no dotted version or one of its first four pieces does not fit in 32 bits.
pub fn parse_version(value: &str) -> (r: Option<VersionParts>)
    ensures
        match r {
            Some(p) => version_of(value@) == Some(p.numbers()),
            None => version_of(value@) is None,
        },
{
    let s = chars_of(value);
    let n = match normalized_chars(&s) {
        Some(n) => n,
        None => return None,
    };
    match read_parts(&n) {
        Some(a) => Some(VersionParts(a)),
        None => None,
    }
}

// ---------------------------------------------------------------------------
// Laws
// ---------------------------------------------------------------------------

/// The shape of a found version: it starts and ends with a digit, and every dot
/// in it follows a digit.
pub open spec fn well_formed_version(n: Seq<char>) -> bool {
    &&& n.len() > 0
    &&& is_digit(n[0])
    &&& is_digit(n.last())
    &&& forall|j: int|
        0 <= j < n.len() ==> is_digit(#[trigger] n[j]) || (n[j] == '.' && j > 0 && is_digit(
            n[j - 1],
        ))
}

spec fn dots_follow_digits(r: Seq<char>) -> bool {
    forall|j: int|
        0 < j < r.len() ==> is_digit(#[trigger] r[j]) || (r[j] == '.' && is_digit(r[j - 1]))
}

proof fn lemma_run_shape(s: Seq<char>, i: int, ad: bool)
    ensures
        ({
            let r = run_from(s, i, ad);
            &&& dots_follow_digits(r)
            &&& r.len() > 0 ==> (is_digit(r[0]) || (r[0] == '.' && ad))
            &&& forall|j: int| 0 <= j < r.len() ==> is_digit(#[trigger] r[j]) || r[j] == '.'
        }),
    decreases s.len() - i,
{
    if i < 0 || i >= s.len() {
    } else if is_digit(s[i]) {
        lemma_run_shape(s, i + 1, true);
        let t = run_from(s, i + 1, true);
        let r = seq![s[i]] + t;
        assert forall|j: int| 0 < j < r.len() implies is_digit(#[trigger] r[j]) || (r[j] == '.'
            && is_digit(r[j - 1])) by {
            assert(r[j] == t[j - 1]);
            if j >= 2 {
                assert(r[j - 1] == t[j - 2]);
            }
        }
        assert forall|j: int| 0 <= j < r.len() implies is_digit(#[trigger] r[j]) || r[j] == '.' by {
            if j > 0 {
                assert(r[j] == t[j - 1]);
            }
        }
    } else if s[i] == '.' && ad {
        lemma_run_shape(s, i + 1, false);
        let t = run_from(s, i + 1, false);
        let r = seq!['.'] + t;
        assert forall|j: int| 0 < j < r.len() implies is_digit(#[trigger] r[j]) || (r[j] == '.'
            && is_digit(r[j - 1])) by {
            assert(r[j] == t[j - 1]);
            if j >= 2 {
                assert(r[j - 1] == t[j - 2]);
            }
        }
        assert forall|j: int| 0 <= j < r.len() implies is_digit(#[trigger] r[j]) || r[j] == '.' by {
            if j > 0 {
                assert(r[j] == t[j - 1]);
            }
        }
    }
}

proof fn lemma_strip_shape(c: Seq<char>)
    requires
        c.len() > 0,
        is_digit(c[0]),
        dots_follow_digits(c),
        forall|j: int| 0 <= j < c.len() ==> is_digit(#[trigger] c[j]) || c[j] == '.',
    ensures
        well_formed_version(strip_dots(c)),
    decreases c.len(),
{
    if c.last() == '.' {
        let d = c.drop_last();
        assert(c.len() > 1);
        assert forall|j: int| 0 < j < d.len() implies is_digit(#[trigger] d[j]) || (d[j] == '.'
            && is_digit(d[j - 1])) by {
            assert(d[j] == c[j]);
            assert(d[j - 1] == c[j - 1]);
        }
        assert forall|j: int| 0 <= j < d.len() implies is_digit(#[trigger] d[j]) || d[j] == '.' by {
            assert(d[j] == c[j]);
        }
        lemma_strip_shape(d);
    } else {
        assert(is_digit(c.last()));
    }
}

proof fn lemma_run_of_well_formed(n: Seq<char>, i: int)
    requires
        well_formed_version(n),
        0 <= i <= n.len(),
    ensures
        run_from(n, i, i > 0 && is_digit(n[i - 1])) == n.skip(i),
    decreases n.len() - i,
{
    if i < n.len() {
        lemma_run_of_well_formed(n, i + 1);
        assert(n.skip(i) =~= seq![n[i]] + n.skip(i + 1));
    } else {
        assert(n.skip(i) =~= Seq::<char>::empty());
    }
}

proof fn lemma_found_shape(s: Seq<char>, i: int)
    ensures
        normalize_from(s, i) matches Some(n) ==> well_formed_version(n) && n.contains('.'),
    decreases s.len() - i,
{
    if i < 0 || i >= s.len() {
    } else if is_digit(s[i]) && candidate_at(s, i).contains('.') {
        lemma_run_shape(s, i, false);
        let r = run_from(s, i, false);
        assert(r == seq![s[i]] + run_from(s, i + 1, true));
        assert(r[0] == s[i]);
        lemma_strip_shape(r);
    } else {
        lemma_found_shape(s, i + 1);
    }
}

/// A found version has the shape of one: digits and single dots, a digit at
/// each end, and at least one dot.
pub proof fn lemma_normalized_shape(s: Seq<char>)
    ensures
        normalized(s) matches Some(n) ==> well_formed_version(n) && n.contains('.'),
{
    lemma_found_shape(s, 0);
}

/// Finding the version in a found version gives it back unchanged.
pub proof fn lemma_normalize_idempotent(s: Seq<char>)
    ensures
        normalized(s) matches Some(n) ==> normalized(n) == Some(n),
        normalized(s) matches Some(n) ==> version_of(n) == version_of(s),
{
    lemma_found_shape(s, 0);
    if let Some(n) = normalized(s) {
        lemma_run_of_well_formed(n, 0);
        assert(n.skip(0) =~= n);
        assert(strip_dots(n) == n);
        assert(candidate_at(n, 0) == n);
    }
}

/// Comparing the other way round gives the opposite answer.
pub proof fn lemma_compare_antisymmetric(left: Option<Seq<char>>, right: Option<Seq<char>>)
    ensures
        compared(left, right) == match compared(right, left) {
            Some(o) => Some(flipped(o)),
            None => None,
        },
{
}

/// A readable version compares equal to itself.
pub proof fn lemma_compare_reflexive(v: Seq<char>)
    requires
        version_of(v) is Some,
    ensures
        compared(Some(v), Some(v)) == Some(Ordering::Equal),
{
}

/// Comparison is transitive: older than an older version is older still.
pub proof fn lemma_compare_transitive(a: Seq<char>, b: Seq<char>, c: Seq<char>)
    requires
        compared(Some(a), Some(b)) == Some(Ordering::Less),
        compared(Some(b), Some(c)) == Some(Ordering::Less),
    ensures
        compared(Some(a), Some(c)) == Some(Ordering::Less),
{
}

/// Two texts that hold the same version compare equal.
pub proof fn lemma_compare_equal_versions(a: Seq<char>, b: Seq<char>)
    requires
        version_of(a) is Some,
        version_of(a) == version_of(b),
    ensures
        compared(Some(a), Some(b)) == Some(Ordering::Equal),
{
}

} // verus!
