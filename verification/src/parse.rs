//! Reading texts piece by piece: runs of characters of one class, fixed
//! words, and whole numbers. Each reader takes what it reads from the front
//! of a text and hands back the rest.
use vstd::prelude::*;

verus! {

/// A class of characters.
#[derive(Debug, Clone, Copy, PartialEq, Eq, Structural)]
pub enum Class {
    /// The space and the tabulator.
    Space,
    /// The ten digits.
    Digit,
    /// The letters from `a` to `z`, small or capital.
    Alpha,
    /// The digits and those letters.
    Alphanumeric,
}

/// Whether a character is a digit.
pub open spec fn is_digit(c: char) -> bool {
    '0' <= c <= '9'
}

/// Whether a character is a letter from `a` to `z`, small or capital.
pub open spec fn is_alpha(c: char) -> bool {
    ('a' <= c <= 'z') || ('A' <= c <= 'Z')
}

impl Class {
    /// Whether a character belongs to the class.
    pub open spec fn holds(self, c: char) -> bool {
        match self {
            Class::Space => c == ' ' || c == '\t',
            Class::Digit => is_digit(c),
            Class::Alpha => is_alpha(c),
            Class::Alphanumeric => is_digit(c) || is_alpha(c),
        }
    }

    /// Whether a character belongs to the class.
    pub fn has(self, c: char) -> (r: bool)
        ensures
            r == self.holds(c),
    {
        let digit = '0' <= c && c <= '9';
        let alpha = ('a' <= c && c <= 'z') || ('A' <= c && c <= 'Z');
        match self {
            Class::Space => c == ' ' || c == '\t',
            Class::Digit => digit,
            Class::Alpha => alpha,
            Class::Alphanumeric => digit || alpha,
        }
    }
}

/// How many characters at the front of a text belong to a class.
pub open spec fn run(s: Seq<char>, class: Class) -> nat
    decreases s.len(),
{
    if s.len() > 0 && class.holds(s[0]) {
        1 + run(s.drop_first(), class)
    } else {
        0
    }
}

/// Whether a text begins with a word.
pub open spec fn starts_with(s: Seq<char>, word: Seq<char>) -> bool {
    word.len() <= s.len() && s.take(word.len() as int) == word
}

/// Where a word first stands in a text: how many characters come before it,
/// or the length of the text where it stands nowhere.
pub open spec fn find(s: Seq<char>, word: Seq<char>) -> nat
    decreases s.len(),
{
    if starts_with(s, word) || s.len() == 0 {
        0
    } else {
        1 + find(s.drop_first(), word)
    }
}

/// The number that a text of digits writes.
pub open spec fn decimal(digits: Seq<char>) -> nat
    decreases digits.len(),
{
    if digits.len() == 0 {
        0
    } else {
        10 * decimal(digits.drop_last()) + (digits.last() as u32 - '0' as u32) as nat
    }
}

/// Whether all characters of a text are digits.
pub open spec fn all_digits(s: Seq<char>) -> bool {
    forall|i: int| 0 <= i < s.len() ==> is_digit(#[trigger] s[i])
}

/// The whole number that a text writes, if it writes one from `min` to
/// `max`: a `+` or a `-` may come first, at least one digit follows, and
/// nothing else.
pub open spec fn integer(s: Seq<char>, min: int, max: int) -> Option<int> {
    let signed = s.len() > 0 && (s[0] == '+' || s[0] == '-');
    let digits = if signed {
        s.drop_first()
    } else {
        s
    };
    let value = if s.len() > 0 && s[0] == '-' {
        -(decimal(digits) as int)
    } else {
        decimal(digits) as int
    };
    if digits.len() > 0 && all_digits(digits) && min <= value <= max {
        Some(value)
    } else {
        None
    }
}

/// Calls `str::parse` for an `i64`, which reads an optional sign and then
/// digits, and gives the number they write if it is an `i64`.
#[verifier::external_body]
pub(crate) fn parse_i64(s: &str) -> (r: Option<i64>)
    ensures
        match r {
            Some(n) => integer(s@, i64::MIN as int, i64::MAX as int) == Some(n as int),
            None => integer(s@, i64::MIN as int, i64::MAX as int) is None,
        },
{
    s.parse::<i64>().ok()
}

/// Reads a text as an `i8`: an optional sign and then digits, which must
/// write a number that is an `i8`.
pub fn parse_i8(s: &str) -> (r: Option<i8>)
    ensures
        match r {
            Some(n) => integer(s@, -128, 127) == Some(n as int),
            None => integer(s@, -128, 127) is None,
        },
{
    match parse_i64(s) {
        Some(n) => if -128 <= n && n <= 127 {
            Some(n as i8)
        } else {
            None
        },
        None => None,
    }
}

/// Reads a text as an `i16`: an optional sign and then digits, which must
/// write a number that is an `i16`.
pub fn parse_i16(s: &str) -> (r: Option<i16>)
    ensures
        match r {
            Some(n) => integer(s@, -32768, 32767) == Some(n as int),
            None => integer(s@, -32768, 32767) is None,
        },
{
    match parse_i64(s) {
        Some(n) => if -32768 <= n && n <= 32767 {
            Some(n as i16)
        } else {
            None
        },
        None => None,
    }
}

/// The digits at the front of a text, read as a number from `min` to `max`:
/// the rest and the number. There is none where the text begins with no
/// digit, or where its digits write a number out of that range.
pub open spec fn number(s: Seq<char>, min: int, max: int) -> Option<(Seq<char>, int)> {
    let n = run(s, Class::Digit) as int;
    if n == 0 {
        None
    } else {
        match integer(s.take(n), min, max) {
            Some(value) => Some((s.skip(n), value)),
            None => None,
        }
    }
}

/// A run goes on behind its first characters.
pub proof fn lemma_run_skip(s: Seq<char>, class: Class, i: int)
    requires
        0 <= i <= s.len(),
        forall|k: int| 0 <= k < i ==> class.holds(s[k]),
    ensures
        run(s, class) == i + run(s.skip(i), class),
        run(s, class) <= s.len(),
    decreases i,
{
    if i > 0 {
        lemma_run_skip(s.drop_first(), class, i - 1);
        assert(s.drop_first().skip(i - 1) =~= s.skip(i));
    } else {
        assert(s.skip(0) =~= s);
        lemma_run_bound(s, class);
    }
}

/// A run is not longer than the text, and every character of it belongs to
/// the class.
pub proof fn lemma_run_bound(s: Seq<char>, class: Class)
    ensures
        run(s, class) <= s.len(),
        forall|k: int| 0 <= k < run(s, class) ==> class.holds(#[trigger] s[k]),
        run(s, class) < s.len() ==> !class.holds(s[run(s, class) as int]),
    decreases s.len(),
{
    if s.len() > 0 && class.holds(s[0]) {
        let rest = s.drop_first();
        lemma_run_bound(rest, class);
        assert forall|k: int| 0 <= k < run(s, class) implies class.holds(#[trigger] s[k]) by {
            if k > 0 {
                assert(s[k] == rest[k - 1]);
            }
        }
        if run(s, class) < s.len() {
            assert(s[run(s, class) as int] == rest[run(rest, class) as int]);
        }
    }
}

/// A word is found behind the characters before it.
pub proof fn lemma_find_skip(s: Seq<char>, word: Seq<char>, i: int)
    requires
        0 <= i <= s.len(),
        forall|k: int| 0 <= k < i ==> !starts_with(#[trigger] s.skip(k), word),
    ensures
        find(s, word) == i + find(s.skip(i), word),
    decreases i,
{
    if i > 0 {
        assert(s.skip(0) =~= s);
        assert forall|k: int| 0 <= k < i - 1 implies !starts_with(
            #[trigger] s.drop_first().skip(k),
            word,
        ) by {
            assert(s.drop_first().skip(k) =~= s.skip(k + 1));
        }
        lemma_find_skip(s.drop_first(), word, i - 1);
        assert(s.drop_first().skip(i - 1) =~= s.skip(i));
    } else {
        assert(s.skip(0) =~= s);
    }
}

/// How many characters at the front of a text belong to a class.
pub fn run_of(input: &str, class: Class) -> (n: usize)
    ensures
        n == run(input@, class),
        n <= input@.len(),
{
    let len = input.unicode_len();
    let mut i: usize = 0;
    while i < len && class.has(input.get_char(i))
        invariant
            i <= len,
            len == input@.len(),
            forall|k: int| 0 <= k < i ==> class.holds(input@[k]),
        decreases len - i,
    {
        i = i + 1;
    }
    proof {
        lemma_run_skip(input@, class, i as int);
        if i < len {
            assert(input@.skip(i as int)[0] == input@[i as int]);
        }
    }
    i
}

/// Takes the characters of a class from the front of a text: the rest, and
/// what was taken, which may be nothing.
pub fn many0<'a>(input: &'a str, class: Class) -> (r: (&'a str, &'a str))
    ensures
        r.0@ == input@.skip(run(input@, class) as int),
        r.1@ == input@.take(run(input@, class) as int),
{
    let n = run_of(input, class);
    let len = input.unicode_len();
    let taken = input.substring_char(0, n);
    let rest = input.substring_char(n, len);
    assert(input@.subrange(0, n as int) =~= input@.take(n as int));
    assert(input@.subrange(n as int, len as int) =~= input@.skip(n as int));
    (rest, taken)
}

/// Takes the characters of a class from the front of a text, of which there
/// must be one at least: the rest, and what was taken.
pub fn many1<'a>(input: &'a str, class: Class) -> (r: Option<(&'a str, &'a str)>)
    ensures
        r is Some <==> run(input@, class) > 0,
        r is Some ==> r->Some_0.0@ == input@.skip(run(input@, class) as int) && r->Some_0.1@
            == input@.take(run(input@, class) as int),
{
    let (rest, taken) = many0(input, class);
    proof {
        lemma_run_bound(input@, class);
    }
    if taken.unicode_len() == 0 {
        None
    } else {
        Some((rest, taken))
    }
}

/// Takes the digits from the front of a text and reads them as an `i8`:
/// the rest and the number.
pub fn number_i8<'a>(input: &'a str) -> (r: Option<(&'a str, i8)>)
    ensures
        match r {
            Some((rest, n)) => number(input@, -128, 127) == Some((rest@, n as int)),
            None => number(input@, -128, 127) is None,
        },
{
    match many1(input, Class::Digit) {
        Some((rest, digits)) => match parse_i8(digits) {
            Some(n) => Some((rest, n)),
            None => None,
        },
        None => None,
    }
}

/// Takes the digits from the front of a text and reads them as an `i16`:
/// the rest and the number.
pub fn number_i16<'a>(input: &'a str) -> (r: Option<(&'a str, i16)>)
    ensures
        match r {
            Some((rest, n)) => number(input@, -32768, 32767) == Some((rest@, n as int)),
            None => number(input@, -32768, 32767) is None,
        },
{
    match many1(input, Class::Digit) {
        Some((rest, digits)) => match parse_i16(digits) {
            Some(n) => Some((rest, n)),
            None => None,
        },
        None => None,
    }
}

/// Takes a word from the front of a text, if the text begins with it: the
/// rest.
pub fn tag<'a>(input: &'a str, word: &str) -> (r: Option<&'a str>)
    ensures
        r is Some <==> starts_with(input@, word@),
        r is Some ==> r->Some_0@ == input@.skip(word@.len() as int),
{
    let n = word.unicode_len();
    let len = input.unicode_len();
    if n > len {
        return None;
    }
    let head = input.substring_char(0, n);
    assert(input@.subrange(0, n as int) =~= input@.take(n as int));
    if crate::text::same(head, word) {
        let rest = input.substring_char(n, len);
        assert(input@.subrange(n as int, len as int) =~= input@.skip(n as int));
        Some(rest)
    } else {
        None
    }
}

/// Takes a number of characters from the front of a text, if it has as many:
/// the rest, and what was taken.
pub fn take<'a>(input: &'a str, count: usize) -> (r: Option<(&'a str, &'a str)>)
    ensures
        r is Some <==> count <= input@.len(),
        r is Some ==> r->Some_0.0@ == input@.skip(count as int) && r->Some_0.1@ == input@.take(
            count as int,
        ),
{
    let len = input.unicode_len();
    if count > len {
        return None;
    }
    let taken = input.substring_char(0, count);
    let rest = input.substring_char(count, len);
    assert(input@.subrange(0, count as int) =~= input@.take(count as int));
    assert(input@.subrange(count as int, len as int) =~= input@.skip(count as int));
    Some((rest, taken))
}

/// Takes what comes before a word, if the word stands in the text: the rest,
/// which begins with the word, and what was taken.
pub fn take_until<'a>(input: &'a str, word: &str) -> (r: Option<(&'a str, &'a str)>)
    ensures
        r is Some <==> starts_with(input@.skip(find(input@, word@) as int), word@),
        r is Some ==> r->Some_0.0@ == input@.skip(find(input@, word@) as int) && r->Some_0.1@
            == input@.take(find(input@, word@) as int),
{
    let len = input.unicode_len();
    let mut i: usize = 0;
    while i <= len
        invariant
            i <= len,
            len == input@.len(),
            forall|k: int| 0 <= k < i ==> !starts_with(#[trigger] input@.skip(k), word@),
        decreases len - i,
    {
        let rest = input.substring_char(i, len);
        assert(input@.subrange(i as int, len as int) =~= input@.skip(i as int));
        if tag(rest, word).is_some() {
            let taken = input.substring_char(0, i);
            assert(input@.subrange(0, i as int) =~= input@.take(i as int));
            proof {
                lemma_find_skip(input@, word@, i as int);
            }
            return Some((rest, taken));
        }
        if i == len {
            proof {
                lemma_find_skip(input@, word@, i as int);
                assert(input@.skip(len as int).len() == 0);
            }
            return None;
        }
        i = i + 1;
    }
    None
}

} // verus!
