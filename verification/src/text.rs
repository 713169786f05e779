//! Text helpers shared by the store: decimal rendering of counters, the
//! name split used by the third-generation migration, and quoting of strings
//! for log lines.

use vstd::prelude::*;
use vstd::string::*;

verus! {

/// The decimal digit for `d`, for `0 <= d < 10`.
pub open spec fn digit_char(d: int) -> char {
    if d == 0 {
        '0'
    } else if d == 1 {
        '1'
    } else if d == 2 {
        '2'
    } else if d == 3 {
        '3'
    } else if d == 4 {
        '4'
    } else if d == 5 {
        '5'
    } else if d == 6 {
        '6'
    } else if d == 7 {
        '7'
    } else if d == 8 {
        '8'
    } else {
        '9'
    }
}

/// The value of a decimal digit, or `-1` for any other character.
pub open spec fn digit_value(c: char) -> int {
    if c == '0' {
        0
    } else if c == '1' {
        1
    } else if c == '2' {
        2
    } else if c == '3' {
        3
    } else if c == '4' {
        4
    } else if c == '5' {
        5
    } else if c == '6' {
        6
    } else if c == '7' {
        7
    } else if c == '8' {
        8
    } else if c == '9' {
        9
    } else {
        -1
    }
}

/// The shortest decimal numeral of `n`: no leading zero, `"0"` for zero.
pub open spec fn decimal(n: nat) -> Seq<char>
    decreases n,
{
    if n < 10 {
        seq![digit_char(n as int)]
    } else {
        decimal(n / 10).push(digit_char((n % 10) as int))
    }
}

/// The number that a string of decimal digits denotes.
pub open spec fn decimal_value(s: Seq<char>) -> int
    decreases s.len(),
{
    if s.len() == 0 {
        0
    } else {
        decimal_value(s.drop_last()) * 10 + digit_value(s.last())
    }
}

/// A numeral is never empty, holds digits only, and denotes its number.
pub proof fn lemma_decimal_shape(n: nat)
    ensures
        decimal(n).len() >= 1,
        forall|i: int| 0 <= i < decimal(n).len() ==> digit_value(#[trigger] decimal(n)[i]) >= 0,
        decimal_value(decimal(n)) == n,
    decreases n,
{
    if n < 10 {
        let s = decimal(n);
        assert(s.drop_last() =~= Seq::<char>::empty());
        assert(decimal_value(s.drop_last()) == 0);
    } else {
        lemma_decimal_shape(n / 10);
        let s = decimal(n);
        assert(s.drop_last() =~= decimal(n / 10));
    }
}

/// Two numbers with the same numeral are the same number.
pub proof fn lemma_decimal_injective(a: nat, b: nat)
    requires
        decimal(a) == decimal(b),
    ensures
        a == b,
{
    lemma_decimal_shape(a);
    lemma_decimal_shape(b);
}

/// Two numerals joined by a dash determine both numbers: a numeral holds no
/// dash, so the first dash marks where the first numeral ends.
pub proof fn lemma_dashed_numerals_injective(a: nat, b: nat, c: nat, d: nat)
    requires
        decimal(a) + seq!['-'] + decimal(b) == decimal(c) + seq!['-'] + decimal(d),
    ensures
        a == c,
        b == d,
{
    lemma_decimal_shape(a);
    lemma_decimal_shape(b);
    lemma_decimal_shape(c);
    lemma_decimal_shape(d);
    let left = decimal(a) + seq!['-'] + decimal(b);
    let right = decimal(c) + seq!['-'] + decimal(d);
    let m = decimal(a).len() as int;
    let n = decimal(c).len() as int;
    assert(left[m] == '-');
    assert(right[n] == '-');
    if m < n {
        assert(right[m] == decimal(c)[m]);
        assert(digit_value(decimal(c)[m]) >= 0);
    } else if n < m {
        assert(left[n] == decimal(a)[n]);
        assert(digit_value(decimal(a)[n]) >= 0);
    }
    assert(m == n);
    assert(decimal(a) =~= left.subrange(0, m));
    assert(decimal(c) =~= right.subrange(0, n));
    assert(decimal(b) =~= left.subrange(m + 1, left.len() as int));
    assert(decimal(d) =~= right.subrange(n + 1, right.len() as int));
    lemma_decimal_injective(a, c);
    lemma_decimal_injective(b, d);
}

/// The digit `d` as a string of one character.
fn digit_str(d: u64) -> (s: &'static str)
    requires
        d < 10,
    ensures
        s@ == seq![digit_char(d as int)],
{
    proof {
        reveal_strlit("0");
        reveal_strlit("1");
        reveal_strlit("2");
        reveal_strlit("3");
        reveal_strlit("4");
        reveal_strlit("5");
        reveal_strlit("6");
        reveal_strlit("7");
        reveal_strlit("8");
        reveal_strlit("9");
    }
    let s = if d == 0 {
        "0"
    } else if d == 1 {
        "1"
    } else if d == 2 {
        "2"
    } else if d == 3 {
        "3"
    } else if d == 4 {
        "4"
    } else if d == 5 {
        "5"
    } else if d == 6 {
        "6"
    } else if d == 7 {
        "7"
    } else if d == 8 {
        "8"
    } else {
        "9"
    };
    assert(s@ =~= seq![digit_char(d as int)]);
    s
}

/// Appends the decimal numeral of `n` to `out`.
pub fn append_decimal(out: &mut String, n: u64)
    ensures
        final(out)@ == old(out)@ + decimal(n as nat),
    decreases n,
{
    if n >= 10 {
        append_decimal(out, n / 10);
    }
    out.append(digit_str(n % 10));
    proof {
        if n >= 10 {
            assert(old(out)@ + decimal((n / 10) as nat) + seq![digit_char((n % 10) as int)]
                =~= old(out)@ + decimal(n as nat));
        }
    }
}

/// The position of the first space in `s`, or `s.len()` where it has none.
pub open spec fn first_space(s: Seq<char>) -> int
    decreases s.len(),
{
    if s.len() == 0 || s[0] == ' ' {
        0
    } else {
        1 + first_space(s.drop_first())
    }
}

/// What stands before the first space: all of `s` where it has none.
pub open spec fn first_component(s: Seq<char>) -> Seq<char> {
    s.subrange(0, first_space(s))
}

/// What stands behind the first space: nothing where `s` has none.
pub open spec fn last_component(s: Seq<char>) -> Seq<char> {
    if first_space(s) < s.len() {
        s.subrange(first_space(s) + 1, s.len() as int)
    } else {
        Seq::empty()
    }
}

/// `first_space` is the least index that holds a space, bounded by the length.
pub proof fn lemma_first_space(s: Seq<char>)
    ensures
        0 <= first_space(s) <= s.len(),
        forall|j: int| 0 <= j < first_space(s) ==> s[j] != ' ',
        first_space(s) < s.len() ==> s[first_space(s)] == ' ',
    decreases s.len(),
{
    if s.len() == 0 || s[0] == ' ' {
    } else {
        let t = s.drop_first();
        lemma_first_space(t);
        assert forall|j: int| 0 <= j < first_space(s) implies s[j] != ' ' by {
            if j > 0 {
                assert(s[j] == t[j - 1]);
            }
        }
        if first_space(s) < s.len() {
            assert(t[first_space(t)] == s[first_space(s)]);
        }
    }
}

/// An index with no space before it, and a space or the end at it, is `first_space`.
pub proof fn lemma_first_space_is(s: Seq<char>, k: int)
    requires
        0 <= k <= s.len(),
        forall|j: int| 0 <= j < k ==> s[j] != ' ',
        k < s.len() ==> s[k] == ' ',
    ensures
        first_space(s) == k,
{
    lemma_first_space(s);
    let f = first_space(s);
    if f < k {
        assert(s[f] != ' ');
    } else if k < f {
        assert(s[k] != ' ');
    }
}

/// The split loses nothing: a name without a space is its own first
/// component and has an empty last one; any other name is its first
/// component, a space, and its last component. The first component holds no
/// space.
pub proof fn law_split_name(name: Seq<char>)
    ensures
        forall|j: int| 0 <= j < first_component(name).len() ==> first_component(name)[j] != ' ',
        !name.contains(' ') ==> first_component(name) == name && last_component(name)
            == Seq::<char>::empty(),
        name.contains(' ') ==> name == first_component(name) + seq![' '] + last_component(name),
{
    lemma_first_space(name);
    let k = first_space(name);
    if name.contains(' ') {
        let i = choose|i: int| 0 <= i < name.len() && name[i] == ' ';
        assert(k <= i);
        assert(name =~= first_component(name) + seq![' '] + last_component(name));
    } else {
        if k < name.len() {
            assert(name[k] == ' ');
        }
        assert(first_component(name) =~= name);
    }
}

/// Splits `name` at its first space into what stands before and behind it.
pub fn split_name(name: &str) -> (parts: (String, String))
    ensures
        parts.0@ == first_component(name@),
        parts.1@ == last_component(name@),
{
    let n = name.unicode_len();
    let mut i: usize = 0;
    let mut found = false;
    while i < n && !found
        invariant
            n == name@.len(),
            i <= n,
            forall|j: int| 0 <= j < i ==> name@[j] != ' ',
            found ==> i < n && name@[i as int] == ' ',
        decreases n - i + if found { 0int } else { 1int },
    {
        if name.get_char(i) == ' ' {
            found = true;
        } else {
            i = i + 1;
        }
    }
    proof {
        lemma_first_space_is(name@, i as int);
    }
    let first = name.substring_char(0, i).to_owned();
    let last = if i < n {
        name.substring_char(i + 1, n).to_owned()
    } else {
        String::new()
    };
    (first, last)
}

/// What the `Debug` formatting of `str` prints for `s`: the text between
/// double quotes, with the characters that need it escaped.
pub uninterp spec fn debug_quoted(s: Seq<char>) -> Seq<char>;

/// Formats `s` with std's `Debug` for `str` (`{:?}`). The result depends on the
/// characters of `s` alone; it is named, not spelled out.
#[verifier::external_body]
pub(crate) fn quote(s: &str) -> (out: String)
    ensures
        out@ == debug_quoted(s@),
{
    format!("{:?}", s)
}

} // verus!
