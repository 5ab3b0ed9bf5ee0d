//! Text: ASCII case folding, trailing slashes and decimal numerals.
use vstd::prelude::*;

verus! {

/// `String::push` of the standard library: the character becomes the new last
/// character, and what was there before stays as it was.
pub assume_specification[ String::push ](s: &mut String, c: char)
    ensures
        final(s)@ == old(s)@.push(c),
;

/// The lower-case counterpart of an ASCII capital, and any other character itself.
pub open spec fn ascii_lower(c: char) -> char {
    if 'A' <= c <= 'Z' {
        (c as u8 + 32) as u8 as char
    } else {
        c
    }
}

/// A text with each ASCII capital replaced by its lower-case counterpart.
pub open spec fn lowercase(s: Seq<char>) -> Seq<char> {
    s.map_values(|c: char| ascii_lower(c))
}

/// A text without the slashes it ends in.
pub open spec fn trimmed(s: Seq<char>) -> Seq<char>
    decreases s.len(),
{
    if s.len() > 0 && s.last() == '/' {
        trimmed(s.drop_last())
    } else {
        s
    }
}

/// `n` slashes.
pub open spec fn slashes(n: nat) -> Seq<char> {
    Seq::new(n, |i: int| '/')
}

/// The digit that stands for `n`, which is below ten.
pub open spec fn digit(n: nat) -> char {
    (48 + n) as u8 as char
}

/// The decimal numeral of `n`, without leading zeros.
pub open spec fn decimal(n: nat) -> Seq<char>
    decreases n,
{
    if n < 10 {
        seq![digit(n)]
    } else {
        decimal(n / 10).push(digit(n % 10))
    }
}

fn lower_char(c: char) -> (r: char)
    ensures
        r == ascii_lower(c),
{
    if 'A' <= c && c <= 'Z' {
        (c as u8 + 32) as char
    } else {
        c
    }
}

/// The name under which a user's repositories are found: the user name in lower
/// case.
pub fn canonical_namespace(value: &str) -> (r: String)
    ensures
        r@ == lowercase(value@),
        r@.len() == value@.len(),
        forall|i: int|
            0 <= i < value@.len() ==> if 'A' <= #[trigger] value@[i] <= 'Z' {
                r@[i] as int - 'a' as int == value@[i] as int - 'A' as int
            } else {
                r@[i] == value@[i]
            },
{
    let mut r = String::new();
    for c in it: value.chars()
        invariant
            it.seq() == value@,
            r@ == lowercase(value@.take(it.index() as int)),
    {
        r.push(lower_char(c));
        assert(value@.take(it.index() + 1) == value@.take(it.index() as int).push(c));
    }
    assert(value@.take(value@.len() as int) == value@);
    r
}

/// Drops every slash at the end of `s`.
pub fn trim_end_slashes(s: &str) -> (r: &str)
    ensures
        r@ == trimmed(s@),
        r@ == s@.take(r@.len() as int),
        r@.len() > 0 ==> r@.last() != '/',
        forall|i: int| r@.len() <= i < s@.len() ==> #[trigger] s@[i] == '/',
{
    proof {
        law_trimming_takes_only_slashes(s@);
    }
    let mut n: usize = s.unicode_len();
    assert(s@.take(n as int) == s@);
    while n > 0 && s.get_char(n - 1) == '/'
        invariant
            n <= s@.len(),
            trimmed(s@.take(n as int)) == trimmed(s@),
        decreases n,
    {
        assert(s@.take(n as int).drop_last() == s@.take(n - 1));
        n = n - 1;
    }
    s.substring_char(0, n)
}

/// The decimal numeral of a port number.
pub fn port_numeral(port: u16) -> (r: String)
    ensures
        r@ == decimal(port as nat),
        numeral_value(r@) == port,
    decreases port,
{
    proof {
        law_numerals_read_back(port as nat);
    }
    if port < 10 {
        let mut r = String::new();
        r.push((48 + port as u8) as char);
        assert(r@ == seq![digit(port as nat)]);
        r
    } else {
        let mut r = port_numeral(port / 10);
        r.push((48 + (port % 10) as u8) as char);
        r
    }
}

/// One text behind the other.
pub fn join(a: &str, b: &str) -> (r: String)
    ensures
        r@ == a@ + b@,
{
    let mut r = a.to_owned();
    r.append(b);
    r
}

/// Folding a canonical name again leaves it as it is.
pub proof fn law_lowercase_is_idempotent(s: Seq<char>)
    ensures
        lowercase(lowercase(s)) == lowercase(s),
{
}

/// A canonical name has no ASCII capital.
pub proof fn law_lowercase_has_no_capital(s: Seq<char>, i: int)
    requires
        0 <= i < s.len(),
    ensures
        !('A' <= lowercase(s)[i] <= 'Z'),
{
}

/// Whether two characters are equal up to the case of ASCII letters.
pub open spec fn same_letter(c: char, d: char) -> bool {
    c == d || ascii_lower(c) == d || c == ascii_lower(d)
}

/// Two names have one canonical name exactly when they differ in nothing but the
/// case of ASCII letters.
pub proof fn law_lowercase_merges_case_only(a: Seq<char>, b: Seq<char>)
    ensures
        lowercase(a) == lowercase(b) <==> {
            &&& a.len() == b.len()
            &&& forall|i: int| 0 <= i < a.len() ==> #[trigger] same_letter(a[i], b[i])
        },
{
    if lowercase(a) == lowercase(b) {
        assert(lowercase(a).len() == a.len() && lowercase(b).len() == b.len());
        assert forall|i: int| 0 <= i < a.len() implies #[trigger] same_letter(a[i], b[i]) by {
            assert(lowercase(a)[i] == ascii_lower(a[i]));
            assert(lowercase(b)[i] == ascii_lower(b[i]));
        }
    }
    if a.len() == b.len() && (forall|i: int|
        0 <= i < a.len() ==> #[trigger] same_letter(a[i], b[i])) {
        assert forall|i: int| 0 <= i < a.len() implies lowercase(a)[i] == lowercase(b)[i] by {
            assert(same_letter(a[i], b[i]));
        }
        assert(lowercase(a) == lowercase(b));
    }
}

/// Slashes at the end of a text make no difference to what trimming leaves.
pub proof fn law_trimming_ignores_trailing_slashes(s: Seq<char>, n: nat)
    ensures
        trimmed(s + slashes(n)) == trimmed(s),
    decreases n,
{
    if n == 0 {
        assert(s + slashes(n) == s);
    } else {
        law_trimming_ignores_trailing_slashes(s, (n - 1) as nat);
        assert((s + slashes(n)).drop_last() == s + slashes((n - 1) as nat));
    }
}

/// What trimming leaves does not end in a slash, and only slashes are missing from
/// it.
pub proof fn law_trimming_drops_all_slashes(s: Seq<char>)
    ensures
        trimmed(s).len() <= s.len(),
        trimmed(s) + slashes((s.len() - trimmed(s).len()) as nat) == s,
        trimmed(s).len() > 0 ==> trimmed(s).last() != '/',
    decreases s.len(),
{
    if s.len() > 0 && s.last() == '/' {
        let shorter = s.drop_last();
        let dropped = (shorter.len() - trimmed(shorter).len()) as nat;
        law_trimming_drops_all_slashes(shorter);
        assert(trimmed(s) + slashes(dropped + 1) == (trimmed(shorter) + slashes(dropped)).push(
            '/',
        ));
        assert(shorter.push('/') == s);
    }
}

/// Folding replaces each ASCII capital by the letter of the same place in the small
/// alphabet, and leaves every other character where and as it is.
pub proof fn law_lowercase_goes_letter_by_letter(s: Seq<char>, i: int)
    requires
        0 <= i < s.len(),
    ensures
        lowercase(s).len() == s.len(),
        'A' <= s[i] <= 'Z' ==> lowercase(s)[i] as int - 'a' as int == s[i] as int - 'A' as int,
        !('A' <= s[i] <= 'Z') ==> lowercase(s)[i] == s[i],
{
}

/// What trimming leaves is the beginning of the text, behind which there were only
/// slashes; a text that does not end in a slash is left as it is.
pub proof fn law_trimming_takes_only_slashes(s: Seq<char>)
    ensures
        trimmed(s).len() <= s.len(),
        trimmed(s) == s.take(trimmed(s).len() as int),
        trimmed(s).len() > 0 ==> trimmed(s).last() != '/',
        forall|i: int| trimmed(s).len() <= i < s.len() ==> #[trigger] s[i] == '/',
        s.len() == 0 || s.last() != '/' ==> trimmed(s) == s,
    decreases s.len(),
{
    if s.len() > 0 && s.last() == '/' {
        let shorter = s.drop_last();
        law_trimming_takes_only_slashes(shorter);
        let kept = trimmed(shorter).len() as int;
        assert(shorter.take(kept) == s.take(kept));
        assert forall|i: int| trimmed(s).len() <= i < s.len() implies #[trigger] s[i] == '/' by {
            if i < shorter.len() {
                assert(shorter[i] == s[i]);
            }
        }
    } else {
        assert(s.take(s.len() as int) == s);
    }
}

/// The number that a text of decimal digits stands for.
pub open spec fn numeral_value(s: Seq<char>) -> int
    decreases s.len(),
{
    if s.len() == 0 {
        0
    } else {
        10 * numeral_value(s.drop_last()) + (s.last() as int - '0' as int)
    }
}

/// Reading the numeral of a number gives the number back. A numeral has only digits, at
/// least one, and starts with a zero for the number zero alone.
pub proof fn law_numerals_read_back(n: nat)
    ensures
        numeral_value(decimal(n)) == n,
        decimal(n).len() > 0,
        forall|i: int| 0 <= i < decimal(n).len() ==> '0' <= #[trigger] decimal(n)[i] <= '9',
        decimal(n)[0] == '0' ==> n == 0 && decimal(n).len() == 1,
    decreases n,
{
    if n < 10 {
        assert(decimal(n).drop_last() == Seq::<char>::empty());
        assert(numeral_value(Seq::<char>::empty()) == 0);
    } else {
        law_numerals_read_back(n / 10);
        assert(decimal(n).drop_last() == decimal(n / 10));
        assert(decimal(n)[0] == decimal(n / 10)[0]);
    }
}

/// Two numbers never share a numeral.
pub proof fn law_numerals_tell_numbers_apart(a: nat, b: nat)
    requires
        decimal(a) == decimal(b),
    ensures
        a == b,
{
    law_numerals_read_back(a);
    law_numerals_read_back(b);
}

} // verus!
