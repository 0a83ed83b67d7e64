use vstd::prelude::*;

verus! {

/// Whether std's `char::is_numeric` holds of a character (Unicode general
/// categories Nd, Nl and No).
pub uninterp spec fn numeric_char(c: char) -> bool;

/// The text that std's `str::to_lowercase` gives for a text.
pub uninterp spec fn lowercase_text(s: Seq<char>) -> Seq<char>;

/// Calls `char::is_numeric`. Claims that the answer is `numeric_char(c)`,
/// and that an ASCII character is numeric exactly when it is one of
/// `'0'..='9'` (std answers `'0'..='9'` directly and looks other
/// characters above `'\x7f'` up in the Unicode number categories).
#[verifier::external_body]
pub(crate) fn is_numeric(c: char) -> (b: bool)
    ensures
        b == numeric_char(c),
        c <= '\x7f' ==> (b <==> ('0' <= c && c <= '9')),
{
    c.is_numeric()
}

/// Whether every character of a text is ASCII.
pub open spec fn is_ascii_text(s: Seq<char>) -> bool {
    forall|i: int| 0 <= i < s.len() ==> #[trigger] s[i] <= '\x7f'
}

/// The ASCII lower-case form of a character: `'A'..='Z'` become
/// `'a'..='z'`, every other character stays.
pub open spec fn ascii_lower(c: char) -> char {
    if 'A' <= c && c <= 'Z' {
        ((c as u32) + 32) as char
    } else {
        c
    }
}

/// The lower-case form of a text as `str::to_lowercase` gives it: spelled
/// out for all-ASCII texts, left to `lowercase_text` otherwise.
pub open spec fn lowered_text(s: Seq<char>) -> Seq<char> {
    if is_ascii_text(s) {
        s.map_values(|c: char| ascii_lower(c))
    } else {
        lowercase_text(s)
    }
}

/// Calls `str::to_lowercase`. Claims that the result is `lowercase_text`
/// of the argument, and that for an all-ASCII text it is that text with
/// `'A'..='Z'` turned into `'a'..='z'` (the Unicode lower-case mapping
/// for ASCII, which std applies character by character); what the text is
/// for other arguments is left to the name.
#[verifier::external_body]
pub(crate) fn to_lowercase(s: &str) -> (r: String)
    ensures
        r@ == lowercase_text(s@),
        is_ascii_text(s@) ==> r@ == s@.map_values(|c: char| ascii_lower(c)),
{
    s.to_lowercase()
}

/// Calls `String::push`. Claims that the character is appended at the end.
#[verifier::external_body]
pub(crate) fn push_char(s: &mut String, c: char)
    ensures
        final(s)@ == old(s)@.push(c),
{
    s.push(c)
}

/// The decimal digit character of a number below ten.
pub open spec fn digit_char(d: nat) -> char {
    if d == 0 { '0' }
    else if d == 1 { '1' }
    else if d == 2 { '2' }
    else if d == 3 { '3' }
    else if d == 4 { '4' }
    else if d == 5 { '5' }
    else if d == 6 { '6' }
    else if d == 7 { '7' }
    else if d == 8 { '8' }
    else { '9' }
}

/// The decimal text of a natural number, without leading zeros.
pub open spec fn decimal_text(n: nat) -> Seq<char>
    decreases n,
{
    if n < 10 {
        seq![digit_char(n)]
    } else {
        decimal_text(n / 10).push(digit_char(n % 10))
    }
}

fn digit_of(d: u32) -> (c: char)
    requires
        d < 10,
    ensures
        c == digit_char(d as nat),
{
    if d == 0 { '0' }
    else if d == 1 { '1' }
    else if d == 2 { '2' }
    else if d == 3 { '3' }
    else if d == 4 { '4' }
    else if d == 5 { '5' }
    else if d == 6 { '6' }
    else if d == 7 { '7' }
    else if d == 8 { '8' }
    else { '9' }
}

/// Appends the decimal text of `n`, as `u32`'s `Display` writes it.
pub fn push_decimal(s: &mut String, n: u32)
    ensures
        final(s)@ == old(s)@ + decimal_text(n as nat),
        decimal_value(final(s)@.subrange(old(s)@.len() as int, final(s)@.len() as int)) == n,
    decreases n,
{
    let ghost before = s@;
    if n >= 10 {
        push_decimal(s, n / 10);
    }
    push_char(s, digit_of(n % 10));
    assert(s@ =~= before + decimal_text(n as nat));
    proof {
        lemma_decimal_text_denotes(n as nat);
        assert(s@.subrange(before.len() as int, s@.len() as int) =~= decimal_text(n as nat));
    }
}

/// The number a text of decimal digits denotes, read in base ten.
pub open spec fn decimal_value(s: Seq<char>) -> nat
    decreases s.len(),
{
    if s.len() == 0 {
        0
    } else {
        decimal_value(s.drop_last()) * 10 + ((s.last() as nat) - ('0' as nat)) as nat
    }
}

/// Law of digits: the digit character of `d` is the one whose code is
/// `'0'` plus `d`.
pub proof fn lemma_digit_char_code(d: nat)
    requires
        d < 10,
    ensures
        digit_char(d) as nat == '0' as nat + d,
{
}

/// Law of decimal text: it consists of the characters `'0'..='9'` and,
/// read back in base ten, denotes the number it was made from.
pub proof fn lemma_decimal_text_denotes(n: nat)
    ensures
        decimal_value(decimal_text(n)) == n,
        forall|i: int|
            0 <= i < decimal_text(n).len() ==> '0' <= #[trigger] decimal_text(n)[i] && decimal_text(n)[i]
                <= '9',
    decreases n,
{
    if n < 10 {
        lemma_digit_char_code(n);
        let s = decimal_text(n);
        assert(s.drop_last() =~= Seq::<char>::empty());
        assert(decimal_value(s.drop_last()) == 0);
        assert(s.last() == digit_char(n));
        assert(decimal_value(s) == ((digit_char(n) as nat) - ('0' as nat)) as nat);
    } else {
        lemma_decimal_text_denotes(n / 10);
        lemma_digit_char_code(n % 10);
        let s = decimal_text(n);
        let prev = decimal_text(n / 10);
        assert(s.drop_last() =~= prev);
        assert(n == (n / 10) * 10 + n % 10) by (nonlinear_arith);
        assert(s.last() == digit_char(n % 10));
        assert(decimal_value(s) == decimal_value(prev) * 10 + n % 10);
        assert forall|i: int| 0 <= i < s.len() implies '0' <= #[trigger] s[i] && s[i] <= '9' by {
            if i < prev.len() {
                assert(s[i] == prev[i]);
            }
        }
    }
}

} // verus!
