//! Text rendering shared by the library: decimal digits, whitespace and the
//! `TextValue` trait through which values become message or field text.
use vstd::prelude::*;

use vstd::string::StrSliceExecFns;

verus! {

broadcast use vstd::string::group_string_axioms;

/// Appends one character with `String::push`.
#[verifier::external_body]
pub(crate) fn push_char(s: &mut String, c: char)
    ensures
        final(s)@ == old(s)@.push(c),
{
    s.push(c);
}

/// Appends a string slice with `String::push_str`.
#[verifier::external_body]
pub(crate) fn push_str(s: &mut String, t: &str)
    ensures
        final(s)@ == old(s)@ + t@,
{
    s.push_str(t);
}

/// An empty `String`, from `String::new`.
pub(crate) fn empty_string() -> (s: String)
    ensures
        s@ == Seq::<char>::empty(),
{
    String::new()
}

/// A copy of a string slice as an owned `String`.
pub(crate) fn owned(t: &str) -> (s: String)
    ensures
        s@ == t@,
{
    t.to_string()
}

/// The ASCII character of decimal digit `d` (`d < 10`).
pub open spec fn digit_char(d: nat) -> char {
    if d == 0 { '0' }
    else if d == 1 { '1' }
    else if d == 2 { '2' }
    else if d == 3 { '3' }
    else if d == 4 { '4' }
    else if d == 5 { '5' }
    else if d == 6 { '6' }
    else if d == 7 { '7' }
    else if d == 8 { '8' }
    else { '9' }
}

/// The digit value of an ASCII decimal character.
pub open spec fn char_digit(c: char) -> nat {
    ((c as u32) - 48) as nat
}

pub open spec fn is_digit_char(c: char) -> bool {
    '0' <= c && c <= '9'
}

/// Shortest decimal representation of `n`, as `Display` writes it.
pub open spec fn decimal(n: nat) -> Seq<char>
    decreases n,
{
    if n < 10 {
        seq![digit_char(n)]
    } else {
        decimal(n / 10).push(digit_char(n % 10))
    }
}

/// The last `width` decimal digits of `n`, zero-padded on the left.
pub open spec fn fixed_digits(n: nat, width: nat) -> Seq<char>
    decreases width,
{
    if width == 0 {
        Seq::<char>::empty()
    } else {
        fixed_digits(n / 10, (width - 1) as nat).push(digit_char(n % 10))
    }
}

/// The number that a sequence of decimal digits denotes.
pub open spec fn digits_value(s: Seq<char>) -> nat
    decreases s.len(),
{
    if s.len() == 0 {
        0
    } else {
        digits_value(s.drop_last()) * 10 + char_digit(s.last())
    }
}

/// Decimal text of a signed integer: a minus sign before negative values.
pub open spec fn signed_decimal(n: int) -> Seq<char> {
    if n < 0 {
        seq!['-'] + decimal((-n) as nat)
    } else {
        decimal(n as nat)
    }
}

/// Unicode `White_Space` characters: those that `char::is_whitespace`
/// accepts and that `str::trim` removes.
pub open spec fn is_white_space(c: char) -> bool {
    let v = c as u32;
    ||| 0x9 <= v && v <= 0xD
    ||| v == 0x20
    ||| v == 0x85
    ||| v == 0xA0
    ||| v == 0x1680
    ||| 0x2000 <= v && v <= 0x200A
    ||| v == 0x2028
    ||| v == 0x2029
    ||| v == 0x202F
    ||| v == 0x205F
    ||| v == 0x3000
}

/// A text is blank when it is empty or holds only whitespace, that is when
/// `trim()` leaves nothing of it.
pub open spec fn is_blank(s: Seq<char>) -> bool {
    forall|i: int| 0 <= i < s.len() ==> #[trigger] is_white_space(s[i])
}

proof fn lemma_digit_char(d: nat)
    requires
        d < 10,
    ensures
        is_digit_char(digit_char(d)),
        char_digit(digit_char(d)) == d,
{
}

/// Every rendered fixed-width number consists of `width` digits whose value is
/// the number modulo `10^width`.
pub proof fn lemma_fixed_digits(n: nat, width: nat)
    ensures
        fixed_digits(n, width).len() == width,
        forall|i: int| 0 <= i < width ==> is_digit_char(#[trigger] fixed_digits(n, width)[i]),
        digits_value(fixed_digits(n, width)) == n % pow10(width),
    decreases width,
{
    if width > 0 {
        let w1 = (width - 1) as nat;
        lemma_fixed_digits(n / 10, w1);
        lemma_digit_char(n % 10);
        let s = fixed_digits(n, width);
        assert(s.drop_last() =~= fixed_digits(n / 10, w1));
        lemma_pow10_pos(w1);
        lemma_mod_shift(n, pow10(w1));
    }
}

/// The decimal text of a number is its shortest digit string: only digits,
/// no leading zero except for zero itself, and reading it back gives the number.
pub proof fn law_decimal_roundtrip(n: nat)
    ensures
        decimal(n).len() >= 1,
        forall|i: int| 0 <= i < decimal(n).len() ==> is_digit_char(#[trigger] decimal(n)[i]),
        decimal(n)[0] != '0' || n == 0,
        digits_value(decimal(n)) == n,
    decreases n,
{
    let s = decimal(n);
    if n < 10 {
        lemma_digit_char(n);
        assert(s.drop_last() =~= Seq::<char>::empty());
        assert(digits_value(s.drop_last()) == 0);
        assert(s.last() == digit_char(n));
        assert(digits_value(s) == digits_value(s.drop_last()) * 10 + char_digit(s.last()));
    } else {
        law_decimal_roundtrip(n / 10);
        lemma_digit_char(n % 10);
        assert(s.drop_last() =~= decimal(n / 10));
        assert(s.last() == digit_char(n % 10));
        assert(s[0] == decimal(n / 10)[0]);
        assert(digits_value(s) == digits_value(s.drop_last()) * 10 + char_digit(s.last()));
        vstd::arithmetic::div_mod::lemma_fundamental_div_mod(n as int, 10);
    }
}

/// Ten to the power `k`.
pub open spec fn pow10(k: nat) -> nat
    decreases k,
{
    if k == 0 { 1 } else { 10 * pow10((k - 1) as nat) }
}

pub proof fn lemma_pow10_pos(k: nat)
    ensures
        pow10(k) >= 1,
    decreases k,
{
    if k > 0 {
        lemma_pow10_pos((k - 1) as nat);
    }
}

/// `(n / 10 mod p) * 10 + n mod 10 == n mod (10 p)`.
proof fn lemma_mod_shift(n: nat, p: nat)
    requires
        p >= 1,
    ensures
        ((n / 10) % p) * 10 + n % 10 == n % (10 * p),
{
    let q = n / 10;
    let r = n % 10;
    vstd::arithmetic::div_mod::lemma_fundamental_div_mod(n as int, 10);
    let qq = q / p;
    let qr = q % p;
    vstd::arithmetic::div_mod::lemma_fundamental_div_mod(q as int, p as int);
    vstd::arithmetic::div_mod::lemma_mod_pos_bound(q as int, p as int);
    assert(n == qq * (10 * p) + (qr * 10 + r)) by (nonlinear_arith)
        requires n == 10 * q + r, q == p * qq + qr;
    assert(0 <= qr * 10 + r < 10 * p) by (nonlinear_arith)
        requires 0 <= qr < p, 0 <= r < 10;
    vstd::arithmetic::div_mod::lemma_fundamental_div_mod_converse(
        n as int, (10 * p) as int, qq as int, (qr * 10 + r) as int);
}

fn digit(d: u64) -> (c: char)
    requires
        d < 10,
    ensures
        c == digit_char(d as nat),
{
    if d == 0 { '0' }
    else if d == 1 { '1' }
    else if d == 2 { '2' }
    else if d == 3 { '3' }
    else if d == 4 { '4' }
    else if d == 5 { '5' }
    else if d == 6 { '6' }
    else if d == 7 { '7' }
    else if d == 8 { '8' }
    else { '9' }
}

/// Appends the shortest decimal text of `n`.
pub fn push_decimal(s: &mut String, n: u64)
    ensures
        final(s)@ == old(s)@ + decimal(n as nat),
    decreases n,
{
    if n >= 10 {
        push_decimal(s, n / 10);
    }
    push_char(s, digit(n % 10));
    assert(final(s)@ =~= old(s)@ + decimal(n as nat)) by {
        if n >= 10 {
            assert(decimal(n as nat) == decimal((n / 10) as nat).push(digit_char((n % 10) as nat)));
        } else {
            assert(decimal(n as nat) == seq![digit_char(n as nat)]);
        }
    }
}

/// Appends the last `width` digits of `n`, zero-padded.
pub fn push_fixed_digits(s: &mut String, n: u64, width: u32)
    ensures
        final(s)@ == old(s)@ + fixed_digits(n as nat, width as nat),
    decreases width,
{
    if width > 0 {
        push_fixed_digits(s, n / 10, width - 1);
        push_char(s, digit(n % 10));
        assert(final(s)@ =~= old(s)@ + fixed_digits(n as nat, width as nat));
    } else {
        assert(final(s)@ =~= old(s)@ + fixed_digits(n as nat, width as nat));
    }
}

/// Appends the decimal text of a signed integer.
pub fn push_signed_decimal(s: &mut String, n: i64)
    ensures
        final(s)@ == old(s)@ + signed_decimal(n as int),
{
    if n < 0 {
        push_char(s, '-');
        let magnitude: u64 = if n == i64::MIN { 0x8000_0000_0000_0000u64 } else { (-n) as u64 };
        push_decimal(s, magnitude);
        assert(final(s)@ =~= old(s)@ + signed_decimal(n as int));
    } else {
        push_decimal(s, n as u64);
    }
}

/// Decides whether a character is Unicode whitespace.
pub fn is_white_space_char(c: char) -> (b: bool)
    ensures
        b == is_white_space(c),
{
    let v = c as u32;
    (0x9 <= v && v <= 0xD) || v == 0x20 || v == 0x85 || v == 0xA0 || v == 0x1680 || (0x2000 <= v
        && v <= 0x200A) || v == 0x2028 || v == 0x2029 || v == 0x202F || v == 0x205F || v == 0x3000
}

/// Decides whether a text is empty or all whitespace (`t.trim().is_empty()`).
pub fn is_blank_str(t: &str) -> (b: bool)
    ensures
        b == is_blank(t@),
{
    let n = t.unicode_len();
    let mut i: usize = 0;
    while i < n
        invariant
            n == t@.len(),
            i <= n,
            forall|j: int| 0 <= j < i ==> #[trigger] is_white_space(t@[j]),
        decreases n - i,
    {
        let c = t.get_char(i);
        if !is_white_space_char(c) {
            return false;
        }
        i = i + 1;
    }
    true
}

/// Values that render as text, as `ToString` renders them.
pub trait TextValue {
    /// The text of the value.
    spec fn text(&self) -> Seq<char>;

    /// Renders the value into a new `String`.
    fn render(&self) -> (s: String)
        ensures
            s@ == self.text(),
    ;
}

impl<'a> TextValue for &'a str {
    open spec fn text(&self) -> Seq<char> {
        (*self)@
    }

    fn render(&self) -> (s: String) {
        owned(*self)
    }
}

impl TextValue for String {
    open spec fn text(&self) -> Seq<char> {
        self@
    }

    fn render(&self) -> (s: String) {
        self.clone()
    }
}

impl TextValue for u64 {
    open spec fn text(&self) -> Seq<char> {
        decimal(*self as nat)
    }

    fn render(&self) -> (s: String) {
        let mut s = empty_string();
        push_decimal(&mut s, *self);
        assert(s@ =~= decimal(*self as nat));
        s
    }
}

impl TextValue for u32 {
    open spec fn text(&self) -> Seq<char> {
        decimal(*self as nat)
    }

    fn render(&self) -> (s: String) {
        (*self as u64).render()
    }
}

impl TextValue for u16 {
    open spec fn text(&self) -> Seq<char> {
        decimal(*self as nat)
    }

    fn render(&self) -> (s: String) {
        (*self as u64).render()
    }
}

impl TextValue for u8 {
    open spec fn text(&self) -> Seq<char> {
        decimal(*self as nat)
    }

    fn render(&self) -> (s: String) {
        (*self as u64).render()
    }
}

impl TextValue for usize {
    open spec fn text(&self) -> Seq<char> {
        decimal(*self as nat)
    }

    fn render(&self) -> (s: String) {
        (*self as u64).render()
    }
}

impl TextValue for i64 {
    open spec fn text(&self) -> Seq<char> {
        signed_decimal(*self as int)
    }

    fn render(&self) -> (s: String) {
        let mut s = empty_string();
        push_signed_decimal(&mut s, *self);
        assert(s@ =~= signed_decimal(*self as int));
        s
    }
}

impl TextValue for i32 {
    open spec fn text(&self) -> Seq<char> {
        signed_decimal(*self as int)
    }

    fn render(&self) -> (s: String) {
        (*self as i64).render()
    }
}

impl TextValue for bool {
    open spec fn text(&self) -> Seq<char> {
        if *self { "true"@ } else { "false"@ }
    }

    fn render(&self) -> (s: String) {
        if *self { owned("true") } else { owned("false") }
    }
}

} // verus!
