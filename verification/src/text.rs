//! Verified text-building primitives: decimal rendering of integers,
//! boolean rendering, space padding, list joining, and newline counting.

use vstd::prelude::*;

verus! {

/// The character for one decimal digit.
pub open spec fn digit_char(d: nat) -> char {
    if d == 0 {
        '0'
    } else if d == 1 {
        '1'
    } else if d == 2 {
        '2'
    } else if d == 3 {
        '3'
    } else if d == 4 {
        '4'
    } else if d == 5 {
        '5'
    } else if d == 6 {
        '6'
    } else if d == 7 {
        '7'
    } else if d == 8 {
        '8'
    } else {
        '9'
    }
}

/// Decimal rendering of a natural number, most significant digit first.
pub open spec fn dec_nat(n: nat) -> Seq<char>
    decreases n,
{
    if n < 10 {
        seq![digit_char(n)]
    } else {
        dec_nat(n / 10) + seq![digit_char(n % 10)]
    }
}

/// Decimal rendering of an integer: a leading minus sign when negative.
pub open spec fn dec_int(i: int) -> Seq<char> {
    if i >= 0 {
        dec_nat(i as nat)
    } else {
        seq!['-'] + dec_nat((-i) as nat)
    }
}

/// The rendering of a boolean.
pub open spec fn bool_text(b: bool) -> Seq<char> {
    if b {
        seq!['t', 'r', 'u', 'e']
    } else {
        seq!['f', 'a', 'l', 's', 'e']
    }
}

/// `n` spaces (none when `n <= 0`).
pub open spec fn spaces(n: int) -> Seq<char>
    decreases n,
{
    if n <= 0 {
        Seq::empty()
    } else {
        spaces(n - 1) + seq![' ']
    }
}

/// The given texts joined by the separator.
pub open spec fn joined(items: Seq<Seq<char>>, sep: Seq<char>) -> Seq<char>
    decreases items.len(),
{
    if items.len() == 0 {
        Seq::empty()
    } else if items.len() == 1 {
        items[0]
    } else {
        items[0] + sep + joined(items.drop_first(), sep)
    }
}

/// How many newline characters a text holds.
pub open spec fn newlines(s: Seq<char>) -> nat
    decreases s.len(),
{
    if s.len() == 0 {
        0
    } else {
        (if s[0] == '\n' {
            1nat
        } else {
            0nat
        }) + newlines(s.drop_first())
    }
}

/// Newline counting distributes over concatenation.
pub proof fn lemma_newlines_concat(a: Seq<char>, b: Seq<char>)
    ensures
        newlines(a + b) == newlines(a) + newlines(b),
    decreases a.len(),
{
    if a.len() == 0 {
        assert(a + b =~= b);
    } else {
        lemma_newlines_concat(a.drop_first(), b);
        assert((a + b).drop_first() =~= a.drop_first() + b);
    }
}

/// The newline count of a one-character text.
pub proof fn lemma_newlines_single(c: char)
    ensures
        newlines(seq![c]) == (if c == '\n' {
            1nat
        } else {
            0nat
        }),
{
    assert(seq![c].drop_first() =~= Seq::<char>::empty());
    assert(newlines(Seq::<char>::empty()) == 0);
}

/// A single decimal digit holds no newline.
pub proof fn lemma_newlines_dec_nat(n: nat)
    ensures
        newlines(dec_nat(n)) == 0,
    decreases n,
{
    if n < 10 {
        assert(digit_char(n) != '\n');
        lemma_newlines_single(digit_char(n));
    } else {
        lemma_newlines_dec_nat(n / 10);
        lemma_newlines_dec_nat(n % 10);
        lemma_newlines_concat(dec_nat(n / 10), seq![digit_char(n % 10)]);
    }
}

/// Padding holds no newline.
pub proof fn lemma_newlines_spaces(n: int)
    ensures
        newlines(spaces(n)) == 0,
    decreases n,
{
    if n <= 0 {
    } else {
        lemma_newlines_spaces(n - 1);
        lemma_newlines_concat(spaces(n - 1), seq![' ']);
        lemma_newlines_single(' ');
    }
}

/// One decimal digit as a string slice.
fn digit_str(d: u64) -> (s: &'static str)
    requires
        d < 10,
    ensures
        s@ == seq![digit_char(d as nat)],
{
    proof {
        reveal_strlit("0");
        reveal_strlit("1");
        reveal_strlit("2");
        reveal_strlit("3");
        reveal_strlit("4");
        reveal_strlit("5");
        reveal_strlit("6");
        reveal_strlit("7");
        reveal_strlit("8");
        reveal_strlit("9");
    }
    if d == 0 {
        "0"
    } else if d == 1 {
        "1"
    } else if d == 2 {
        "2"
    } else if d == 3 {
        "3"
    } else if d == 4 {
        "4"
    } else if d == 5 {
        "5"
    } else if d == 6 {
        "6"
    } else if d == 7 {
        "7"
    } else if d == 8 {
        "8"
    } else {
        "9"
    }
}

/// Renders an unsigned integer in decimal.
pub fn fmt_u64(v: u64) -> (s: String)
    ensures
        s@ == dec_nat(v as nat),
    decreases v,
{
    if v < 10 {
        String::from_str(digit_str(v))
    } else {
        let mut s = fmt_u64(v / 10);
        s.append(digit_str(v % 10));
        s
    }
}

/// Renders a signed integer in decimal.
pub fn fmt_i64(v: i64) -> (s: String)
    ensures
        s@ == dec_int(v as int),
{
    if v >= 0 {
        fmt_u64(v as u64)
    } else {
        let mag: u64 = if v == i64::MIN {
            9223372036854775808u64
        } else {
            (-v) as u64
        };
        assert(mag as nat == (-(v as int)) as nat);
        let mut s = String::from_str("-");
        proof {
            reveal_strlit("-");
            assert(s@ =~= seq!['-']);
        }
        let digits = fmt_u64(mag);
        s.append(digits.as_str());
        s
    }
}

/// Renders a boolean as `true` or `false`.
pub fn fmt_bool(b: bool) -> (s: String)
    ensures
        s@ == bool_text(b),
{
    if b {
        let s = String::from_str("true");
        proof {
            reveal_strlit("true");
            assert(s@ =~= bool_text(b));
        }
        s
    } else {
        let s = String::from_str("false");
        proof {
            reveal_strlit("false");
            assert(s@ =~= bool_text(b));
        }
        s
    }
}

/// The separator between joined list items: a comma and a space.
pub open spec fn comma_sep() -> Seq<char> {
    seq![',', ' ']
}

/// The views of a sequence of strings.
pub open spec fn texts_of(items: Seq<String>) -> Seq<Seq<char>> {
    items.map(|i: int, t: String| t@)
}

/// The renderings of a sequence of booleans.
pub open spec fn bool_texts(bs: Seq<bool>) -> Seq<Seq<char>> {
    bs.map(|i: int, b: bool| bool_text(b))
}

/// A bracketed, comma-separated rendering of a boolean list.
pub open spec fn bool_list_text(bs: Seq<bool>) -> Seq<char> {
    seq!['['] + joined(bool_texts(bs), comma_sep()) + seq![']']
}

/// Appending one more item extends a join by the separator and the item.
pub proof fn lemma_joined_push(items: Seq<Seq<char>>, sep: Seq<char>, x: Seq<char>)
    ensures
        joined(items.push(x), sep) == if items.len() == 0 {
            x
        } else {
            joined(items, sep) + sep + x
        },
    decreases items.len(),
{
    if items.len() == 0 {
        assert(items.push(x).len() == 1);
        assert(items.push(x)[0] == x);
    } else if items.len() == 1 {
        assert(items.push(x).drop_first() =~= seq![x]);
        assert(joined(seq![x], sep) == x);
        assert(items.push(x)[0] == items[0]);
    } else {
        lemma_joined_push(items.drop_first(), sep, x);
        assert(items.push(x).drop_first() =~= items.drop_first().push(x));
        assert(items.push(x)[0] == items[0]);
        assert((items[0] + sep + joined(items.drop_first(), sep)) + sep + x =~= items[0] + sep + (
        joined(items.drop_first(), sep) + sep + x));
    }
}

/// Joins the given strings with the separator.
pub fn join_list(items: &Vec<String>, sep: &str) -> (s: String)
    ensures
        s@ == joined(texts_of(items@), sep@),
{
    let mut s = String::new();
    let mut i: usize = 0;
    while i < items.len()
        invariant
            i <= items.len(),
            s@ == joined(texts_of(items@.subrange(0, i as int)), sep@),
        decreases items.len() - i,
    {
        if i > 0 {
            s.append(sep);
        }
        s.append(items[i].as_str());
        proof {
            let prev = texts_of(items@.subrange(0, i as int));
            lemma_joined_push(prev, sep@, items@[i as int]@);
            assert(texts_of(items@.subrange(0, i + 1 as int)) =~= prev.push(items@[i as int]@));
        }
        i = i + 1;
    }
    proof {
        assert(items@.subrange(0, items@.len() as int) =~= items@);
    }
    s
}

/// Rendering one more boolean extends the list of renderings.
pub proof fn lemma_bool_texts_push(bs: Seq<bool>, i: int)
    requires
        0 <= i < bs.len(),
    ensures
        bool_texts(bs.subrange(0, i + 1)) == bool_texts(bs.subrange(0, i)).push(bool_text(bs[i])),
{
    let a = bool_texts(bs.subrange(0, i + 1));
    let b = bool_texts(bs.subrange(0, i)).push(bool_text(bs[i]));
    assert forall|j: int| 0 <= j < a.len() implies a[j] == b[j] by {
        assert(bs.subrange(0, i + 1)[j] == bs[j]);
        if j < i {
            assert(bs.subrange(0, i)[j] == bs[j]);
        }
    }
    assert(a =~= b);
}

/// Renders a boolean list as a bracketed, comma-separated list.
pub fn fmt_bool_list(bs: &Vec<bool>) -> (s: String)
    ensures
        s@ == bool_list_text(bs@),
{
    let mut s = String::from_str("[");
    proof {
        reveal_strlit("[");
        reveal_strlit("]");
        reveal_strlit(", ");
        assert(s@ =~= seq!['[']);
        assert(", "@ =~= comma_sep());
        assert("]"@ =~= seq![']']);
    }
    let mut i: usize = 0;
    while i < bs.len()
        invariant
            i <= bs.len(),
            s@ == seq!['['] + joined(bool_texts(bs@.subrange(0, i as int)), comma_sep()),
            ", "@ == comma_sep(),
        decreases bs.len() - i,
    {
        if i > 0 {
            s.append(", ");
        }
        let t = fmt_bool(bs[i]);
        s.append(t.as_str());
        proof {
            let prev = bool_texts(bs@.subrange(0, i as int));
            lemma_joined_push(prev, comma_sep(), bool_text(bs@[i as int]));
            lemma_bool_texts_push(bs@, i as int);
            if i > 0 {
                assert(seq!['['] + joined(prev, comma_sep()) + comma_sep() + bool_text(
                    bs@[i as int],
                ) =~= seq!['['] + (joined(prev, comma_sep()) + comma_sep() + bool_text(
                    bs@[i as int],
                )));
            }
        }
        i = i + 1;
    }
    s.append("]");
    proof {
        assert(bs@.subrange(0, bs@.len() as int) =~= bs@);
        assert(s@ =~= bool_list_text(bs@));
    }
    s
}

/// The row label that starts each data line: the row number right-aligned
/// to five places between colons.
pub open spec fn row_prefix(r: nat) -> Seq<char> {
    seq![':'] + spaces(5 - dec_nat(r).len()) + dec_nat(r) + seq![':', ' ']
}

/// Renders the row label for one data line.
pub fn fmt_row_prefix(r: u64) -> (s: String)
    ensures
        s@ == row_prefix(r as nat),
{
    let digits = fmt_u64(r);
    let n: usize = digits.as_str().unicode_len();
    let pad: usize = if n < 5 {
        5 - n
    } else {
        0
    };
    let mut s = String::from_str(":");
    proof {
        reveal_strlit(":");
        reveal_strlit(" ");
        reveal_strlit(": ");
        assert(s@ =~= seq![':']);
        assert(" "@ =~= seq![' ']);
        assert(": "@ =~= seq![':', ' ']);
    }
    let mut i: usize = 0;
    while i < pad
        invariant
            i <= pad,
            s@ == seq![':'] + spaces(i as int),
            " "@ == seq![' '],
        decreases pad - i,
    {
        s.append(" ");
        proof {
            assert(seq![':'] + spaces(i as int) + seq![' '] =~= seq![':'] + (spaces(i as int)
                + seq![' ']));
        }
        i = i + 1;
    }
    proof {
        assert(spaces(pad as int) == spaces(5 - dec_nat(r as nat).len()));
    }
    s.append(digits.as_str());
    s.append(": ");
    proof {
        assert(s@ =~= row_prefix(r as nat));
    }
    s
}

/// The row label holds no newline.
pub proof fn lemma_newlines_row_prefix(r: nat)
    ensures
        newlines(row_prefix(r)) == 0,
{
    lemma_newlines_single(':');
    lemma_newlines_single(' ');
    lemma_newlines_dec_nat(r);
    lemma_newlines_spaces(5 - dec_nat(r).len());
    assert(seq![':', ' '] =~= seq![':'] + seq![' ']);
    lemma_newlines_concat(seq![':'], seq![' ']);
    lemma_newlines_concat(seq![':'], spaces(5 - dec_nat(r).len()));
    lemma_newlines_concat(seq![':'] + spaces(5 - dec_nat(r).len()), dec_nat(r));
    lemma_newlines_concat(seq![':'] + spaces(5 - dec_nat(r).len()) + dec_nat(r), seq![':', ' ']);
}

} // verus!
