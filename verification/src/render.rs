//! Shared helpers for rendering IR nodes to canonical SQL text: decimal
//! formatting of integers, comma-joined lists, and single-quote escaping.

use vstd::prelude::*;
use vstd::string::StringExecFns;
use vstd::string::StrSliceExecFns;

verus! {

/// The decimal digit character for a value below ten.
pub open spec fn dec_digit(d: nat) -> char {
    if d == 0 {
        '0'
    } else if d == 1 {
        '1'
    } else if d == 2 {
        '2'
    } else if d == 3 {
        '3'
    } else if d == 4 {
        '4'
    } else if d == 5 {
        '5'
    } else if d == 6 {
        '6'
    } else if d == 7 {
        '7'
    } else if d == 8 {
        '8'
    } else {
        '9'
    }
}

/// The canonical decimal spelling of a natural number, most significant
/// digit first, with no leading zeros (except for zero itself).
pub open spec fn dec_nat(n: nat) -> Seq<char>
    decreases n,
{
    if n < 10 {
        seq![dec_digit(n)]
    } else {
        dec_nat(n / 10).push(dec_digit(n % 10))
    }
}

/// The canonical decimal spelling of an integer: a leading `-` for
/// negative values, then the decimal spelling of the magnitude.
pub open spec fn dec_int(n: int) -> Seq<char> {
    if n < 0 {
        seq!['-'] + dec_nat((-n) as nat)
    } else {
        dec_nat(n as nat)
    }
}

fn digit_str(d: u64) -> (r: &'static str)
    requires
        d < 10,
    ensures
        r@ == seq![dec_digit(d as nat)],
{
    let s: &'static str = match d {
        0 => "0",
        1 => "1",
        2 => "2",
        3 => "3",
        4 => "4",
        5 => "5",
        6 => "6",
        7 => "7",
        8 => "8",
        _ => "9",
    };
    proof {
        reveal_strlit("0");
        reveal_strlit("1");
        reveal_strlit("2");
        reveal_strlit("3");
        reveal_strlit("4");
        reveal_strlit("5");
        reveal_strlit("6");
        reveal_strlit("7");
        reveal_strlit("8");
        reveal_strlit("9");
        assert(s@ =~= seq![dec_digit(d as nat)]);
    }
    s
}

/// Renders an unsigned integer in decimal.
pub fn u64_to_string(n: u64) -> (r: String)
    ensures
        r@ == dec_nat(n as nat),
    decreases n,
{
    if n < 10 {
        digit_str(n).to_owned()
    } else {
        assert(n / 10 < n) by (nonlinear_arith)
            requires
                n >= 10,
        ;
        let mut s = u64_to_string(n / 10);
        s.append(digit_str(n % 10));
        proof {
            assert(s@ =~= dec_nat(n as nat));
        }
        s
    }
}

/// Renders a signed integer in decimal, with a leading `-` when negative.
pub fn i64_to_string(n: i64) -> (r: String)
    ensures
        r@ == dec_int(n as int),
{
    if n >= 0 {
        u64_to_string(n as u64)
    } else {
        let mag: u64 = (-(n as i128)) as u64;
        let mut s = "-".to_owned();
        let digits = u64_to_string(mag);
        s.append(digits.as_str());
        proof {
            reveal_strlit("-");
            assert(s@ =~= dec_int(n as int));
        }
        s
    }
}

/// Renders a signed 32-bit integer in decimal.
pub fn i32_to_string(n: i32) -> (r: String)
    ensures
        r@ == dec_int(n as int),
{
    i64_to_string(n as i64)
}

/// The first `i` of the given pieces joined with `", "`.
pub open spec fn comma_join_upto(items: Seq<Seq<char>>, i: int) -> Seq<char>
    decreases i,
{
    if i <= 0 {
        Seq::<char>::empty()
    } else if i == 1 {
        items[0]
    } else {
        comma_join_upto(items, i - 1) + ", "@ + items[i - 1]
    }
}

/// All the given pieces joined with `", "`; the empty list renders as the
/// empty string.
pub open spec fn comma_join(items: Seq<Seq<char>>) -> Seq<char> {
    comma_join_upto(items, items.len() as int)
}

/// A node of the statement IR that has a canonical SQL text form.
pub trait SqlText {
    /// The canonical SQL text of this node.
    spec fn sql_view(&self) -> Seq<char>;

    /// Renders this node to its canonical SQL text.
    fn to_sql_string(&self) -> (r: String)
        ensures
            r@ == self.sql_view(),
    ;
}

/// Renders every element of `v` and joins the results with `", "`.
pub fn join_comma_separated<T: SqlText>(v: &Vec<T>) -> (r: String)
    ensures
        r@ == comma_join(v@.map_values(|t: T| t.sql_view())),
{
    let ghost items = v@.map_values(|t: T| t.sql_view());
    let mut out = String::new();
    let mut j: usize = 0;
    while j < v.len()
        invariant
            j <= v.len(),
            items == v@.map_values(|t: T| t.sql_view()),
            out@ == comma_join_upto(items, j as int),
        decreases v.len() - j,
    {
        if j > 0 {
            out.append(", ");
        }
        let piece = v[j].to_sql_string();
        out.append(piece.as_str());
        proof {
            assert(out@ =~= comma_join_upto(items, j as int + 1));
        }
        j += 1;
    }
    out
}

/// Every `'` in the input doubled, as SQL string syntax requires.
pub open spec fn escape_quotes(s: Seq<char>) -> Seq<char>
    decreases s.len(),
{
    if s.len() == 0 {
        s
    } else if s[0] == '\'' {
        seq!['\'', '\''] + escape_quotes(s.skip(1))
    } else {
        seq![s[0]] + escape_quotes(s.skip(1))
    }
}

pub proof fn lemma_escape_quotes_concat(a: Seq<char>, b: Seq<char>)
    ensures
        escape_quotes(a + b) == escape_quotes(a) + escape_quotes(b),
    decreases a.len(),
{
    if a.len() == 0 {
        assert(a + b =~= b);
        assert(escape_quotes(a) + escape_quotes(b) =~= escape_quotes(b));
    } else {
        lemma_escape_quotes_concat(a.skip(1), b);
        assert((a + b).skip(1) =~= a.skip(1) + b);
        if a[0] == '\'' {
            assert(escape_quotes(a + b) =~= escape_quotes(a) + escape_quotes(b));
        } else {
            assert(escape_quotes(a + b) =~= escape_quotes(a) + escape_quotes(b));
        }
    }
}

pub proof fn lemma_escape_quotes_clean(s: Seq<char>)
    requires
        forall|k: int| 0 <= k < s.len() ==> s[k] != '\'',
    ensures
        escape_quotes(s) == s,
    decreases s.len(),
{
    if s.len() > 0 {
        lemma_escape_quotes_clean(s.skip(1));
        assert(escape_quotes(s) =~= s);
    }
}

/// Doubles every single quote in the input string.
pub fn escape_single_quote_string(s: &str) -> (r: String)
    ensures
        r@ == escape_quotes(s@),
{
    let n = s.unicode_len();
    let mut out = String::new();
    let mut start: usize = 0;
    let mut i: usize = 0;
    while i < n
        invariant
            start <= i <= n,
            n == s@.len(),
            out@ == escape_quotes(s@.subrange(0, start as int)),
            forall|k: int| start <= k < i ==> s@[k] != '\'',
        decreases n - i,
    {
        let c = s.get_char(i);
        if c == '\'' {
            let piece = s.substring_char(start, i);
            out.append(piece);
            out.append("''");
            proof {
                reveal_strlit("''");
                let pre = s@.subrange(0, start as int);
                let run = s@.subrange(start as int, i as int);
                let quote = s@.subrange(i as int, i as int + 1);
                lemma_escape_quotes_clean(run);
                lemma_escape_quotes_concat(pre, run);
                assert(pre + run =~= s@.subrange(0, i as int));
                lemma_escape_quotes_concat(s@.subrange(0, i as int), quote);
                assert(s@.subrange(0, i as int) + quote =~= s@.subrange(0, i as int + 1));
                assert(quote[0] == '\'');
                assert(quote.skip(1).len() == 0);
                assert(escape_quotes(quote.skip(1)) =~= Seq::<char>::empty());
                assert(escape_quotes(quote) =~= seq!['\'', '\'']);
                assert(out@ =~= escape_quotes(s@.subrange(0, i as int + 1)));
            }
            start = i + 1;
        }
        i += 1;
    }
    let piece = s.substring_char(start, n);
    out.append(piece);
    proof {
        let pre = s@.subrange(0, start as int);
        let run = s@.subrange(start as int, n as int);
        lemma_escape_quotes_clean(run);
        lemma_escape_quotes_concat(pre, run);
        assert(pre + run =~= s@);
        assert(s@.subrange(0, n as int) =~= s@);
    }
    out
}

} // verus!
