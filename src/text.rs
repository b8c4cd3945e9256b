use vstd::prelude::*;
use num_format::{Locale, ToFormattedString};

verus! {

/// The items separated by single spaces.
pub open spec fn joined(items: Seq<Seq<char>>) -> Seq<char>
    decreases items.len(),
{
    if items.len() == 0 {
        Seq::empty()
    } else if items.len() == 1 {
        items[0]
    } else {
        joined(items.drop_last()) + " "@ + items.last()
    }
}

/// Joins the given strings with single spaces.
pub fn join_with_spaces(items: &Vec<String>) -> (r: String)
    ensures
        r@ == joined(items.deep_view()),
{
    let mut out = String::new();
    let mut i: usize = 0;
    while i < items.len()
        invariant
            i <= items.len(),
            out@ == joined(items.deep_view().take(i as int)),
        decreases items.len() - i,
    {
        let ghost prefix = items.deep_view().take(i as int);
        let ghost next = items.deep_view().take(i + 1);
        assert(next.drop_last() =~= prefix);
        if i > 0 {
            out.append(" ");
        }
        out.append(items[i].as_str());
        proof {
            if i == 0 {
                assert(out@ =~= next[0]);
            } else {
                assert(out@ =~= joined(prefix) + " "@ + next.last());
            }
        }
        i = i + 1;
    }
    assert(items.deep_view().take(items.len() as int) =~= items.deep_view());
    out
}

/// The decimal digit for `d`.
pub open spec fn digit_char(d: nat) -> char {
    if d == 0 { '0' }
    else if d == 1 { '1' }
    else if d == 2 { '2' }
    else if d == 3 { '3' }
    else if d == 4 { '4' }
    else if d == 5 { '5' }
    else if d == 6 { '6' }
    else if d == 7 { '7' }
    else if d == 8 { '8' }
    else { '9' }
}

/// `n` in decimal without leading zeros.
pub open spec fn decimal(n: nat) -> Seq<char>
    decreases n,
{
    if n < 10 {
        seq![digit_char(n)]
    } else {
        decimal(n / 10).push(digit_char(n % 10))
    }
}

/// `n` in decimal with a comma between each group of three digits, counted
/// from the right: `1234567` gives `1,234,567`.
pub open spec fn grouped_decimal(n: nat) -> Seq<char>
    decreases n,
{
    if n < 1000 {
        decimal(n)
    } else {
        let low = n % 1000;
        grouped_decimal(n / 1000) + seq![
            ',',
            digit_char(low / 100),
            digit_char((low / 10) % 10),
            digit_char(low % 10),
        ]
    }
}

/// Relies on num_format's `to_formatted_string` with `Locale::en`, whose
/// separator is "," and whose grouping is in threes.
#[verifier::external_body]
fn to_grouped_string(n: u64) -> (r: String)
    ensures
        r@ == grouped_decimal(n as nat),
{
    n.to_formatted_string(&Locale::en)
}

/// A population figure with its digits grouped by thousands.
pub fn format_population(population: u64) -> (r: String)
    ensures
        r@ == grouped_decimal(population as nat),
{
    to_grouped_string(population)
}

} // verus!
