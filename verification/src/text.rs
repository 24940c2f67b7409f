//! Texts: comparing them, reading integers from them, and looking codes up
//! in a vocabulary.

use crate::error::{outcome, BeaErr, ErrorView, Origin};
use vstd::prelude::*;

verus! {

/// Whether two texts hold the same characters.
pub fn same_text(a: &str, b: &str) -> (r: bool)
    ensures
        r == (a@ == b@),
{
    let x = a.as_bytes();
    let y = b.as_bytes();
    if x.len() != y.len() {
        return false;
    }
    let mut i: usize = 0;
    while i < x.len()
        invariant
            i <= x.len(),
            x.len() == y.len(),
            x@ == vstd::utf8::encode_utf8(a@),
            y@ == vstd::utf8::encode_utf8(b@),
            forall|k: int| 0 <= k < i ==> x[k] == y[k],
        decreases x.len() - i,
    {
        if x[i] != y[i] {
            assert(x@[i as int] != y@[i as int]);
            return false;
        }
        i += 1;
    }
    proof {
        // Equal bytes decode to equal characters.
        assert(x@ =~= y@);
        vstd::utf8::encode_utf8_decode_utf8(a@);
        vstd::utf8::encode_utf8_decode_utf8(b@);
    }
    true
}

/// What `str::parse::<i32>` makes of a text: the number that the text is the
/// decimal form of, or `None` where it is the form of no `i32`.
pub uninterp spec fn parsed_i32(text: Seq<char>) -> Option<i32>;

/// `str::parse::<i32>`, with the reason of a failure left out.
#[verifier::external_body]
fn parse_i32(text: &str) -> (r: Option<i32>)
    ensures
        r == parsed_i32(text@),
{
    text.parse::<i32>().ok()
}

/// The integer that a field holds, given what parsing made of its text.
pub open spec fn integer_from(raw: Seq<char>, parsed: Option<i32>, origin: Origin) -> Result<
    i32,
    ErrorView,
> {
    match parsed {
        Some(n) => Ok(n),
        None => Err(ErrorView::ParseInt { raw, origin }),
    }
}

/// The integer that the text `raw` stands for.
pub open spec fn integer_of(raw: Seq<char>, origin: Origin) -> Result<i32, ErrorView> {
    integer_from(raw, parsed_i32(raw), origin)
}

/// Turns what parsing made of `raw` into the field's value: the number, or
/// `ParseInt` with the text that did not parse.
pub fn integer_from_parsed(raw: &str, parsed: Option<i32>, origin: Origin) -> (r: Result<
    i32,
    BeaErr,
>)
    ensures
        outcome(r) == integer_from(raw@, parsed, origin),
{
    match parsed {
        Some(n) => Ok(n),
        None => Err(BeaErr::ParseInt { raw: raw.to_owned(), origin }),
    }
}

/// Reads a decimal integer from `raw`.
pub fn integer(raw: &str, origin: Origin) -> (r: Result<i32, BeaErr>)
    ensures
        outcome(r) == integer_of(raw@, origin),
{
    integer_from_parsed(raw, parse_i32(raw), origin)
}

/// The decimal form that `i32::to_string` gives a number.
pub uninterp spec fn decimal_of(n: i32) -> Seq<char>;

/// `i32::to_string`.
#[verifier::external_body]
pub(crate) fn decimal(n: i32) -> (r: String)
    ensures
        r@ == decimal_of(n),
{
    n.to_string()
}

/// The codes and values of a vocabulary, as mathematics sees them.
pub open spec fn table_view<T>(table: Seq<(&str, T)>) -> Seq<(Seq<char>, T)> {
    table.map_values(|entry: (&str, T)| (entry.0@, entry.1))
}

/// The codes of a vocabulary, in its order.
pub open spec fn codes<T>(table: Seq<(Seq<char>, T)>) -> Seq<Seq<char>> {
    table.map_values(|entry: (Seq<char>, T)| entry.0)
}

/// The value of the first entry of `table` whose code is `code`.
pub open spec fn code_value<T>(table: Seq<(Seq<char>, T)>, code: Seq<char>) -> Option<T>
    decreases table.len(),
{
    if table.len() == 0 {
        None
    } else if table[0].0 == code {
        Some(table[0].1)
    } else {
        code_value(table.drop_first(), code)
    }
}

/// What a field with the vocabulary `table` makes of `code`: the value that
/// the vocabulary gives it, or `VariantMissing` with the code, the clue and
/// the codes that the vocabulary knows.
pub open spec fn decode_code_of<T>(
    code: Seq<char>,
    table: Seq<(Seq<char>, T)>,
    clue: Seq<char>,
    origin: Origin,
) -> Result<T, ErrorView> {
    match code_value(table, code) {
        Some(value) => Ok(value),
        None => Err(
            ErrorView::VariantMissing { clue, input: code, expected: codes(table), origin },
        ),
    }
}

/// The codes of `table` as owned texts.
fn expected_codes<T>(table: &Vec<(&str, T)>) -> (r: Vec<String>)
    ensures
        r.deep_view() == codes(table_view(table@)),
{
    let mut out: Vec<String> = Vec::new();
    let mut i: usize = 0;
    while i < table.len()
        invariant
            i <= table.len(),
            out.deep_view() == codes(table_view(table@)).take(i as int),
        decreases table.len() - i,
    {
        let ghost before = out.deep_view();
        out.push(table[i].0.to_owned());
        assert(out.deep_view() =~= before.push(table@[i as int].0@));
        assert(codes(table_view(table@)).take(i + 1) =~= codes(table_view(table@)).take(
            i as int,
        ).push(table@[i as int].0@));
        i += 1;
    }
    assert(codes(table_view(table@)).take(i as int) =~= codes(table_view(table@)));
    out
}

/// Decodes a field whose values are a fixed vocabulary of codes.
pub fn decode_code<T: Copy>(code: &str, table: &Vec<(&str, T)>, clue: &str, origin: Origin) -> (r:
    Result<T, BeaErr>)
    ensures
        match r {
            Ok(value) => decode_code_of(code@, table_view(table@), clue@, origin) == Ok::<
                T,
                ErrorView,
            >(value),
            Err(e) => decode_code_of(code@, table_view(table@), clue@, origin) == Err::<T, _>(e@),
        },
{
    let ghost all = table_view(table@);
    let mut i: usize = 0;
    assert(all.skip(0) =~= all);
    while i < table.len()
        invariant
            i <= table.len(),
            all == table_view(table@),
            code_value(all, code@) == code_value(all.skip(i as int), code@),
        decreases table.len() - i,
    {
        assert(all.skip(i as int)[0] == all[i as int]);
        assert(all.skip(i as int).drop_first() =~= all.skip(i + 1));
        if same_text(table[i].0, code) {
            return Ok(table[i].1);
        }
        i += 1;
    }
    Err(
        BeaErr::VariantMissing {
            clue: clue.to_owned(),
            input: code.to_owned(),
            expected: expected_codes(table),
            origin,
        },
    )
}

/// What a field with two codes makes of `code`: `true` for the code `yes`,
/// `false` for the code `no`, and `VariantMissing` for every other.
pub open spec fn flag_of(
    code: Seq<char>,
    yes: Seq<char>,
    no: Seq<char>,
    clue: Seq<char>,
    origin: Origin,
) -> Result<bool, ErrorView> {
    if code == yes {
        Ok(true)
    } else if code == no {
        Ok(false)
    } else {
        Err(ErrorView::VariantMissing { clue, input: code, expected: seq![yes, no], origin })
    }
}

/// Decodes a field with two codes, one for `true` and one for `false`.
pub fn decode_flag(code: &str, yes: &str, no: &str, clue: &str, origin: Origin) -> (r: Result<
    bool,
    BeaErr,
>)
    ensures
        outcome(r) == flag_of(code@, yes@, no@, clue@, origin),
{
    let mut table: Vec<(&str, bool)> = Vec::new();
    table.push((yes, true));
    table.push((no, false));
    proof {
        let entries = table_view(table@);
        assert(entries =~= seq![(yes@, true), (no@, false)]);
        assert(entries.drop_first() =~= seq![(no@, false)]);
        assert(entries.drop_first().drop_first() =~= Seq::<(Seq<char>, bool)>::empty());
        reveal_with_fuel(code_value, 3);
        assert(codes(entries) =~= seq![yes@, no@]);
    }
    decode_code(code, &table, clue, origin)
}

} // verus!
