//! Laws of the text handling: what splitting a list gives, and how the
//! decimal rendering and the parsing of whole numbers undo each other.

use vstd::prelude::*;
use crate::text::{
    all_digits, decimal, digit_char, digit_value, digits_value, is_digit, is_item_separator,
    is_white_space, list_items, parse_u64_spec, split_fields, trim, trim_end, trim_start,
};

verus! {

proof fn lemma_trim_start_shape(s: Seq<char>) -> (k: int)
    ensures
        0 <= k <= s.len(),
        trim_start(s) == s.subrange(k, s.len() as int),
        trim_start(s).len() > 0 ==> !is_white_space(trim_start(s)[0]),
    decreases s.len(),
{
    if s.len() > 0 && is_white_space(s[0]) {
        let k0 = lemma_trim_start_shape(s.drop_first());
        assert(s.drop_first().subrange(k0, s.len() - 1) =~= s.subrange(k0 + 1, s.len() as int));
        k0 + 1
    } else {
        assert(s.subrange(0, s.len() as int) =~= s);
        0
    }
}

proof fn lemma_trim_end_shape(s: Seq<char>) -> (k: int)
    ensures
        0 <= k <= s.len(),
        trim_end(s) == s.subrange(0, k),
        trim_end(s).len() > 0 ==> !is_white_space(trim_end(s).last()),
    decreases s.len(),
{
    if s.len() > 0 && is_white_space(s.last()) {
        let k0 = lemma_trim_end_shape(s.drop_last());
        assert(s.drop_last().subrange(0, k0) =~= s.subrange(0, k0));
        k0
    } else {
        assert(s.subrange(0, s.len() as int) =~= s);
        s.len() as int
    }
}

/// The trimmed text is a stretch of the given text that, unless it is empty,
/// begins and ends with a character that is not whitespace.
proof fn lemma_trim_shape(s: Seq<char>) -> (r: (int, int))
    ensures
        0 <= r.0 <= r.1 <= s.len(),
        trim(s) == s.subrange(r.0, r.1),
        trim(s).len() > 0 ==> !is_white_space(trim(s)[0]) && !is_white_space(trim(s).last()),
{
    let a = lemma_trim_start_shape(s);
    let t = trim_start(s);
    let b = lemma_trim_end_shape(t);
    assert(t.subrange(0, b) =~= s.subrange(a, a + b));
    if trim(s).len() > 0 {
        assert(trim(s)[0] == t[0]);
    }
    (a, a + b)
}

proof fn lemma_trim_of_clean(s: Seq<char>)
    requires
        s.len() > 0 ==> !is_white_space(s[0]) && !is_white_space(s.last()),
    ensures
        trim(s) == s,
{
}

proof fn lemma_fields_have_no_separator(s: Seq<char>, commas: bool, i: int, j: int)
    requires
        0 <= i < split_fields(s, commas).len(),
        0 <= j < split_fields(s, commas)[i].len(),
    ensures
        !is_item_separator(split_fields(s, commas)[i][j], commas),
    decreases s.len(),
{
    if s.len() > 0 {
        lemma_split_fields_nonempty(s.drop_last(), commas);
        let prev = split_fields(s.drop_last(), commas);
        if is_item_separator(s.last(), commas) {
            if i < prev.len() {
                lemma_fields_have_no_separator(s.drop_last(), commas, i, j);
            }
        } else {
            if i < prev.len() - 1 || j < prev.last().len() {
                lemma_fields_have_no_separator(s.drop_last(), commas, i, j);
            }
        }
    }
}

/// Every item of a list is non-blank, already trimmed, and holds no
/// separator: no line break, and no comma where commas separate items.
pub proof fn lemma_list_items_are_clean(s: Seq<char>, commas: bool, i: int)
    requires
        0 <= i < list_items(s, commas).len(),
    ensures
        list_items(s, commas)[i].len() > 0,
        trim(list_items(s, commas)[i]) == list_items(s, commas)[i],
        forall|j: int|
            0 <= j < list_items(s, commas)[i].len() ==> !is_item_separator(
                #[trigger] list_items(s, commas)[i][j],
                commas,
            ),
{
    broadcast use vstd::seq_lib::group_seq_properties;

    let fields = split_fields(s, commas);
    let trimmed = fields.map_values(|f: Seq<char>| trim(f));
    let keep = |f: Seq<char>| f.len() > 0;
    let item = list_items(s, commas)[i];
    trimmed.lemma_filter_pred(keep, i);
    assert(trimmed.filter(keep).contains(item));
    trimmed.lemma_filter_contains_rev(keep, item);
    let k = choose|k: int| 0 <= k < trimmed.len() && trimmed[k] == item;
    assert(trimmed[k] == trim(fields[k]));
    let (a, b) = lemma_trim_shape(fields[k]);
    lemma_trim_of_clean(item);
    assert forall|j: int| 0 <= j < item.len() implies !is_item_separator(
        #[trigger] item[j],
        commas,
    ) by {
        assert(item[j] == fields[k][a + j]);
        lemma_fields_have_no_separator(s, commas, k, a + j);
    }
}

/// The items joined by line breaks, as a user types a list one per line.
pub open spec fn join_lines(items: Seq<Seq<char>>) -> Seq<char>
    decreases items.len(),
{
    if items.len() == 0 {
        Seq::empty()
    } else if items.len() == 1 {
        items[0]
    } else {
        join_lines(items.drop_last()) + seq!['\n'] + items.last()
    }
}

/// Whether `item` could be an item of a list: non-blank, trimmed, and
/// without separators.
pub open spec fn is_clean_item(item: Seq<char>, commas: bool) -> bool {
    &&& item.len() > 0
    &&& !is_white_space(item[0])
    &&& !is_white_space(item.last())
    &&& forall|j: int| 0 <= j < item.len() ==> !is_item_separator(#[trigger] item[j], commas)
}

proof fn lemma_split_append_plain(p: Seq<char>, t: Seq<char>, commas: bool)
    requires
        forall|j: int| 0 <= j < t.len() ==> !is_item_separator(#[trigger] t[j], commas),
    ensures
        split_fields(p + t, commas) == split_fields(p, commas).update(
            split_fields(p, commas).len() - 1,
            split_fields(p, commas).last() + t,
        ),
    decreases t.len(),
{
    lemma_split_fields_nonempty(p, commas);
    let f = split_fields(p, commas);
    if t.len() == 0 {
        assert(p + t =~= p);
        assert(f.last() + t =~= f.last());
        assert(f.update(f.len() - 1, f.last()) =~= f);
    } else {
        let t0 = t.drop_last();
        lemma_split_append_plain(p, t0, commas);
        assert((p + t).drop_last() =~= p + t0);
        assert((p + t).last() == t.last());
        let g = split_fields(p + t0, commas);
        let c = t.last();
        assert(t[t.len() - 1] == c);
        assert(!is_item_separator(c, commas));
        assert forall|j: int| 0 <= j < t0.len() implies !is_item_separator(
            #[trigger] t0[j],
            commas,
        ) by {
            assert(t0[j] == t[j]);
        }
        assert(g == f.update(f.len() - 1, f.last() + t0));
        assert(g.len() == f.len());
        assert(g.last() == f.last() + t0);
        assert(split_fields(p + t, commas) == g.update(g.len() - 1, g.last().push(c)));
        assert(g.last().push(c) =~= f.last() + t);
        assert(split_fields(p + t, commas) =~= f.update(f.len() - 1, f.last() + t));
    }
}

proof fn lemma_split_fields_nonempty(s: Seq<char>, commas: bool)
    ensures
        split_fields(s, commas).len() >= 1,
    decreases s.len(),
{
    if s.len() > 0 {
        lemma_split_fields_nonempty(s.drop_last(), commas);
    }
}

proof fn lemma_split_join_fields(items: Seq<Seq<char>>, commas: bool)
    requires
        items.len() >= 1,
        forall|i: int| 0 <= i < items.len() ==> is_clean_item(#[trigger] items[i], commas),
    ensures
        split_fields(join_lines(items), commas) == items,
    decreases items.len(),
{
    if items.len() == 1 {
        let e = Seq::<char>::empty();
        lemma_split_append_plain(e, items[0], commas);
        assert(e + items[0] =~= items[0]);
        assert(seq![e].update(0, e + items[0]) =~= items);
    } else {
        let front = items.drop_last();
        assert forall|i: int| 0 <= i < front.len() implies is_clean_item(
            #[trigger] front[i],
            commas,
        ) by {
            assert(front[i] == items[i]);
        }
        lemma_split_join_fields(front, commas);
        let p = join_lines(front) + seq!['\n'];
        assert(p.drop_last() =~= join_lines(front));
        assert(split_fields(p, commas) == front.push(Seq::<char>::empty()));
        assert(is_clean_item(items.last(), commas));
        lemma_split_append_plain(p, items.last(), commas);
        assert(Seq::<char>::empty() + items.last() =~= items.last());
        assert(front.push(Seq::<char>::empty()).update(front.len() as int, items.last())
            =~= items);
    }
}

proof fn lemma_filter_keeps_all(s: Seq<Seq<char>>)
    requires
        forall|i: int| 0 <= i < s.len() ==> (#[trigger] s[i]).len() > 0,
    ensures
        s.filter(|f: Seq<char>| f.len() > 0) == s,
    decreases s.len(),
{
    broadcast use vstd::seq_lib::group_seq_properties;

    if s.len() > 0 {
        let front = s.drop_last();
        assert forall|i: int| 0 <= i < front.len() implies (#[trigger] front[i]).len() > 0 by {
            assert(front[i] == s[i]);
        }
        lemma_filter_keeps_all(front);
        front.lemma_filter_push(s.last(), |f: Seq<char>| f.len() > 0);
        assert(front.push(s.last()) =~= s);
    } else {
        reveal(Seq::filter);
    }
}

/// Typing clean items one per line and splitting the text again gives back
/// exactly those items, in order.
pub proof fn lemma_list_items_of_joined(items: Seq<Seq<char>>, commas: bool)
    requires
        forall|i: int| 0 <= i < items.len() ==> is_clean_item(#[trigger] items[i], commas),
    ensures
        list_items(join_lines(items), commas) == items,
{
    broadcast use vstd::seq_lib::group_seq_properties;

    let keep = |f: Seq<char>| f.len() > 0;
    if items.len() == 0 {
        let m = seq![Seq::<char>::empty()].map_values(|f: Seq<char>| trim(f));
        assert(m =~= seq![Seq::<char>::empty()]);
        Seq::<Seq<char>>::empty().lemma_filter_push(Seq::<char>::empty(), keep);
        reveal(Seq::filter);
        assert(seq![Seq::<char>::empty()] =~= Seq::<Seq<char>>::empty().push(Seq::<char>::empty()));
        assert(list_items(join_lines(items), commas) =~= items);
    } else {
        lemma_split_join_fields(items, commas);
        let m = items.map_values(|f: Seq<char>| trim(f));
        assert forall|i: int| 0 <= i < items.len() implies m[i] == items[i] by {
            lemma_trim_of_clean(items[i]);
        }
        assert(m =~= items);
        lemma_filter_keeps_all(items);
    }
}

proof fn lemma_digit_char_value(d: nat)
    requires
        d < 10,
    ensures
        is_digit(digit_char(d)),
        digit_value(digit_char(d)) == d,
        digit_char(d) != '+',
{
}

proof fn lemma_decimal_digits(n: nat)
    ensures
        decimal(n).len() > 0,
        all_digits(decimal(n)),
        digits_value(decimal(n)) == n,
        decimal(n)[0] != '+',
    decreases n,
{
    if n < 10 {
        lemma_digit_char_value(n);
        assert(decimal(n).drop_last() =~= Seq::<char>::empty());
        assert(digits_value(decimal(n)) == digits_value(Seq::<char>::empty()) * 10 + digit_value(
            digit_char(n),
        ));
    } else {
        lemma_decimal_digits(n / 10);
        lemma_digit_char_value(n % 10);
        let d = decimal(n);
        assert(d.drop_last() =~= decimal(n / 10));
        assert(d.last() == digit_char(n % 10));
        assert(digits_value(d) == digits_value(decimal(n / 10)) * 10 + digit_value(d.last()));
        assert(n == (n / 10) * 10 + n % 10);
        assert(d[0] == decimal(n / 10)[0]);
        assert forall|i: int| 0 <= i < d.len() implies is_digit(#[trigger] d[i]) by {
            if i < d.len() - 1 {
                assert(d[i] == decimal(n / 10)[i]);
            }
        }
    }
}

/// Parsing the decimal text of a `u64` gives that number back.
pub proof fn lemma_parse_decimal(n: u64)
    ensures
        parse_u64_spec(decimal(n as nat)) == Some(n),
{
    lemma_decimal_digits(n as nat);
}

/// Decimal text has no surrounding whitespace, so a field holding it parses
/// to the number it spells.
pub proof fn lemma_parse_field_of_decimal(n: u64)
    ensures
        trim(decimal(n as nat)) == decimal(n as nat),
        parse_u64_spec(trim(decimal(n as nat))) == Some(n),
{
    lemma_decimal_digits(n as nat);
    let d = decimal(n as nat);
    assert(is_digit(d[0]));
    assert(is_digit(d[d.len() - 1]));
    lemma_trim_of_clean(d);
}

} // verus!
