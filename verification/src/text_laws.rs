//! What the handling of texts promises: trimming, cutting and joining, searching and numbers.
use crate::text::{
    all_digits, char_is_space, concat, concat3, contains, contains_all,
    contains_text, decimal, decimal_text, digit_char, digit_value, digits_value, first_index,
    first_index_finds, is_blank, is_space, join, joined, occurs_in, parse_decimal, parsed, parts, same_text,
    split, split_once, split_words, starts_with, strip_prefix, stands_at, to_ascii_lower, trim, trim_end,
    trim_start, trimmed, views, word_len, words,
};
use vstd::prelude::*;

verus! {

/// Tells whether a text neither begins nor ends with white space.
pub open spec fn is_tight(s: Seq<char>) -> bool {
    s.len() > 0 ==> !is_space(s[0]) && !is_space(s.last())
}

proof fn blank_start_goes(a: Seq<char>, s: Seq<char>)
    requires
        is_blank(a),
    ensures
        trim_start(a + s) == trim_start(s),
    decreases a.len(),
{
    if a.len() > 0 {
        assert(is_space(a[0]));
        assert((a + s).drop_first() =~= a.drop_first() + s);
        assert forall|i: int| 0 <= i < a.drop_first().len() implies is_space(
            #[trigger] a.drop_first()[i],
        ) by {
            assert(is_space(a[i + 1]));
        }
        blank_start_goes(a.drop_first(), s);
    } else {
        assert(a + s =~= s);
    }
}

proof fn blank_end_goes(s: Seq<char>, b: Seq<char>)
    requires
        is_blank(b),
    ensures
        trim_end(s + b) == trim_end(s),
    decreases b.len(),
{
    if b.len() > 0 {
        assert(is_space(b[b.len() - 1]));
        assert((s + b).drop_last() =~= s + b.drop_last());
        assert forall|i: int| 0 <= i < b.drop_last().len() implies is_space(
            #[trigger] b.drop_last()[i],
        ) by {
            assert(is_space(b[i]));
        }
        blank_end_goes(s, b.drop_last());
    } else {
        assert(s + b =~= s);
    }
}

/// The white space around a text is all that trimming takes away.
pub proof fn only_white_space_around_goes(a: Seq<char>, s: Seq<char>, b: Seq<char>)
    requires
        is_blank(a),
        is_blank(b),
        is_tight(s),
    ensures
        trimmed(a + s + b) == s,
{
    assert(a + s + b =~= a + (s + b));
    blank_start_goes(a, s + b);
    if s.len() > 0 {
        assert((s + b)[0] == s[0]);
        assert(trim_start(s + b) == s + b);
        blank_end_goes(s, b);
        assert(trim_end(s) == s);
    } else {
        assert(s + b =~= b);
        blank_start_goes(b, s);
        assert(b + s =~= b);
        assert(trim_start(b) =~= s);
    }
}

/// Trimming gives back a text from the white space that stands around it.
pub proof fn trimming_finds_the_text(
    a: Seq<char>,
    s: Seq<char>,
    b: Seq<char>,
    text: &str,
    r: String,
)
    requires
        call_ensures(trim, (text,), r),
        text@ == a + s + b,
        is_blank(a),
        is_blank(b),
        is_tight(s),
    ensures
        r@ == s,
{
    only_white_space_around_goes(a, s, b);
}

/// Folding capitals keeps every other character, and the length.
pub proof fn folding_touches_capitals_only(text: &str, r: String)
    requires
        call_ensures(to_ascii_lower, (text,), r),
    ensures
        r@.len() == text@.len(),
        forall|i: int|
            0 <= i < text@.len() ==> (if 65 <= text@[i] as u32 <= 90 {
                #[trigger] r@[i] as u32 == text@[i] as u32 + 32
            } else {
                r@[i] == text@[i]
            }),
{
}

/// Two texts are the same where their characters are.
pub proof fn texts_are_compared_whole(a: &str, b: &str, r: bool)
    requires
        call_ensures(same_text, (a, b), r),
    ensures
        r <==> a@ =~= b@,
{
}

/// A text is found in another exactly where something stands before it and something behind it.
pub proof fn a_text_is_found_where_it_stands(text: &str, needle: &str, r: bool)
    requires
        call_ensures(contains, (text, needle), r),
    ensures
        r <==> exists|a: Seq<char>, b: Seq<char>| text@ == #[trigger] (a + needle@ + b),
{
    if r {
        let i = choose|i: int| stands_at(text@, needle@, i);
        let a = text@.take(i);
        let b = text@.skip(i + needle@.len());
        assert(text@ =~= a + needle@ + b);
    }
    if exists|a: Seq<char>, b: Seq<char>| text@ == #[trigger] (a + needle@ + b) {
        let (a, b) = choose|a: Seq<char>, b: Seq<char>| text@ == #[trigger] (a + needle@ + b);
        assert(text@.subrange(a.len() as int, (a.len() + needle@.len()) as int) =~= needle@);
        assert(stands_at(text@, needle@, a.len() as int));
    }
}

/// A text begins with another where it is that one with something behind it, and what is behind it is what is
/// left.
pub proof fn a_prefix_is_taken_off(
    prefix: &str,
    rest: Seq<char>,
    text: &str,
    r: Option<String>,
    begins: bool,
)
    requires
        text@ == prefix@ + rest,
        call_ensures(strip_prefix, (text, prefix), r),
        call_ensures(starts_with, (text, prefix), begins),
    ensures
        begins,
        r is Some,
        (r->0)@ == rest,
{
    assert(text@.subrange(0, prefix@.len() as int) =~= prefix@);
    assert(text@.skip(prefix@.len() as int) =~= rest);
}

// ---------------------------------------------------------------------------
// Cutting and joining
// ---------------------------------------------------------------------------
proof fn joined_begins(list: Seq<Seq<char>>, sep: Seq<char>)
    requires
        list.len() >= 2,
    ensures
        joined(list, sep) == list[0] + sep + joined(list.drop_first(), sep),
    decreases list.len(),
{
    let dl = list.drop_last();
    let df = list.drop_first();
    if list.len() == 2 {
        assert(joined(dl, sep) == list[0]);
        assert(joined(df, sep) == list[1]);
    } else {
        joined_begins(dl, sep);
        assert(dl.drop_first() =~= df.drop_last());
        assert(df.last() == list.last());
        assert(joined(list, sep) =~= list[0] + sep + joined(df, sep));
    }
}

proof fn cut_at_first(a: Seq<char>, c: char, rest: Seq<char>)
    requires
        !a.contains(c),
    ensures
        parts(a + seq![c] + rest, c) == seq![a] + parts(rest, c),
{
    let s = a + seq![c] + rest;
    first_index_finds(s, c, 0);
    let n = first_index(s, c, 0);
    assert(s[a.len() as int] == c);
    if n < a.len() {
        assert(a[n] == c);
    }
    if n > a.len() {
        assert(s[a.len() as int] != c);
    }
    assert(s.take(n) =~= a);
    assert(s.skip(n + 1) =~= rest);
}

proof fn uncut(a: Seq<char>, c: char)
    requires
        !a.contains(c),
    ensures
        parts(a, c) == seq![a],
{
    first_index_finds(a, c, 0);
    if first_index(a, c, 0) < a.len() {
        assert(a[first_index(a, c, 0)] == c);
    }
}

/// A list of texts that was joined with a separator that none of them holds is cut into the same list again.
pub proof fn cutting_undoes_joining(list: Seq<Seq<char>>, c: char)
    requires
        list.len() > 0,
        forall|i: int| 0 <= i < list.len() ==> !(#[trigger] list[i]).contains(c),
    ensures
        parts(joined(list, seq![c]), c) == list,
    decreases list.len(),
{
    if list.len() == 1 {
        uncut(list[0], c);
        assert(seq![list[0]] =~= list);
    } else {
        let df = list.drop_first();
        joined_begins(list, seq![c]);
        assert forall|i: int| 0 <= i < df.len() implies !(#[trigger] df[i]).contains(c) by {
            assert(df[i] == list[i + 1]);
        }
        cutting_undoes_joining(df, c);
        cut_at_first(list[0], c, joined(df, seq![c]));
        assert(seq![list[0]] + df =~= list);
    }
}

/// Splitting what was joined gives the list back.
pub proof fn splitting_undoes_joining(
    list: &[String],
    sep: &str,
    c: char,
    whole: String,
    again: &str,
    r: Vec<String>,
)
    requires
        list@.len() > 0,
        sep@ == seq![c],
        forall|i: int| 0 <= i < list@.len() ==> !(#[trigger] list@[i])@.contains(c),
        call_ensures(join, (list, sep), whole),
        again@ == whole@,
        call_ensures(split, (again, c), r),
    ensures
        r@.len() == list@.len(),
        forall|i: int| 0 <= i < r@.len() ==> (#[trigger] r@[i])@ == list@[i]@,
{
    assert forall|i: int| 0 <= i < views(list@).len() implies !(
    #[trigger] views(list@)[i]).contains(c) by {
        assert(!list@[i]@.contains(c));
    }
    cutting_undoes_joining(views(list@), c);
    assert(views(r@) == views(list@));
    assert(views(r@).len() == r@.len() && views(list@).len() == list@.len());
    assert forall|i: int| 0 <= i < r@.len() implies (#[trigger] r@[i])@ == list@[i]@ by {
        assert(views(r@)[i] == views(list@)[i]);
    }
}

/// A list that was joined with a separator and a space is cut at the separator: each text but the first keeps
/// the space before it.
pub proof fn spaced_list_is_cut(before: Seq<char>, list: Seq<Seq<char>>, c: char)
    requires
        list.len() > 0,
        !before.contains(c),
        c != ' ',
        forall|i: int| 0 <= i < list.len() ==> !(#[trigger] list[i]).contains(c),
    ensures
        parts(before + joined(list, seq![c, ' ']), c) == Seq::new(
            list.len(),
            |i: int|
                if i == 0 {
                    before + list[0]
                } else {
                    seq![' '] + list[i]
                },
        ),
    decreases list.len(),
{
    let sep = seq![c, ' '];
    let all = Seq::new(
        list.len(),
        |i: int|
            if i == 0 {
                before + list[0]
            } else {
                seq![' '] + list[i]
            },
    );
    let head = before + list[0];
    assert(!head.contains(c)) by {
        if head.contains(c) {
            let i = head.index_of(c);
            if i < before.len() {
                assert(before[i] == c);
            } else {
                assert(list[0][i - before.len()] == c);
            }
        }
    }
    if list.len() == 1 {
        uncut(head, c);
        assert(seq![head] =~= all);
    } else {
        let df = list.drop_first();
        joined_begins(list, sep);
        assert forall|i: int| 0 <= i < df.len() implies !(#[trigger] df[i]).contains(c) by {
            assert(df[i] == list[i + 1]);
        }
        let space = seq![' '];
        assert(!space.contains(c));
        spaced_list_is_cut(space, df, c);
        let rest = space + joined(df, sep);
        cut_at_first(head, c, rest);
        assert(before + joined(list, sep) =~= head + seq![c] + rest);
        assert(seq![head] + parts(rest, c) =~= all);
    }
}

/// A text is cut in two at the first separator in it, and not at all without one.
pub proof fn a_text_is_cut_in_two(
    a: Seq<char>,
    c: char,
    b: Seq<char>,
    text: &str,
    r: Option<(String, String)>,
)
    requires
        text@ == a + seq![c] + b,
        !a.contains(c),
        call_ensures(split_once, (text, c), r),
    ensures
        r is Some,
        (r->0).0@ == a,
        (r->0).1@ == b,
{
    first_index_finds(text@, c, 0);
    let n = first_index(text@, c, 0);
    assert(text@[a.len() as int] == c);
    if n < a.len() {
        assert(a[n] == c);
    }
    if n > a.len() {
        assert(text@[a.len() as int] != c);
    }
    assert(text@.take(n) =~= a);
    assert(text@.skip(n + 1) =~= b);
}

// ---------------------------------------------------------------------------
// Numbers
// ---------------------------------------------------------------------------
/// The digits of a number stand for it.
pub proof fn digits_stand_for_their_number(n: nat)
    ensures
        decimal(n).len() > 0,
        all_digits(decimal(n)),
        digits_value(decimal(n)) == n,
        decimal(n)[0] != '+',
    decreases n,
{
    let d = n % 10;
    assert(digit_value(digit_char(d)) == d);
    if n < 10 {
        assert(decimal(n).drop_last() =~= Seq::empty());
        assert(digits_value(Seq::<char>::empty()) == 0);
    } else {
        digits_stand_for_their_number(n / 10);
        assert(decimal(n).drop_last() =~= decimal(n / 10));
        assert forall|i: int| 0 <= i < decimal(n).len() implies crate::text::is_digit(
            #[trigger] decimal(n)[i],
        ) by {
            if i < decimal(n / 10).len() {
                assert(crate::text::is_digit(decimal(n / 10)[i]));
            }
        }
        assert(decimal(n)[0] == decimal(n / 10)[0]);
    }
}

/// A number that was written is read again as it was, and not where it is too large.
pub proof fn reading_undoes_writing(n: u64, max: u64, text: String, again: &str, r: Option<u64>)
    requires
        call_ensures(decimal_text, (n,), text),
        again@ == text@,
        call_ensures(parse_decimal, (again, max), r),
    ensures
        n <= max ==> r == Some(n),
        n > max ==> r is None,
{
    digits_stand_for_their_number(n as nat);
    assert(parsed(text@, max as nat) == (if n <= max {
        Some(n as nat)
    } else {
        None
    }));
}

/// A number that is not zero is written without a leading zero.
pub proof fn no_leading_zeros(n: nat)
    ensures
        n > 0 ==> decimal(n)[0] != '0',
    decreases n,
{
    if n >= 10 {
        no_leading_zeros(n / 10);
        digits_stand_for_their_number(n / 10);
        assert(decimal(n)[0] == decimal(n / 10)[0]);
    } else if n > 0 {
        assert(digit_value(digit_char(n)) == n);
    }
}

// ---------------------------------------------------------------------------
// Words
// ---------------------------------------------------------------------------
/// The space, the tab and the ends of lines are white space, and what can be seen in ASCII is not.
pub proof fn white_space_cannot_be_seen(c: char, r: bool)
    requires
        call_ensures(char_is_space, (c,), r),
    ensures
        c == ' ' || c == '\t' || c == '\n' || c == '\r' || c == '\u{3000}' ==> r,
        0x21 <= c as u32 <= 0x7e ==> !r,
{
}

proof fn blank_start_has_no_words(a: Seq<char>, rest: Seq<char>)
    requires
        is_blank(a),
    ensures
        words(a + rest) == words(rest),
    decreases a.len(),
{
    if a.len() > 0 {
        assert(is_space(a[0]));
        assert((a + rest)[0] == a[0]);
        assert forall|i: int| 0 <= i < a.drop_first().len() implies is_space(
            #[trigger] a.drop_first()[i],
        ) by {
            assert(is_space(a[i + 1]));
        }
        assert((a + rest).drop_first() =~= a.drop_first() + rest);
        blank_start_has_no_words(a.drop_first(), rest);
    } else {
        assert(a + rest =~= rest);
    }
}

proof fn word_ends_where_space_begins(w: Seq<char>, b: Seq<char>)
    requires
        forall|i: int| 0 <= i < w.len() ==> !is_space(#[trigger] w[i]),
        b.len() > 0 ==> is_space(b[0]),
    ensures
        word_len(w + b) == w.len(),
    decreases w.len(),
{
    if w.len() > 0 {
        assert(!is_space(w[0]));
        assert((w + b)[0] == w[0]);
        assert forall|i: int| 0 <= i < w.drop_first().len() implies !is_space(
            #[trigger] w.drop_first()[i],
        ) by {
            assert(!is_space(w[i + 1]));
        }
        assert((w + b).drop_first() =~= w.drop_first() + b);
        word_ends_where_space_begins(w.drop_first(), b);
    } else {
        assert(w + b =~= b);
    }
}

/// The first word of a text is what stands between the white space at its start and the next white space; the
/// other words are those of the rest. A blank text has none.
pub proof fn words_stand_between_white_space(
    a: Seq<char>,
    w: Seq<char>,
    b: Seq<char>,
    text: &str,
    r: Vec<String>,
    rest: &str,
    others: Vec<String>,
)
    requires
        is_blank(a),
        forall|i: int| 0 <= i < w.len() ==> !is_space(#[trigger] w[i]),
        b.len() > 0 ==> is_space(b[0]),
        text@ == a + w + b,
        rest@ == b,
        call_ensures(split_words, (text,), r),
        call_ensures(split_words, (rest,), others),
    ensures
        w.len() > 0 ==> r@.len() == others@.len() + 1 && r@[0]@ == w && forall|i: int|
            0 <= i < others@.len() ==> (#[trigger] r@[i + 1])@ == others@[i]@,
        w.len() == 0 && b.len() == 0 ==> r@.len() == 0,
{
    assert(a + w + b =~= a + (w + b));
    blank_start_has_no_words(a, w + b);
    word_ends_where_space_begins(w, b);
    assert(views(r@).len() == r@.len());
    assert(views(others@).len() == others@.len());
    if w.len() > 0 {
        assert((w + b)[0] == w[0]);
        assert((w + b).take(w.len() as int) =~= w);
        assert((w + b).skip(w.len() as int) =~= b);
        assert(views(r@) == seq![w] + views(others@));
        assert(views(r@)[0] == r@[0]@);
        assert forall|i: int| 0 <= i < others@.len() implies (#[trigger] r@[i + 1])@
            == others@[i]@ by {
            assert(views(r@)[i + 1] == r@[i + 1]@);
            assert(views(others@)[i] == others@[i]@);
        }
    } else if b.len() == 0 {
        assert(w + b =~= Seq::empty());
    }
}

/// All of a list of texts are found in a text exactly where each of them is.
pub proof fn all_are_found_where_each_is(text: &str, needles: &Vec<String>, r: bool)
    requires
        call_ensures(contains_all, (text, needles), r),
    ensures
        r <==> forall|k: int|
            0 <= k < needles@.len() ==> occurs_in(text@, (#[trigger] needles@[k])@),
{
    assert(views(needles@).len() == needles@.len());
    if r {
        assert forall|k: int| 0 <= k < needles@.len() implies occurs_in(
            text@,
            (#[trigger] needles@[k])@,
        ) by {
            assert(views(needles@)[k] == needles@[k]@);
        }
    }
}

/// A list holds a text exactly where one of its texts is the same.
pub proof fn lists_hold_their_texts(list: &[String], text: &str, r: bool)
    requires
        call_ensures(contains_text, (list, text), r),
    ensures
        r <==> exists|k: int| 0 <= k < list@.len() && (#[trigger] list@[k])@ == text@,
{
    let v = views(list@);
    assert(v.len() == list@.len());
    if v.contains(text@) {
        let k = v.index_of(text@);
        assert(list@[k]@ == text@);
    }
    if exists|k: int| 0 <= k < list@.len() && (#[trigger] list@[k])@ == text@ {
        let k = choose|k: int| 0 <= k < list@.len() && (#[trigger] list@[k])@ == text@;
        assert(v[k] == text@);
    }
}

/// Texts that are put together stand one behind the other.
pub proof fn texts_stand_one_behind_the_other(
    a: &str,
    b: &str,
    c: &str,
    two: String,
    three: String,
)
    requires
        call_ensures(concat, (a, b), two),
        call_ensures(concat3, (a, b, c), three),
    ensures
        two@.len() == a@.len() + b@.len(),
        two@.take(a@.len() as int) == a@,
        two@.skip(a@.len() as int) == b@,
        three@ == two@ + c@,
{
    assert(two@.take(a@.len() as int) =~= a@);
    assert(two@.skip(a@.len() as int) =~= b@);
    assert(three@ =~= two@ + c@);
}

} // verus!
