//! Text as sequences of characters: the small string operations that the rest
//! of the library states its contracts over.
use vstd::prelude::*;

verus! {

/// `String::push` of std: appends one character.
pub assume_specification[ std::string::String::push ](s: &mut std::string::String, ch: char)
    ensures
        final(s)@ == old(s)@.push(ch),
;

// ---------------------------------------------------------------------------
// Characters
// ---------------------------------------------------------------------------
/// The characters with Unicode's `White_Space` property.
pub open spec fn is_space(c: char) -> bool {
    let n = c as u32;
    ||| 9 <= n <= 13
    ||| n == 0x20
    ||| n == 0x85
    ||| n == 0xa0
    ||| n == 0x1680
    ||| 0x2000 <= n <= 0x200a
    ||| n == 0x2028
    ||| n == 0x2029
    ||| n == 0x202f
    ||| n == 0x205f
    ||| n == 0x3000
}

/// Tells whether a character is white space in Unicode's sense.
pub fn char_is_space(c: char) -> (r: bool)
    ensures
        r == is_space(c),
{
    let n: u32 = c as u32;
    (9 <= n && n <= 13) || n == 0x20 || n == 0x85 || n == 0xa0 || n == 0x1680 || (0x2000 <= n && n
        <= 0x200a) || n == 0x2028 || n == 0x2029 || n == 0x202f || n == 0x205f || n == 0x3000
}

/// A character with ASCII capitals folded to small letters.
pub open spec fn ascii_lower(c: char) -> char {
    if 'A' <= c <= 'Z' {
        (c as u8 + 32) as char
    } else {
        c
    }
}

/// Folds an ASCII capital to its small letter.
pub fn char_ascii_lower(c: char) -> (r: char)
    ensures
        r == ascii_lower(c),
{
    if 'A' <= c && c <= 'Z' {
        ((c as u8) + 32) as char
    } else {
        c
    }
}

/// The character of a decimal digit.
pub open spec fn digit_char(d: nat) -> char {
    (48 + d) as char
}

/// Tells whether a character is an ASCII digit.
pub open spec fn is_digit(c: char) -> bool {
    '0' <= c <= '9'
}

/// The value of an ASCII digit.
pub open spec fn digit_value(c: char) -> nat {
    (c as u32 - 48) as nat
}

// ---------------------------------------------------------------------------
// Texts and their characters
// ---------------------------------------------------------------------------
/// The characters of a text.
pub fn chars_of(s: &str) -> (r: Vec<char>)
    ensures
        r@ == s@,
{
    let mut r: Vec<char> = Vec::new();
    for c in it: s.chars()
        invariant
            it.seq() == s@,
            r@ == s@.take(it.index()),
    {
        r.push(c);
        assert(s@.take(it.index() + 1) == s@.take(it.index()).push(s@[it.index()]));
    }
    assert(s@.take(s@.len() as int) == s@);
    r
}

/// A text made of the given characters.
pub fn string_of(chars: &[char]) -> (r: String)
    ensures
        r@ == chars@,
{
    string_of_range(chars, 0, chars.len())
}

/// A text made of the characters from `from` up to `to`.
pub fn string_of_range(chars: &[char], from: usize, to: usize) -> (r: String)
    requires
        from <= to <= chars@.len(),
    ensures
        r@ == chars@.subrange(from as int, to as int),
{
    let mut r = String::new();
    for i in from..to
        invariant
            from <= i <= to <= chars@.len(),
            r@ == chars@.subrange(from as int, i as int),
    {
        r.push(chars[i]);
        assert(chars@.subrange(from as int, i as int + 1) == chars@.subrange(
            from as int,
            i as int,
        ).push(chars@[i as int]));
    }
    r
}

/// Tells whether two texts have the same characters.
pub fn same_text(a: &str, b: &str) -> (r: bool)
    ensures
        r == (a@ == b@),
{
    let x = chars_of(a);
    let y = chars_of(b);
    if x.len() != y.len() {
        return false;
    }
    for i in 0..x.len()
        invariant
            x@ == a@,
            y@ == b@,
            x@.len() == y@.len(),
            forall|j: int| 0 <= j < i ==> x@[j] == y@[j],
    {
        if x[i] != y[i] {
            return false;
        }
    }
    assert(a@ =~= b@);
    true
}

/// Tells whether an optional text is the given one.
pub fn is_some_text(a: &Option<String>, b: &str) -> (r: bool)
    ensures
        r == (a is Some && a->0@ == b@),
{
    match a {
        Some(text) => same_text(text.as_str(), b),
        None => false,
    }
}

/// The characters of an optional text.
pub open spec fn opt_view(a: Option<String>) -> Option<Seq<char>> {
    match a {
        Some(text) => Some(text@),
        None => None,
    }
}

/// The contents of an optional reference to a text.
pub open spec fn str_view(s: Option<&str>) -> Option<Seq<char>> {
    match s {
        Some(text) => Some(text@),
        None => None,
    }
}

/// Tells whether two optional texts are the same.
pub fn same_opt_text(a: &Option<String>, b: &Option<String>) -> (r: bool)
    ensures
        r == (opt_view(*a) == opt_view(*b)),
{
    match (a, b) {
        (Some(x), Some(y)) => same_text(x.as_str(), y.as_str()),
        (None, None) => true,
        _ => false,
    }
}

/// A copy of an optional text.
pub fn copy_opt_text(a: &Option<String>) -> (r: Option<String>)
    ensures
        r == *a,
{
    match a {
        Some(text) => Some(text.clone()),
        None => None,
    }
}

/// The characters of each text of a list.
pub open spec fn views(list: Seq<String>) -> Seq<Seq<char>> {
    Seq::new(list.len(), |i: int| list[i]@)
}

/// A copy of a list of texts.
pub fn copy_texts(list: &Vec<String>) -> (r: Vec<String>)
    ensures
        r@ == list@,
{
    let mut r: Vec<String> = Vec::new();
    for i in 0..list.len()
        invariant
            r@ == list@.take(i as int),
    {
        r.push(list[i].clone());
        assert(list@.take(i as int + 1) == list@.take(i as int).push(list@[i as int]));
    }
    assert(list@.take(list@.len() as int) == list@);
    r
}

/// Tells whether a list of texts holds the given one.
pub fn contains_text(list: &[String], text: &str) -> (r: bool)
    ensures
        r == views(list@).contains(text@),
{
    for i in 0..list.len()
        invariant
            forall|j: int| 0 <= j < i ==> #[trigger] list@[j]@ != text@,
    {
        if same_text(list[i].as_str(), text) {
            assert(views(list@)[i as int] == text@);
            return true;
        }
    }
    assert forall|j: int| 0 <= j < list@.len() implies views(list@)[j] != text@ by {
        assert(list@[j]@ != text@);
    }
    false
}

// ---------------------------------------------------------------------------
// Trimming
// ---------------------------------------------------------------------------
/// The text without its leading white space.
pub open spec fn trim_start(s: Seq<char>) -> Seq<char>
    decreases s.len(),
{
    if s.len() > 0 && is_space(s[0]) {
        trim_start(s.drop_first())
    } else {
        s
    }
}

/// The text without its trailing white space.
pub open spec fn trim_end(s: Seq<char>) -> Seq<char>
    decreases s.len(),
{
    if s.len() > 0 && is_space(s.last()) {
        trim_end(s.drop_last())
    } else {
        s
    }
}

/// The text without leading and trailing white space.
pub open spec fn trimmed(s: Seq<char>) -> Seq<char> {
    trim_end(trim_start(s))
}

proof fn trim_start_adds_nothing(s: Seq<char>)
    ensures
        trim_start(s).len() <= s.len(),
    decreases s.len(),
{
    if s.len() > 0 && is_space(s[0]) {
        trim_start_adds_nothing(s.drop_first());
    }
}

proof fn trim_end_adds_nothing(s: Seq<char>)
    ensures
        trim_end(s).len() <= s.len(),
    decreases s.len(),
{
    if s.len() > 0 && is_space(s.last()) {
        trim_end_adds_nothing(s.drop_last());
    }
}

/// A text is no longer without the white space around it.
pub proof fn trimming_adds_nothing(s: Seq<char>)
    ensures
        trimmed(s).len() <= s.len(),
{
    trim_start_adds_nothing(s);
    trim_end_adds_nothing(trim_start(s));
}

/// Removes leading and trailing white space.
pub fn trim(s: &str) -> (r: String)
    ensures
        r@ == trimmed(s@),
{
    let chars = chars_of(s);
    let mut from: usize = 0;
    let mut to: usize = chars.len();
    assert(s@.subrange(0, s@.len() as int) == s@);
    while from < to && char_is_space(chars[from])
        invariant
            from <= to == chars@.len(),
            chars@ == s@,
            trim_start(s@) == trim_start(chars@.subrange(from as int, to as int)),
        decreases to - from,
    {
        assert(chars@.subrange(from as int, to as int).drop_first() == chars@.subrange(
            from + 1,
            to as int,
        ));
        from = from + 1;
    }
    while from < to && char_is_space(chars[to - 1])
        invariant
            from <= to <= chars@.len(),
            trimmed(s@) == trim_end(chars@.subrange(from as int, to as int)),
        decreases to - from,
    {
        assert(chars@.subrange(from as int, to as int).drop_last() == chars@.subrange(
            from as int,
            to - 1,
        ));
        to = to - 1;
    }
    string_of_range(chars.as_slice(), from, to)
}

/// Trimming white space off a text leaves a part of it.
pub proof fn trimmed_is_part(s: Seq<char>)
    ensures
        exists|i: int, j: int|
            0 <= i <= j <= s.len() && #[trigger] s.subrange(i, j) == trimmed(s),
{
    trim_start_is_suffix(s);
    trim_end_is_prefix(trim_start(s));
    let i = s.len() - trim_start(s).len();
    let n = trimmed(s).len() as int;
    assert(s.subrange(i, i + n) =~= trimmed(s));
}

proof fn trim_start_is_suffix(s: Seq<char>)
    ensures
        trim_start(s).len() <= s.len(),
        trim_start(s) == s.skip(s.len() - trim_start(s).len()),
    decreases s.len(),
{
    if s.len() > 0 && is_space(s[0]) {
        trim_start_is_suffix(s.drop_first());
        assert(trim_start(s) =~= s.skip(s.len() - trim_start(s).len()));
    } else {
        assert(s =~= s.skip(0));
    }
}

proof fn trim_end_is_prefix(s: Seq<char>)
    ensures
        trim_end(s).len() <= s.len(),
        trim_end(s) == s.take(trim_end(s).len() as int),
    decreases s.len(),
{
    if s.len() > 0 && is_space(s.last()) {
        trim_end_is_prefix(s.drop_last());
        assert(trim_end(s) =~= s.take(trim_end(s).len() as int));
    } else {
        assert(s =~= s.take(s.len() as int));
    }
}

/// A text without white space around it stays as it is when it is trimmed again.
pub proof fn trimming_again_changes_nothing(s: Seq<char>)
    ensures
        trimmed(trimmed(s)) == trimmed(s),
{
    let a = trim_start(s);
    trim_start_starts(s);
    trim_end_ends(a);
    trim_end_is_prefix(a);
    let t = trimmed(s);
    if t.len() > 0 {
        assert(t[0] == a[0]);
    }
}

proof fn trim_start_starts(s: Seq<char>)
    ensures
        trim_start(s).len() > 0 ==> !is_space(trim_start(s)[0]),
    decreases s.len(),
{
    if s.len() > 0 && is_space(s[0]) {
        trim_start_starts(s.drop_first());
    }
}

proof fn trim_end_ends(s: Seq<char>)
    ensures
        trim_end(s).len() > 0 ==> !is_space(trim_end(s).last()),
    decreases s.len(),
{
    if s.len() > 0 && is_space(s.last()) {
        trim_end_ends(s.drop_last());
    }
}

// ---------------------------------------------------------------------------
// Letter case
// ---------------------------------------------------------------------------
/// The text with ASCII capitals folded to small letters.
pub open spec fn ascii_lowered(s: Seq<char>) -> Seq<char> {
    Seq::new(s.len(), |i: int| ascii_lower(s[i]))
}

/// Folds ASCII capitals to small letters.
pub fn to_ascii_lower(s: &str) -> (r: String)
    ensures
        r@ == ascii_lowered(s@),
{
    let chars = chars_of(s);
    let mut r = String::new();
    for i in 0..chars.len()
        invariant
            chars@ == s@,
            r@ == ascii_lowered(s@.take(i as int)),
    {
        r.push(char_ascii_lower(chars[i]));
        assert(ascii_lowered(s@.take(i as int + 1)) =~= ascii_lowered(s@.take(i as int)).push(
            ascii_lower(s@[i as int]),
        ));
    }
    assert(s@.take(s@.len() as int) == s@);
    r
}

/// Tells whether a text holds ASCII characters only.
pub open spec fn is_ascii_text(s: Seq<char>) -> bool {
    forall|i: int| 0 <= i < s.len() ==> (#[trigger] s[i] as u32) < 128
}

/// The text that `str::to_lowercase` of std gives, by Unicode's tables.
pub uninterp spec fn unicode_lowered(s: Seq<char>) -> Seq<char>;

/// A text in small letters: ASCII text with its capitals folded, other text by Unicode's tables.
pub open spec fn lowered(s: Seq<char>) -> Seq<char> {
    if is_ascii_text(s) {
        ascii_lowered(s)
    } else {
        unicode_lowered(s)
    }
}

/// `str::to_lowercase` of std. Of ASCII text the capitals are folded; the lowercase form of other text
/// follows Unicode's tables, so it is named here and not spelled out.
#[verifier::external_body]
pub(crate) fn to_lower(s: &str) -> (r: String)
    ensures
        !is_ascii_text(s@) ==> r@ == unicode_lowered(s@),
        r@ == lowered(s@),
{
    s.to_lowercase()
}

// ---------------------------------------------------------------------------
// Parts of texts
// ---------------------------------------------------------------------------
/// Tells whether `needle` stands in `text` at position `i`.
pub open spec fn stands_at(text: Seq<char>, needle: Seq<char>, i: int) -> bool {
    0 <= i && i + needle.len() <= text.len() && text.subrange(i, i + needle.len()) == needle
}

/// Tells whether `needle` stands somewhere in `text`.
pub open spec fn occurs_in(text: Seq<char>, needle: Seq<char>) -> bool {
    exists|i: int| stands_at(text, needle, i)
}

fn matches_at(text: &[char], needle: &[char], at: usize) -> (r: bool)
    requires
        at + needle@.len() <= text@.len(),
    ensures
        r == stands_at(text@, needle@, at as int),
{
    let len: usize = text.len();
    for j in 0..needle.len()
        invariant
            at + needle@.len() <= text@.len() == len,
            forall|k: int| 0 <= k < j ==> text@[at + k] == needle@[k],
    {
        if text[at + j] != needle[j] {
            assert(text@.subrange(at as int, at + needle@.len())[j as int] != needle@[j as int]);
            return false;
        }
    }
    assert(text@.subrange(at as int, at + needle@.len()) =~= needle@);
    true
}

/// Searches for a text inside another.
pub fn contains(text: &str, needle: &str) -> (r: bool)
    ensures
        r == occurs_in(text@, needle@),
{
    let t = chars_of(text);
    let n = chars_of(needle);
    if n.len() > t.len() {
        return false;
    }
    let last: usize = t.len() - n.len();
    let mut i: usize = 0;
    loop
        invariant
            i <= last,
            last == t@.len() - n@.len(),
            t@ == text@,
            n@ == needle@,
            forall|k: int| 0 <= k < i ==> !stands_at(text@, needle@, k),
        decreases last - i,
    {
        if matches_at(t.as_slice(), n.as_slice(), i) {
            return true;
        }
        if i == last {
            return false;
        }
        i = i + 1;
    }
}

/// Tells whether `text` begins with `prefix`.
pub open spec fn has_prefix(text: Seq<char>, prefix: Seq<char>) -> bool {
    stands_at(text, prefix, 0)
}

/// Tells whether a text begins with another.
pub fn starts_with(text: &str, prefix: &str) -> (r: bool)
    ensures
        r == has_prefix(text@, prefix@),
{
    let t = chars_of(text);
    let p = chars_of(prefix);
    p.len() <= t.len() && matches_at(t.as_slice(), p.as_slice(), 0)
}

/// The text behind a prefix, where it has that prefix.
pub fn strip_prefix(text: &str, prefix: &str) -> (r: Option<String>)
    ensures
        match r {
            Some(rest) => has_prefix(text@, prefix@) && rest@ == text@.skip(prefix@.len() as int),
            None => !has_prefix(text@, prefix@),
        },
{
    let t = chars_of(text);
    let p = chars_of(prefix);
    if p.len() <= t.len() && matches_at(t.as_slice(), p.as_slice(), 0) {
        let rest = string_of_range(t.as_slice(), p.len(), t.len());
        assert(rest@ =~= text@.skip(prefix@.len() as int));
        Some(rest)
    } else {
        None
    }
}

/// Where the first `c` stands at or after `i`, or the length.
pub open spec fn first_index(s: Seq<char>, c: char, i: int) -> int
    decreases s.len() - i,
{
    if i >= s.len() || i < 0 {
        s.len() as int
    } else if s[i] == c {
        i
    } else {
        first_index(s, c, i + 1)
    }
}

fn find_char(s: &[char], c: char, from: usize) -> (r: usize)
    requires
        from <= s@.len(),
    ensures
        r == first_index(s@, c, from as int),
        from <= r <= s@.len(),
{
    let mut i: usize = from;
    while i < s.len() && s[i] != c
        invariant
            from <= i <= s@.len(),
            first_index(s@, c, from as int) == first_index(s@, c, i as int),
        decreases s@.len() - i,
    {
        i = i + 1;
    }
    i
}

/// The parts of a text between the occurrences of a separator. There is always
/// at least one part.
pub open spec fn parts(s: Seq<char>, c: char) -> Seq<Seq<char>>
    decreases s.len(),
{
    let n = first_index(s, c, 0);
    if 0 <= n < s.len() {
        seq![s.take(n)] + parts(s.skip(n + 1), c)
    } else {
        seq![s]
    }
}

proof fn first_index_shift(s: Seq<char>, c: char, from: int, i: int)
    requires
        0 <= from,
        0 <= i,
        from + i <= s.len(),
    ensures
        first_index(s.skip(from), c, i) == first_index(s, c, from + i) - from,
    decreases s.len() - from - i,
{
    if from + i < s.len() && s[from + i] != c {
        first_index_shift(s, c, from, i + 1);
    }
}

/// Splits a text at each occurrence of a separator.
pub fn split(s: &str, c: char) -> (r: Vec<String>)
    ensures
        views(r@) == parts(s@, c),
{
    let chars = chars_of(s);
    let mut r: Vec<String> = Vec::new();
    let mut from: usize = 0;
    assert(s@.skip(0) == s@);
    loop
        invariant
            chars@ == s@,
            from <= chars@.len(),
            parts(s@, c) == views(r@) + parts(s@.skip(from as int), c),
        decreases chars@.len() - from,
    {
        let n: usize = find_char(chars.as_slice(), c, from);
        proof {
            first_index_shift(s@, c, from as int, 0);
        }
        let part = string_of_range(chars.as_slice(), from, n);
        let ghost before = r@;
        r.push(part);
        assert(views(r@) =~= views(before).push(part@));
        assert(part@ =~= s@.skip(from as int).take(n - from));
        if n >= chars.len() {
            assert(part@ =~= s@.skip(from as int));
            assert(views(before) + seq![part@] =~= views(r@));
            return r;
        }
        assert(s@.skip(from as int).skip(n - from + 1) =~= s@.skip(n + 1));
        assert(views(before) + (seq![part@] + parts(s@.skip(n + 1), c)) =~= views(r@) + parts(
            s@.skip(n + 1),
            c,
        ));
        from = n + 1;
    }
}

/// The two sides of the first separator of a text, where it has one.
pub fn split_once(s: &str, c: char) -> (r: Option<(String, String)>)
    ensures
        match r {
            Some(sides) => s@.contains(c) && sides.0@ == s@.take(first_index(s@, c, 0))
                && sides.1@ == s@.skip(first_index(s@, c, 0) + 1),
            None => !s@.contains(c),
        },
{
    let chars = chars_of(s);
    let n: usize = find_char(chars.as_slice(), c, 0);
    proof {
        first_index_finds(s@, c, 0);
    }
    if n < chars.len() {
        let left = string_of_range(chars.as_slice(), 0, n);
        let right = string_of_range(chars.as_slice(), n + 1, chars.len());
        assert(left@ =~= s@.take(n as int));
        assert(right@ =~= s@.skip(n + 1));
        Some((left, right))
    } else {
        None
    }
}

/// `first_index` is the least position of the character, where it has one.
pub proof fn first_index_finds(s: Seq<char>, c: char, i: int)
    requires
        0 <= i <= s.len(),
    ensures
        i <= first_index(s, c, i) <= s.len(),
        forall|k: int| i <= k < first_index(s, c, i) ==> s[k] != c,
        first_index(s, c, i) < s.len() ==> s[first_index(s, c, i)] == c,
    decreases s.len() - i,
{
    if i < s.len() && s[i] != c {
        first_index_finds(s, c, i + 1);
    }
}

/// The length of the word that a text begins with.
pub open spec fn word_len(s: Seq<char>) -> nat
    decreases s.len(),
{
    if s.len() > 0 && !is_space(s[0]) {
        1 + word_len(s.drop_first())
    } else {
        0
    }
}

/// The maximal parts of a text without white space.
pub open spec fn words(s: Seq<char>) -> Seq<Seq<char>>
    decreases s.len(),
{
    if s.len() == 0 {
        Seq::empty()
    } else if is_space(s[0]) {
        words(s.drop_first())
    } else if 0 < word_len(s) <= s.len() {
        seq![s.take(word_len(s) as int)] + words(s.skip(word_len(s) as int))
    } else {
        Seq::empty()
    }
}

/// Tells whether a text is nothing but white space.
pub open spec fn is_blank(s: Seq<char>) -> bool {
    forall|i: int| 0 <= i < s.len() ==> is_space(#[trigger] s[i])
}

proof fn word_ends_at_space(a: Seq<char>, rest: Seq<char>)
    requires
        rest.len() > 0,
        is_space(rest[0]),
    ensures
        word_len(a + rest) == word_len(a),
        word_len(a) <= a.len(),
    decreases a.len(),
{
    if a.len() > 0 && !is_space(a[0]) {
        assert((a + rest).drop_first() =~= a.drop_first() + rest);
        word_ends_at_space(a.drop_first(), rest);
    }
}

/// White space parts words, however much there is of it.
pub proof fn white_space_parts_words(a: Seq<char>, space: Seq<char>, b: Seq<char>)
    requires
        space.len() > 0,
        is_blank(space),
    ensures
        words(a + space + b) == words(a) + words(b),
    decreases a.len(), space.len(),
{
    let all = a + space + b;
    if a.len() == 0 {
        assert(all =~= space + b);
        assert(is_space(space[0]));
        assert(all.drop_first() =~= space.drop_first() + b);
        let rest = space.drop_first();
        if rest.len() > 0 {
            assert forall|i: int| 0 <= i < rest.len() implies is_space(#[trigger] rest[i]) by {
                assert(rest[i] == space[i + 1]);
            }
            white_space_parts_words(a, rest, b);
            assert(a + rest + b =~= rest + b);
        } else {
            assert(rest + b =~= b);
        }
        assert(words(a) + words(b) =~= words(b));
    } else if is_space(a[0]) {
        assert(all.drop_first() =~= a.drop_first() + space + b);
        white_space_parts_words(a.drop_first(), space, b);
    } else {
        let n = word_len(a);
        assert(is_space(space[0]));
        assert(a + (space + b) =~= all);
        word_ends_at_space(a, space + b);
        assert(all.take(n as int) =~= a.take(n as int));
        assert(all.skip(n as int) =~= a.skip(n as int) + space + b);
        white_space_parts_words(a.skip(n as int), space, b);
        assert(words(all) =~= words(a) + words(b));
    }
}

/// A character with small ASCII letters made capitals.
pub open spec fn ascii_upper(c: char) -> char {
    if 'a' <= c <= 'z' {
        (c as u8 - 32) as char
    } else {
        c
    }
}

/// The text with small ASCII letters made capitals.
pub open spec fn ascii_uppered(s: Seq<char>) -> Seq<char> {
    Seq::new(s.len(), |i: int| ascii_upper(s[i]))
}

proof fn word_len_ignores_case(s: Seq<char>)
    ensures
        word_len(ascii_uppered(s)) == word_len(s),
    decreases s.len(),
{
    if s.len() > 0 {
        assert(ascii_uppered(s).drop_first() =~= ascii_uppered(s.drop_first()));
        word_len_ignores_case(s.drop_first());
    }
}

proof fn word_len_is_within(s: Seq<char>)
    ensures
        word_len(s) <= s.len(),
    decreases s.len(),
{
    if s.len() > 0 {
        word_len_is_within(s.drop_first());
    }
}

/// The words of ASCII text in small letters are the same, whether the text is in capitals or not.
pub proof fn case_parts_no_words(s: Seq<char>)
    requires
        is_ascii_text(s),
    ensures
        words(ascii_uppered(s)).len() == words(s).len(),
        forall|i: int|
            0 <= i < words(s).len() ==> lowered(#[trigger] words(ascii_uppered(s))[i]) == lowered(
                words(s)[i],
            ),
    decreases s.len(),
{
    let up = ascii_uppered(s);
    if s.len() == 0 {
        assert(up =~= s);
    } else if is_space(s[0]) {
        assert(up.drop_first() =~= ascii_uppered(s.drop_first()));
        assert forall|i: int| 0 <= i < s.drop_first().len() implies (#[trigger] s.drop_first()[i]
            as u32) < 128 by {
            assert(s.drop_first()[i] == s[i + 1]);
        }
        case_parts_no_words(s.drop_first());
    } else {
        let n = word_len(s) as int;
        word_len_ignores_case(s);
        word_len_is_within(s);
        let rest = s.skip(n);
        assert(up.skip(n) =~= ascii_uppered(rest));
        assert forall|i: int| 0 <= i < rest.len() implies (#[trigger] rest[i] as u32) < 128 by {
            assert(rest[i] == s[i + n]);
        }
        case_parts_no_words(rest);
        let word = s.take(n);
        let loud = up.take(n);
        assert(is_ascii_text(word));
        assert forall|i: int| 0 <= i < loud.len() implies (#[trigger] loud[i] as u32) < 128 by {
            assert(loud[i] == ascii_upper(s[i]));
        }
        assert(ascii_lowered(loud) =~= ascii_lowered(word));
        assert forall|i: int| 0 <= i < words(s).len() implies lowered(#[trigger] words(up)[i])
            == lowered(words(s)[i]) by {
            if i > 0 {
                assert(words(up)[i] == words(ascii_uppered(rest))[i - 1]);
                assert(words(s)[i] == words(rest)[i - 1]);
            } else {
                assert(words(up)[0] == loud);
                assert(words(s)[0] == word);
            }
        }
    }
}

/// Splits a text at white space.
pub fn split_words(s: &str) -> (r: Vec<String>)
    ensures
        views(r@) == words(s@),
{
    let chars = chars_of(s);
    let mut r: Vec<String> = Vec::new();
    let mut from: usize = 0;
    assert(s@.skip(0) == s@);
    while from < chars.len()
        invariant
            chars@ == s@,
            from <= chars@.len(),
            words(s@) == views(r@) + words(s@.skip(from as int)),
        decreases chars@.len() - from,
    {
        if char_is_space(chars[from]) {
            assert(s@.skip(from as int).drop_first() =~= s@.skip(from + 1));
            from = from + 1;
        } else {
            let mut to: usize = from;
            let ghost rest = s@.skip(from as int);
            while to < chars.len() && !char_is_space(chars[to])
                invariant
                    chars@ == s@,
                    from <= to <= chars@.len(),
                    rest == s@.skip(from as int),
                    word_len(rest) == (to - from) + word_len(s@.skip(to as int)),
                decreases chars@.len() - to,
            {
                assert(s@.skip(to as int).drop_first() =~= s@.skip(to + 1));
                to = to + 1;
            }
            assert(word_len(rest) == to - from);
            let word = string_of_range(chars.as_slice(), from, to);
            let ghost before = r@;
            r.push(word);
            assert(views(r@) =~= views(before).push(word@));
            assert(word@ =~= rest.take(to - from));
            assert(rest.skip(to - from) =~= s@.skip(to as int));
            assert(views(before) + (seq![word@] + words(s@.skip(to as int))) =~= views(r@)
                + words(s@.skip(to as int)));
            from = to;
        }
    }
    assert(views(r@) + Seq::<Seq<char>>::empty() =~= views(r@));
    r
}

/// Tells whether each text of a list stands somewhere in `text`.
pub open spec fn all_occur(text: Seq<char>, needles: Seq<Seq<char>>) -> bool {
    forall|i: int| 0 <= i < needles.len() ==> occurs_in(text, #[trigger] needles[i])
}

/// Searches for each text of a list inside another.
pub fn contains_all(text: &str, needles: &Vec<String>) -> (r: bool)
    ensures
        r == all_occur(text@, views(needles@)),
{
    for i in 0..needles.len()
        invariant
            forall|k: int| 0 <= k < i ==> occurs_in(text@, #[trigger] views(needles@)[k]),
    {
        assert(views(needles@)[i as int] == needles@[i as int]@);
        if !contains(text, needles[i].as_str()) {
            return false;
        }
    }
    true
}

/// The texts of a list, one behind the other with a separator between them.
pub open spec fn joined(list: Seq<Seq<char>>, sep: Seq<char>) -> Seq<char>
    decreases list.len(),
{
    if list.len() == 0 {
        Seq::empty()
    } else if list.len() == 1 {
        list[0]
    } else {
        joined(list.drop_last(), sep) + sep + list.last()
    }
}

/// Joins the texts of a list with a separator.
pub fn join(list: &[String], sep: &str) -> (r: String)
    ensures
        r@ == joined(views(list@), sep@),
{
    let mut r = String::new();
    for i in 0..list.len()
        invariant
            r@ == joined(views(list@).take(i as int), sep@),
    {
        let ghost next = views(list@).take(i as int + 1);
        assert(next.drop_last() =~= views(list@).take(i as int));
        assert(next.last() == list@[i as int]@);
        if i == 0 {
            assert(r@ =~= Seq::<char>::empty());
            r.append(list[i].as_str());
            assert(r@ =~= list@[i as int]@);
        } else {
            r.append(sep);
            r.append(list[i].as_str());
        }
    }
    assert(views(list@).take(list@.len() as int) =~= views(list@));
    r
}

/// The text of the first argument followed by that of the second.
pub fn concat(a: &str, b: &str) -> (r: String)
    ensures
        r@ == a@ + b@,
{
    let mut r = a.to_string();
    r.append(b);
    r
}

/// The texts of the three arguments, one behind the other.
pub fn concat3(a: &str, b: &str, c: &str) -> (r: String)
    ensures
        r@ == a@ + b@ + c@,
{
    let mut r = a.to_string();
    r.append(b);
    r.append(c);
    r
}

// ---------------------------------------------------------------------------
// Numbers
// ---------------------------------------------------------------------------
/// The decimal digits of a number, without leading zeros.
pub open spec fn decimal(n: nat) -> Seq<char>
    decreases n,
{
    if n < 10 {
        seq![digit_char(n)]
    } else {
        decimal(n / 10).push(digit_char(n % 10))
    }
}

/// Two numbers with the same digits are the same.
pub proof fn decimal_tells_apart(a: nat, b: nat)
    requires
        decimal(a) == decimal(b),
    ensures
        a == b,
    decreases a,
{
    has_digits(a);
    has_digits(b);
    if a >= 10 && b >= 10 {
        assert(decimal(a).drop_last() =~= decimal(a / 10));
        assert(decimal(b).drop_last() =~= decimal(b / 10));
        decimal_tells_apart(a / 10, b / 10);
        assert(decimal(a).last() == digit_char(a % 10));
        assert(decimal(b).last() == digit_char(b % 10));
        assert(a % 10 == b % 10);
    } else {
        has_digits(a / 10);
        has_digits(b / 10);
        assert(a < 10 && b < 10);
        assert(decimal(a)[0] == digit_char(a));
        assert(decimal(b)[0] == digit_char(b));
    }
}

proof fn has_digits(n: nat)
    ensures
        decimal(n).len() > 0,
{
}

/// Writes a number in decimal.
pub fn decimal_text(n: u64) -> (r: String)
    ensures
        r@ == decimal(n as nat),
    decreases n,
{
    if n < 10 {
        let mut r = String::new();
        r.push((48u8 + n as u8) as char);
        assert(r@ =~= seq![digit_char(n as nat)]);
        r
    } else {
        let mut r = decimal_text(n / 10);
        r.push((48u8 + (n % 10) as u8) as char);
        r
    }
}

/// The number that a row of decimal digits stands for.
pub open spec fn digits_value(s: Seq<char>) -> nat
    decreases s.len(),
{
    if s.len() == 0 {
        0
    } else {
        digits_value(s.drop_last()) * 10 + digit_value(s.last())
    }
}

/// Tells whether every character is an ASCII digit.
pub open spec fn all_digits(s: Seq<char>) -> bool {
    forall|i: int| 0 <= i < s.len() ==> is_digit(#[trigger] s[i])
}

/// The number that a text writes in decimal, with an optional `+` before the
/// digits, where it is at most `max`.
pub open spec fn parsed(s: Seq<char>, max: nat) -> Option<nat> {
    let digits = if s.len() > 0 && s[0] == '+' {
        s.drop_first()
    } else {
        s
    };
    if digits.len() > 0 && all_digits(digits) && digits_value(digits) <= max {
        Some(digits_value(digits))
    } else {
        None
    }
}

proof fn digits_value_grows(s: Seq<char>, n: int)
    requires
        0 <= n <= s.len(),
        all_digits(s),
    ensures
        digits_value(s.take(n)) <= digits_value(s),
    decreases s.len(),
{
    if n == s.len() {
        assert(s.take(n) =~= s);
    } else {
        assert(s.drop_last().take(n) =~= s.take(n));
        digits_value_grows(s.drop_last(), n);
    }
}

/// Reads a number in decimal that is at most `max`.
pub fn parse_decimal(s: &str, max: u64) -> (r: Option<u64>)
    ensures
        match r {
            Some(n) => parsed(s@, max as nat) == Some(n as nat),
            None => parsed(s@, max as nat) is None,
        },
{
    let chars = chars_of(s);
    let from: usize = if chars.len() > 0 && chars[0] == '+' {
        1
    } else {
        0
    };
    let ghost digits = s@.skip(from as int);
    assert(from == 1 ==> digits =~= s@.drop_first());
    assert(from == 0 ==> digits =~= s@);
    if from == chars.len() {
        return None;
    }
    let mut value: u64 = 0;
    for i in from..chars.len()
        invariant
            chars@ == s@,
            from <= i <= chars@.len(),
            digits == s@.skip(from as int),
            parsed(s@, max as nat) == (if digits.len() > 0 && all_digits(digits) && digits_value(
                digits,
            ) <= max {
                Some(digits_value(digits))
            } else {
                None
            }),
            all_digits(digits.take(i - from)),
            value == digits_value(digits.take(i - from)),
            value <= max,
    {
        let c = chars[i];
        assert(digits[i - from] == c);
        if c < '0' || c > '9' {
            assert(!is_digit(digits[i - from]));
            return None;
        }
        let d: u64 = (c as u32 - 48) as u64;
        let ghost next = digits.take(i - from + 1);
        assert(next.drop_last() =~= digits.take(i - from));
        assert(next.last() == c);
        assert(digits_value(next) == value * 10 + d);
        let wide: u128 = value as u128 * 10 + d as u128;
        if wide > max as u128 {
            proof {
                if all_digits(digits) {
                    digits_value_grows(digits, i - from + 1);
                }
            }
            return None;
        }
        value = wide as u64;
    }
    assert(digits.take(chars@.len() - from) =~= digits);
    Some(value)
}

} // verus!
