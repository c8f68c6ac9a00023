//! Character classes and the English-text test applied to copied text.
use vstd::prelude::*;
use vstd::std_specs::iter::IteratorSpec;

verus! {

broadcast use vstd::string::group_string_axioms;

/// The Unicode `White_Space` property (PropList.txt), the set that
/// `char::is_whitespace` and `str::trim` go by.
pub open spec fn is_white_space(c: char) -> bool {
    let u = c as u32;
    ||| 0x09 <= u <= 0x0d
    ||| u == 0x20
    ||| u == 0x85
    ||| u == 0xa0
    ||| u == 0x1680
    ||| 0x2000 <= u <= 0x200a
    ||| u == 0x2028
    ||| u == 0x2029
    ||| u == 0x202f
    ||| u == 0x205f
    ||| u == 0x3000
}

/// The punctuation and symbols that the English test passes over.
pub open spec fn is_common_punctuation(c: char) -> bool {
    ||| c == '.' || c == ',' || c == '!' || c == '?' || c == ';' || c == ':'
    ||| c == '\'' || c == '"' || c == '(' || c == ')' || c == '-' || c == '['
    ||| c == ']' || c == '{' || c == '}' || c == '/' || c == '\\' || c == '_'
    ||| c == '+' || c == '=' || c == '*' || c == '&' || c == '^' || c == '%'
    ||| c == '$' || c == '#' || c == '@' || c == '~' || c == '`' || c == '|'
    ||| c == '<' || c == '>'
}

/// A character that the English test does not count at all.
pub open spec fn is_skipped(c: char) -> bool {
    is_white_space(c) || is_common_punctuation(c)
}

/// `A`..`Z` or `a`..`z`.
pub open spec fn is_ascii_letter(c: char) -> bool {
    ('a' <= c && c <= 'z') || ('A' <= c && c <= 'Z')
}

/// How many characters of `s` the English test counts.
pub open spec fn counted_chars(s: Seq<char>) -> nat
    decreases s.len(),
{
    if s.len() == 0 {
        0
    } else {
        counted_chars(s.drop_last()) + if is_skipped(s.last()) {
            0nat
        } else {
            1nat
        }
    }
}

/// How many characters of `s` are ASCII letters.
pub open spec fn letter_chars(s: Seq<char>) -> nat
    decreases s.len(),
{
    if s.len() == 0 {
        0
    } else {
        letter_chars(s.drop_last()) + if is_ascii_letter(s.last()) {
            1nat
        } else {
            0nat
        }
    }
}

/// Text counts as English when it holds at least one ASCII letter and the
/// letters make up at least 60% of the characters that are neither white
/// space nor common punctuation.
pub open spec fn english_text(s: Seq<char>) -> bool {
    letter_chars(s) > 0 && 100 * letter_chars(s) >= 60 * counted_chars(s)
}

/// `s` with its leading white space removed.
pub open spec fn trim_start(s: Seq<char>) -> Seq<char>
    decreases s.len(),
{
    if s.len() > 0 && is_white_space(s[0]) {
        trim_start(s.drop_first())
    } else {
        s
    }
}

/// `s` with its trailing white space removed.
pub open spec fn trim_end(s: Seq<char>) -> Seq<char>
    decreases s.len(),
{
    if s.len() > 0 && is_white_space(s.last()) {
        trim_end(s.drop_last())
    } else {
        s
    }
}

/// `s` with leading and trailing white space removed.
pub open spec fn trim(s: Seq<char>) -> Seq<char> {
    trim_end(trim_start(s))
}

/// Whether `c` has the Unicode `White_Space` property.
pub fn is_white_space_char(c: char) -> (r: bool)
    ensures
        r == is_white_space(c),
{
    let u = c as u32;
    (0x09 <= u && u <= 0x0d) || u == 0x20 || u == 0x85 || u == 0xa0 || u == 0x1680 || (0x2000
        <= u && u <= 0x200a) || u == 0x2028 || u == 0x2029 || u == 0x202f || u == 0x205f || u
        == 0x3000
}

fn is_common_punctuation_char(c: char) -> (r: bool)
    ensures
        r == is_common_punctuation(c),
{
    c == '.' || c == ',' || c == '!' || c == '?' || c == ';' || c == ':' || c == '\'' || c == '"'
        || c == '(' || c == ')' || c == '-' || c == '[' || c == ']' || c == '{' || c == '}' || c
        == '/' || c == '\\' || c == '_' || c == '+' || c == '=' || c == '*' || c == '&' || c
        == '^' || c == '%' || c == '$' || c == '#' || c == '@' || c == '~' || c == '`' || c
        == '|' || c == '<' || c == '>'
}

/// Detects whether `text` is English: among the characters that are neither
/// white space nor common punctuation, ASCII letters make up at least 60%,
/// and there is at least one letter (so text made only of digits or symbols
/// is not English).
pub fn is_english_text(text: &str) -> (r: bool)
    ensures
        r == english_text(text@),
{
    let n = text.unicode_len();
    let mut total: usize = 0;
    let mut alpha: usize = 0;
    let mut i: usize = 0;
    for c in it: text.chars()
        invariant
            n == text@.len(),
            it.seq() == text@,
            i == it.index(),
            total == counted_chars(text@.take(i as int)),
            alpha == letter_chars(text@.take(i as int)),
            alpha <= total <= i <= n,
    {
        proof {
            assert(text@.take(i + 1).drop_last() == text@.take(i as int));
        }
        if !(is_white_space_char(c) || is_common_punctuation_char(c)) {
            total += 1;
            if ('a' <= c && c <= 'z') || ('A' <= c && c <= 'Z') {
                alpha += 1;
            }
        }
        i += 1;
    }
    proof {
        assert(text@.take(i as int) == text@);
    }
    if alpha == 0 {
        return false;
    }
    (alpha as u128) * 100 >= (total as u128) * 60
}

/// Dropping `a` leading white-space characters does not change what
/// `trim_start` gives.
proof fn lemma_trim_start_skip(s: Seq<char>, a: int)
    requires
        0 <= a <= s.len(),
        forall|k: int| 0 <= k < a ==> is_white_space(#[trigger] s[k]),
    ensures
        trim_start(s) == trim_start(s.skip(a)),
    decreases a,
{
    if a == 0 {
        assert(s.skip(0) == s);
    } else {
        assert(is_white_space(s[0]));
        let t = s.drop_first();
        assert forall|k: int| 0 <= k < a - 1 implies is_white_space(#[trigger] t[k]) by {
            assert(t[k] == s[k + 1]);
        }
        lemma_trim_start_skip(t, a - 1);
        assert(t.skip(a - 1) == s.skip(a));
    }
}

/// Dropping trailing white-space characters from position `b` on does not
/// change what `trim_end` gives.
proof fn lemma_trim_end_take(s: Seq<char>, b: int)
    requires
        0 <= b <= s.len(),
        forall|k: int| b <= k < s.len() ==> is_white_space(#[trigger] s[k]),
    ensures
        trim_end(s) == trim_end(s.take(b)),
    decreases s.len() - b,
{
    if b == s.len() {
        assert(s.take(b) == s);
    } else {
        assert(is_white_space(s[s.len() - 1]));
        let t = s.drop_last();
        assert forall|k: int| b <= k < t.len() implies is_white_space(#[trigger] t[k]) by {
            assert(t[k] == s[k]);
        }
        lemma_trim_end_take(t, b);
        assert(t.take(b) == s.take(b));
    }
}

/// Text made only of white space trims to nothing.
proof fn lemma_trim_all_white(s: Seq<char>)
    requires
        forall|k: int| 0 <= k < s.len() ==> is_white_space(#[trigger] s[k]),
    ensures
        trim(s) == Seq::<char>::empty(),
{
    lemma_trim_start_skip(s, s.len() as int);
    let e = s.skip(s.len() as int);
    assert(e.len() == 0);
    assert(trim_start(e) == e);
    assert(trim_end(e) == e);
    assert(e == Seq::<char>::empty());
}

/// Where `first` is the first and `end - 1` the last character of `s` that is
/// not white space, trimming gives the characters from `first` up to `end`.
proof fn lemma_trim_bounds(s: Seq<char>, first: int, end: int)
    requires
        0 <= first < end <= s.len(),
        forall|k: int| 0 <= k < first ==> is_white_space(#[trigger] s[k]),
        forall|k: int| end <= k < s.len() ==> is_white_space(#[trigger] s[k]),
        !is_white_space(s[first]),
        !is_white_space(s[end - 1]),
    ensures
        trim(s) == s.subrange(first, end),
{
    lemma_trim_start_skip(s, first);
    let t = s.skip(first);
    assert(t[0] == s[first]);
    assert(trim_start(t) == t);
    let b = end - first;
    assert forall|k: int| b <= k < t.len() implies is_white_space(#[trigger] t[k]) by {
        assert(t[k] == s[k + first]);
    }
    lemma_trim_end_take(t, b);
    let u = t.take(b);
    assert(u.last() == s[end - 1]);
    assert(trim_end(u) == u);
    assert(u == s.subrange(first, end));
}

/// Returns `text` with leading and trailing white space removed, as
/// `str::trim` does.
pub fn trim_text(text: &str) -> (r: String)
    ensures
        r@ == trim(text@),
{
    let n = text.unicode_len();
    let mut first: usize = 0;
    let mut end: usize = 0;
    let mut found = false;
    let mut i: usize = 0;
    for c in it: text.chars()
        invariant
            n == text@.len(),
            it.seq() == text@,
            i == it.index(),
            i <= n,
            !found ==> forall|k: int| 0 <= k < i ==> is_white_space(#[trigger] text@[k]),
            found ==> {
                &&& first < end <= i
                &&& !is_white_space(text@[first as int])
                &&& !is_white_space(text@[end - 1])
                &&& forall|k: int| 0 <= k < first ==> is_white_space(#[trigger] text@[k])
                &&& forall|k: int| end <= k < i ==> is_white_space(#[trigger] text@[k])
            },
    {
        if !is_white_space_char(c) {
            if !found {
                first = i;
                found = true;
            }
            end = i + 1;
        }
        i += 1;
    }
    if !found {
        proof {
            lemma_trim_all_white(text@);
        }
        String::new()
    } else {
        proof {
            lemma_trim_bounds(text@, first as int, end as int);
        }
        let part = text.substring_char(first, end);
        String::from_str(part)
    }
}

/// Whether two pieces of text hold the same characters.
pub fn text_equals(a: &str, b: &str) -> (r: bool)
    ensures
        r == (a@ == b@),
{
    let mut ia = a.chars();
    let mut ib = b.chars();
    let ghost mut k: int = 0;
    loop
        invariant
            0 <= k <= a@.len(),
            k <= b@.len(),
            ia.remaining() == a@.skip(k),
            ib.remaining() == b@.skip(k),
            a@.take(k) == b@.take(k),
        decreases a@.len() - k,
    {
        let x = ia.next();
        let y = ib.next();
        match (x, y) {
            (Some(p), Some(q)) => {
                if p != q {
                    proof {
                        assert(a@[k] == p && b@[k] == q);
                    }
                    return false;
                }
                proof {
                    assert(a@.take(k + 1) == a@.take(k).push(p));
                    assert(b@.take(k + 1) == b@.take(k).push(q));
                    assert(ia.remaining() == a@.skip(k + 1));
                    assert(ib.remaining() == b@.skip(k + 1));
                    k = k + 1;
                }
            },
            (None, None) => {
                proof {
                    assert(a@.take(k) == a@);
                    assert(b@.take(k) == b@);
                }
                return true;
            },
            _ => {
                proof {
                    assert(a@.len() != b@.len());
                }
                return false;
            },
        }
    }
}

/// The counts of a concatenation are the sums of the counts of its parts.
proof fn lemma_counts_append(s: Seq<char>, t: Seq<char>)
    ensures
        counted_chars(s + t) == counted_chars(s) + counted_chars(t),
        letter_chars(s + t) == letter_chars(s) + letter_chars(t),
    decreases t.len(),
{
    if t.len() == 0 {
        assert(s + t == s);
    } else {
        assert((s + t).drop_last() == s + t.drop_last());
        assert((s + t).last() == t.last());
        lemma_counts_append(s, t.drop_last());
    }
}

/// Leading white space counts for nothing.
proof fn lemma_counts_trim_start(s: Seq<char>)
    ensures
        counted_chars(trim_start(s)) == counted_chars(s),
        letter_chars(trim_start(s)) == letter_chars(s),
    decreases s.len(),
{
    if s.len() > 0 && is_white_space(s[0]) {
        let head = seq![s[0]];
        assert(s == head + s.drop_first());
        lemma_counts_append(head, s.drop_first());
        assert(head.drop_last() == Seq::<char>::empty());
        assert(counted_chars(Seq::<char>::empty()) == 0);
        assert(letter_chars(Seq::<char>::empty()) == 0);
        assert(head.last() == s[0]);
        assert(counted_chars(head) == 0);
        assert(letter_chars(head) == 0);
        lemma_counts_trim_start(s.drop_first());
    }
}

/// Trailing white space counts for nothing.
proof fn lemma_counts_trim_end(s: Seq<char>)
    ensures
        counted_chars(trim_end(s)) == counted_chars(s),
        letter_chars(trim_end(s)) == letter_chars(s),
    decreases s.len(),
{
    if s.len() > 0 && is_white_space(s.last()) {
        lemma_counts_trim_end(s.drop_last());
    }
}

/// White space around the text does not change whether it is English, so
/// testing the copied text and sending it trimmed agree.
pub proof fn lemma_english_ignores_surrounding_white_space(s: Seq<char>)
    ensures
        english_text(trim(s)) == english_text(s),
{
    lemma_counts_trim_start(s);
    lemma_counts_trim_end(trim_start(s));
}

/// Every character from `a` to `z` and from `A` to `Z`, and no other, adds
/// one to the letter count; the empty text has no letters.
pub proof fn lemma_letter_count_step(s: Seq<char>, c: char)
    ensures
        letter_chars(Seq::<char>::empty()) == 0,
        letter_chars(s.push(c)) == letter_chars(s) + if ('a' <= c && c <= 'z') || ('A' <= c
            && c <= 'Z') {
            1int
        } else {
            0int
        },
{
    assert(s.push(c).drop_last() == s);
    assert(s.push(c).last() == c);
}

/// In text made of ASCII letters and spaces, every counted character is a
/// letter, and there is a letter exactly when some character is not a space.
proof fn lemma_letters_and_spaces_counts(s: Seq<char>)
    requires
        forall|i: int|
            0 <= i < s.len() ==> ('a' <= #[trigger] s[i] && s[i] <= 'z') || ('A' <= s[i] && s[i]
                <= 'Z') || s[i] == ' ',
    ensures
        letter_chars(s) == counted_chars(s),
        letter_chars(s) > 0 <==> exists|i: int| 0 <= i < s.len() && #[trigger] s[i] != ' ',
    decreases s.len(),
{
    if s.len() > 0 {
        let t = s.drop_last();
        assert forall|i: int| 0 <= i < t.len() implies ('a' <= #[trigger] t[i] && t[i] <= 'z')
            || ('A' <= t[i] && t[i] <= 'Z') || t[i] == ' ' by {
            assert(t[i] == s[i]);
        }
        lemma_letters_and_spaces_counts(t);
        let c = s.last();
        assert(c == s[s.len() - 1]);
        if exists|i: int| 0 <= i < s.len() && #[trigger] s[i] != ' ' {
            if c == ' ' {
                let i = choose|i: int| 0 <= i < s.len() && #[trigger] s[i] != ' ';
                assert(i < s.len() - 1);
                assert(t[i] == s[i]);
            }
        }
        if exists|i: int| 0 <= i < t.len() && #[trigger] t[i] != ' ' {
            let i = choose|i: int| 0 <= i < t.len() && #[trigger] t[i] != ' ';
            assert(s[i] == t[i]);
        }
    }
}

/// Text made only of ASCII letters (capital or small) and spaces, with at
/// least one letter, is English.
pub proof fn lemma_ascii_letters_and_spaces_are_english(s: Seq<char>)
    requires
        forall|i: int|
            0 <= i < s.len() ==> ('a' <= #[trigger] s[i] && s[i] <= 'z') || ('A' <= s[i] && s[i]
                <= 'Z') || s[i] == ' ',
        exists|i: int| 0 <= i < s.len() && #[trigger] s[i] != ' ',
    ensures
        english_text(s),
{
    lemma_letters_and_spaces_counts(s);
}

/// The characters passed over by the English test are exactly the Unicode
/// white space (U+0009..U+000D, U+0020, U+0085, U+00A0, U+1680,
/// U+2000..U+200A, U+2028, U+2029, U+202F, U+205F, U+3000) and the
/// punctuation `.,!?;:'"()-[]{}/\_+=*&^%$#@~`|<>`; every other character adds
/// one to the count, and the empty text counts nothing.
pub proof fn lemma_counted_step(s: Seq<char>, c: char)
    ensures
        counted_chars(Seq::<char>::empty()) == 0,
        counted_chars(s.push(c)) == counted_chars(s) + if ({
            let u = c as u32;
            ||| 0x09 <= u <= 0x0d
            ||| u == 0x20 || u == 0x85 || u == 0xa0 || u == 0x1680
            ||| 0x2000 <= u <= 0x200a
            ||| u == 0x2028 || u == 0x2029 || u == 0x202f || u == 0x205f || u == 0x3000
            ||| c == '.' || c == ',' || c == '!' || c == '?' || c == ';' || c == ':'
            ||| c == '\'' || c == '"' || c == '(' || c == ')' || c == '-' || c == '['
            ||| c == ']' || c == '{' || c == '}' || c == '/' || c == '\\' || c == '_'
            ||| c == '+' || c == '=' || c == '*' || c == '&' || c == '^' || c == '%'
            ||| c == '$' || c == '#' || c == '@' || c == '~' || c == '`' || c == '|'
            ||| c == '<' || c == '>'
        }) {
            0int
        } else {
            1int
        },
{
    assert(s.push(c).drop_last() == s);
    assert(s.push(c).last() == c);
}

/// Text is English exactly when it has a letter and letters make up at least
/// three fifths of the counted characters; letters are always counted.
pub proof fn lemma_english_threshold(s: Seq<char>)
    ensures
        letter_chars(s) <= counted_chars(s),
        english_text(s) <==> letter_chars(s) > 0 && 5 * letter_chars(s) >= 3 * counted_chars(s),
    decreases s.len(),
{
    if s.len() > 0 {
        lemma_english_threshold(s.drop_last());
    }
}

} // verus!
