//! Turns free-form text into a sequence of classified tokens.
//!
//! Text is lowercased, split into maximal runs of word characters
//! (letters, digits and the date separators `.`, `-`, `/`), and each
//! run is classified: known English words (weekday and month names,
//! spelled numbers, the keywords the recognizers look for), digit runs,
//! and numeric date shapes such as `5.12.2026`.

use vstd::prelude::*;

use crate::dates::Weekday;
use crate::language::shared::Month;

verus! {

/// A classified word of the input text.
#[derive(Clone, Copy, Debug, PartialEq, Eq, Structural)]
pub enum Token {
    /// The word "today".
    KeyToday,
    /// The word "tomorrow".
    KeyTomorrow,
    /// The word "yesterday".
    KeyYesterday,
    /// A weekday name, abbreviated or full.
    WeekdayName(Weekday),
    /// A month name, abbreviated or full.
    MonthName(Month),
    /// "next" (1), "this" (0) or "last" (-1).
    Rel(i32),
    /// "week" or "weeks".
    WeekUnit,
    /// "day" or "days".
    DayUnit,
    /// "month" or "months".
    MonthUnit,
    /// The word "in".
    InWord,
    /// The word "on".
    OnWord,
    /// The word "of".
    OfWord,
    /// A spelled number "one" through "twelve".
    NumWord(u32),
    /// A run of 1 to 4 digits, optionally followed by "th".
    Digits { value: u32, len: u32, th: bool },
    /// Two separated short digit runs, e.g. `5.12`.
    NumPair { a: u32, b: u32 },
    /// Two short digit runs and a four-digit year, e.g. `5.12.2026`.
    NumPairYear { a: u32, b: u32, year: u32 },
    /// A short digit run and a four-digit year, e.g. `12.2026`.
    NumYear { a: u32, year: u32 },
    /// Anything else.
    Other,
}

/// A date separator character.
pub open spec fn is_sep(c: char) -> bool {
    c == '.' || c == '-' || c == '/'
}

/// An ASCII decimal digit.
pub open spec fn is_digit(c: char) -> bool {
    48 <= c as u32 <= 57
}

/// An ASCII lowercase letter.
pub open spec fn is_lower_alpha(c: char) -> bool {
    97 <= c as u32 <= 122
}

/// A character that belongs to a token rather than separating tokens.
pub open spec fn is_token_char(c: char) -> bool {
    is_lower_alpha(c) || is_digit(c) || is_sep(c) || c == '_'
}

/// The numeric value of a digit character.
pub open spec fn digit_val(c: char) -> int {
    c as u32 - 48
}

/// Lowercases an ASCII letter and leaves every other character alone.
pub open spec fn lower_char(c: char) -> char {
    if c == 'A' {
        'a'
    } else if c == 'B' {
        'b'
    } else if c == 'C' {
        'c'
    } else if c == 'D' {
        'd'
    } else if c == 'E' {
        'e'
    } else if c == 'F' {
        'f'
    } else if c == 'G' {
        'g'
    } else if c == 'H' {
        'h'
    } else if c == 'I' {
        'i'
    } else if c == 'J' {
        'j'
    } else if c == 'K' {
        'k'
    } else if c == 'L' {
        'l'
    } else if c == 'M' {
        'm'
    } else if c == 'N' {
        'n'
    } else if c == 'O' {
        'o'
    } else if c == 'P' {
        'p'
    } else if c == 'Q' {
        'q'
    } else if c == 'R' {
        'r'
    } else if c == 'S' {
        's'
    } else if c == 'T' {
        't'
    } else if c == 'U' {
        'u'
    } else if c == 'V' {
        'v'
    } else if c == 'W' {
        'w'
    } else if c == 'X' {
        'x'
    } else if c == 'Y' {
        'y'
    } else if c == 'Z' {
        'z'
    } else {
        c
    }
}

/// The text with every ASCII letter lowercased.
pub open spec fn spec_lower(s: Seq<char>) -> Seq<char> {
    Seq::new(s.len(), |i: int| lower_char(s[i]))
}

/// First index at or after `i` that does not continue a token.
pub open spec fn tok_end(cs: Seq<char>, i: int) -> int
    decreases cs.len() - i,
{
    if i >= cs.len() || !is_token_char(cs[i]) {
        i
    } else {
        tok_end(cs, i + 1)
    }
}

/// First index at or after `i` holding a character that is no separator.
pub open spec fn trim_start_idx(w: Seq<char>, i: int) -> int
    decreases w.len() - i,
{
    if i >= w.len() || !is_sep(w[i]) {
        i
    } else {
        trim_start_idx(w, i + 1)
    }
}

/// Last index at or before `j` such that no separator sits right before it.
pub open spec fn trim_end_idx(w: Seq<char>, j: int) -> int
    decreases j,
{
    if j <= 0 {
        0
    } else if is_sep(w[j - 1]) {
        trim_end_idx(w, j - 1)
    } else {
        j
    }
}

/// The word with leading and trailing separators removed.
pub open spec fn spec_trim(w: Seq<char>) -> Seq<char> {
    let a = trim_start_idx(w, 0);
    if a >= w.len() {
        Seq::empty()
    } else {
        w.subrange(a, trim_end_idx(w, w.len() as int))
    }
}

/// First index at or after `i` that holds no digit.
pub open spec fn digit_run_end(w: Seq<char>, i: int) -> int
    decreases w.len() - i,
{
    if i >= w.len() || !is_digit(w[i]) {
        i
    } else {
        digit_run_end(w, i + 1)
    }
}

/// The number written by the digits of `w` between `i` and `j`.
pub open spec fn num_val(w: Seq<char>, i: int, j: int) -> int
    decreases j - i,
{
    if j <= i {
        0
    } else {
        num_val(w, i, j - 1) * 10 + digit_val(w[j - 1])
    }
}

/// Whether every character of the word is a lowercase letter.
pub open spec fn all_lower_alpha(w: Seq<char>) -> bool {
    forall|k: int| 0 <= k < w.len() ==> #[trigger] is_lower_alpha(w[k])
}

/// Classifies a word made only of letters.
pub open spec fn word_token(w: Seq<char>) -> Token {
    if w == "today"@ {
        Token::KeyToday
    } else if w == "tomorrow"@ {
        Token::KeyTomorrow
    } else if w == "yesterday"@ {
        Token::KeyYesterday
    } else if w == "next"@ {
        Token::Rel(1)
    } else if w == "this"@ {
        Token::Rel(0)
    } else if w == "last"@ {
        Token::Rel(-1i32)
    } else if w == "week"@ || w == "weeks"@ {
        Token::WeekUnit
    } else if w == "day"@ || w == "days"@ {
        Token::DayUnit
    } else if w == "month"@ || w == "months"@ {
        Token::MonthUnit
    } else if w == "in"@ {
        Token::InWord
    } else if w == "on"@ {
        Token::OnWord
    } else if w == "of"@ {
        Token::OfWord
    } else if w == "one"@ {
        Token::NumWord(1)
    } else if w == "two"@ {
        Token::NumWord(2)
    } else if w == "three"@ {
        Token::NumWord(3)
    } else if w == "four"@ {
        Token::NumWord(4)
    } else if w == "five"@ {
        Token::NumWord(5)
    } else if w == "six"@ {
        Token::NumWord(6)
    } else if w == "seven"@ {
        Token::NumWord(7)
    } else if w == "eight"@ {
        Token::NumWord(8)
    } else if w == "nine"@ {
        Token::NumWord(9)
    } else if w == "ten"@ {
        Token::NumWord(10)
    } else if w == "eleven"@ {
        Token::NumWord(11)
    } else if w == "twelve"@ {
        Token::NumWord(12)
    } else if w == "mon"@ || w == "monday"@ {
        Token::WeekdayName(Weekday::Mon)
    } else if w == "tue"@ || w == "tuesday"@ {
        Token::WeekdayName(Weekday::Tue)
    } else if w == "wed"@ || w == "wednesday"@ {
        Token::WeekdayName(Weekday::Wed)
    } else if w == "thu"@ || w == "thursday"@ {
        Token::WeekdayName(Weekday::Thu)
    } else if w == "fri"@ || w == "friday"@ {
        Token::WeekdayName(Weekday::Fri)
    } else if w == "sat"@ || w == "saturday"@ {
        Token::WeekdayName(Weekday::Sat)
    } else if w == "sun"@ || w == "sunday"@ {
        Token::WeekdayName(Weekday::Sun)
    } else if w == "jan"@ || w == "january"@ {
        Token::MonthName(Month::January)
    } else if w == "feb"@ || w == "february"@ {
        Token::MonthName(Month::February)
    } else if w == "mar"@ || w == "march"@ {
        Token::MonthName(Month::March)
    } else if w == "apr"@ || w == "april"@ {
        Token::MonthName(Month::April)
    } else if w == "may"@ {
        Token::MonthName(Month::May)
    } else if w == "jun"@ || w == "june"@ {
        Token::MonthName(Month::June)
    } else if w == "jul"@ || w == "july"@ {
        Token::MonthName(Month::July)
    } else if w == "aug"@ || w == "august"@ {
        Token::MonthName(Month::August)
    } else if w == "sep"@ || w == "september"@ {
        Token::MonthName(Month::September)
    } else if w == "oct"@ || w == "october"@ {
        Token::MonthName(Month::October)
    } else if w == "nov"@ || w == "november"@ {
        Token::MonthName(Month::November)
    } else if w == "dec"@ || w == "december"@ {
        Token::MonthName(Month::December)
    } else {
        Token::Other
    }
}

/// Classifies a word that starts with a digit.
pub open spec fn classify_numeric(w: Seq<char>) -> Token {
    let e1 = digit_run_end(w, 0);
    if e1 == w.len() {
        if e1 <= 4 {
            Token::Digits { value: num_val(w, 0, e1) as u32, len: e1 as u32, th: false }
        } else {
            Token::Other
        }
    } else if e1 <= 2 && w.len() == e1 + 2 && w[e1] == 't' && w[e1 + 1] == 'h' {
        Token::Digits { value: num_val(w, 0, e1) as u32, len: e1 as u32, th: true }
    } else if e1 <= 2 && is_sep(w[e1]) {
        let s2 = e1 + 1;
        let e2 = digit_run_end(w, s2);
        if e2 == w.len() {
            if e2 - s2 == 4 {
                Token::NumYear { a: num_val(w, 0, e1) as u32, year: num_val(w, s2, e2) as u32 }
            } else if 1 <= e2 - s2 <= 2 {
                Token::NumPair { a: num_val(w, 0, e1) as u32, b: num_val(w, s2, e2) as u32 }
            } else {
                Token::Other
            }
        } else if 1 <= e2 - s2 <= 2 && is_sep(w[e2]) {
            let s3 = e2 + 1;
            let e3 = digit_run_end(w, s3);
            if e3 == w.len() && e3 - s3 == 4 {
                Token::NumPairYear {
                    a: num_val(w, 0, e1) as u32,
                    b: num_val(w, s2, e2) as u32,
                    year: num_val(w, s3, e3) as u32,
                }
            } else {
                Token::Other
            }
        } else {
            Token::Other
        }
    } else {
        Token::Other
    }
}

/// Classifies a trimmed word.
pub open spec fn classify_core(w: Seq<char>) -> Token {
    if w.len() == 0 {
        Token::Other
    } else if all_lower_alpha(w) {
        word_token(w)
    } else if is_digit(w[0]) {
        classify_numeric(w)
    } else {
        Token::Other
    }
}

/// Classifies a raw word of the input.
pub open spec fn spec_classify(w: Seq<char>) -> Token {
    classify_core(spec_trim(w))
}

/// The tokens of the lowercased text from index `i` on.
pub open spec fn toks_from(cs: Seq<char>, i: int) -> Seq<Token>
    decreases cs.len() - i when 0 <= i via toks_from_decreases
{
    if i >= cs.len() {
        Seq::empty()
    } else if !is_token_char(cs[i]) {
        toks_from(cs, i + 1)
    } else {
        seq![spec_classify(cs.subrange(i, tok_end(cs, i)))] + toks_from(cs, tok_end(cs, i))
    }
}

#[via_fn]
proof fn toks_from_decreases(cs: Seq<char>, i: int) {
    if 0 <= i < cs.len() && is_token_char(cs[i]) {
        lemma_tok_end_bounds(cs, i);
    }
}

/// The token sequence of a text.
pub open spec fn spec_tokens(s: Seq<char>) -> Seq<Token> {
    toks_from(spec_lower(s), 0)
}

/// `tok_end` stays between its start and the end of the text, moves at
/// least one step on a token character, and is a maximal run.
pub proof fn lemma_tok_end_bounds(cs: Seq<char>, i: int)
    requires
        0 <= i <= cs.len(),
    ensures
        i <= tok_end(cs, i) <= cs.len(),
        i < cs.len() && is_token_char(cs[i]) ==> i + 1 <= tok_end(cs, i),
        forall|k: int| i <= k < tok_end(cs, i) ==> #[trigger] is_token_char(cs[k]),
        tok_end(cs, i) < cs.len() ==> !is_token_char(cs[tok_end(cs, i)]),
    decreases cs.len() - i,
{
    if i < cs.len() && is_token_char(cs[i]) {
        lemma_tok_end_bounds(cs, i + 1);
    }
}

/// Identifies `tok_end` from its characteristic properties.
pub proof fn lemma_tok_end_eq(cs: Seq<char>, i: int, j: int)
    requires
        0 <= i <= j <= cs.len(),
        forall|k: int| i <= k < j ==> #[trigger] is_token_char(cs[k]),
        j < cs.len() ==> !is_token_char(cs[j]),
    ensures
        tok_end(cs, i) == j,
    decreases j - i,
{
    if i < j {
        assert(is_token_char(cs[i]));
        lemma_tok_end_eq(cs, i + 1, j);
    }
}

/// `trim_end_idx` never walks past a non-separator character.
proof fn lemma_trim_end_ge(w: Seq<char>, a: int, j: int)
    requires
        0 <= a < j <= w.len(),
        !is_sep(w[a]),
    ensures
        a + 1 <= trim_end_idx(w, j) <= j,
    decreases j,
{
    if j - 1 > a && is_sep(w[j - 1]) {
        lemma_trim_end_ge(w, a, j - 1);
    }
}

/// Digit strings are non-negative and bounded by a power of ten.
pub proof fn lemma_num_val_bound(w: Seq<char>, i: int, j: int)
    requires
        forall|k: int| i <= k < j ==> #[trigger] is_digit(w[k]),
    ensures
        0 <= num_val(w, i, j),
        j - i <= 0 ==> num_val(w, i, j) == 0,
        j - i == 1 ==> num_val(w, i, j) < 10,
        j - i == 2 ==> num_val(w, i, j) < 100,
        j - i == 3 ==> num_val(w, i, j) < 1000,
        j - i == 4 ==> num_val(w, i, j) < 10000,
    decreases j - i,
{
    if j > i {
        lemma_num_val_bound(w, i, j - 1);
        assert(is_digit(w[j - 1]));
    }
}

/// A text of lowercase letters only is a single token: its word
/// classification.
pub proof fn lemma_word_tokens(s: Seq<char>)
    requires
        s.len() > 0,
        all_lower_alpha(s),
    ensures
        spec_tokens(s) == seq![word_token(s)],
{
    assert forall|k: int| 0 <= k < s.len() implies #[trigger] spec_lower(s)[k] == s[k] by {
        assert(is_lower_alpha(s[k]));
    }
    assert(spec_lower(s) =~= s);
    assert forall|k: int| 0 <= k < s.len() implies #[trigger] is_token_char(s[k]) by {
        assert(is_lower_alpha(s[k]));
    }
    lemma_tok_end_eq(s, 0, s.len() as int);
    assert(is_lower_alpha(s[0]));
    assert(is_lower_alpha(s[s.len() - 1]));
    assert(trim_start_idx(s, 0) == 0);
    assert(trim_end_idx(s, s.len() as int) == s.len() as int);
    assert(s.subrange(0, s.len() as int) =~= s);
    assert(spec_trim(s) == s);
    assert(spec_classify(s) == word_token(s));
    assert(toks_from(s, 0) == seq![word_token(s)] + toks_from(s, s.len() as int));
    assert(seq![word_token(s)] + toks_from(s, s.len() as int) =~= seq![word_token(s)]);
}

/// Compares a character vector with a string, character by character.
pub fn chars_eq(v: &Vec<char>, s: &str) -> (b: bool)
    ensures
        b == (v@ == s@),
{
    let n = s.unicode_len();
    if v.len() != n {
        return false;
    }
    let mut i: usize = 0;
    while i < n
        invariant
            i <= n,
            n == s@.len(),
            v@.len() == n,
            forall|k: int| 0 <= k < i ==> v@[k] == s@[k],
        decreases n - i,
    {
        let c = s.get_char(i);
        if v[i] != c {
            return false;
        }
        i += 1;
    }
    proof {
        assert(v@ =~= s@);
    }
    true
}

/// Compares two strings character by character.
pub fn str_is(s: &str, t: &str) -> (b: bool)
    ensures
        b == (s@ == t@),
{
    let n = t.unicode_len();
    if s.unicode_len() != n {
        return false;
    }
    let mut i: usize = 0;
    while i < n
        invariant
            i <= n,
            n == t@.len(),
            s@.len() == n,
            forall|k: int| 0 <= k < i ==> s@[k] == t@[k],
        decreases n - i,
    {
        if s.get_char(i) != t.get_char(i) {
            return false;
        }
        i += 1;
    }
    proof {
        assert(s@ =~= t@);
    }
    true
}

/// Lowercases one character.
pub fn to_lower_char(c: char) -> (r: char)
    ensures
        r == lower_char(c),
{
    match c {
        'A' => 'a',
        'B' => 'b',
        'C' => 'c',
        'D' => 'd',
        'E' => 'e',
        'F' => 'f',
        'G' => 'g',
        'H' => 'h',
        'I' => 'i',
        'J' => 'j',
        'K' => 'k',
        'L' => 'l',
        'M' => 'm',
        'N' => 'n',
        'O' => 'o',
        'P' => 'p',
        'Q' => 'q',
        'R' => 'r',
        'S' => 's',
        'T' => 't',
        'U' => 'u',
        'V' => 'v',
        'W' => 'w',
        'X' => 'x',
        'Y' => 'y',
        'Z' => 'z',
        _ => c,
    }
}

/// The characters of the text, lowercased.
pub(crate) fn lower_chars(s: &str) -> (v: Vec<char>)
    ensures
        v@ == spec_lower(s@),
{
    let n = s.unicode_len();
    let mut v: Vec<char> = Vec::new();
    let mut i: usize = 0;
    while i < n
        invariant
            i <= n,
            n == s@.len(),
            v@.len() == i,
            forall|k: int| 0 <= k < i ==> v@[k] == lower_char(s@[k]),
        decreases n - i,
    {
        v.push(to_lower_char(s.get_char(i)));
        i += 1;
    }
    proof {
        assert(v@ =~= spec_lower(s@));
    }
    v
}

/// Decides whether a character continues a token.
fn is_token_char_x(c: char) -> (b: bool)
    ensures
        b == is_token_char(c),
{
    let u = c as u32;
    (97 <= u && u <= 122) || (48 <= u && u <= 57) || c == '.' || c == '-' || c == '/' || c == '_'
}

/// Decides whether a character is a date separator.
fn is_sep_x(c: char) -> (b: bool)
    ensures
        b == is_sep(c),
{
    c == '.' || c == '-' || c == '/'
}

/// Decides whether a character is a digit.
fn is_digit_x(c: char) -> (b: bool)
    ensures
        b == is_digit(c),
{
    let u = c as u32;
    48 <= u && u <= 57
}

/// Reads the number written by the digits of `w` between `i` and `j`.
fn read_num(w: &Vec<char>, i: usize, j: usize) -> (v: u32)
    requires
        i <= j <= w@.len(),
        j - i <= 4,
        forall|k: int| i <= k < j ==> #[trigger] is_digit(w@[k]),
    ensures
        v == num_val(w@, i as int, j as int),
        v < 10000,
{
    proof {
        lemma_num_val_bound(w@, i as int, j as int);
    }
    let mut v: u32 = 0;
    let mut k: usize = i;
    while k < j
        invariant
            i <= k <= j,
            j <= w@.len(),
            j - i <= 4,
            forall|m: int| i <= m < j ==> #[trigger] is_digit(w@[m]),
            v == num_val(w@, i as int, k as int),
            v < 10000,
        decreases j - k,
    {
        proof {
            lemma_num_val_bound(w@, i as int, k as int);
            lemma_num_val_bound(w@, i as int, k + 1 as int);
            assert(is_digit(w@[k as int]));
        }
        let d = (w[k] as u32) - 48;
        v = v * 10 + d;
        k += 1;
    }
    v
}

/// First index at or after `i` in `w` holding no digit.
fn digit_run_end_x(w: &Vec<char>, i: usize) -> (e: usize)
    requires
        i <= w@.len(),
    ensures
        e == digit_run_end(w@, i as int),
        i <= e <= w@.len(),
        forall|k: int| i <= k < e ==> #[trigger] is_digit(w@[k]),
{
    let mut j: usize = i;
    while j < w.len() && is_digit_x(w[j])
        invariant
            i <= j <= w@.len(),
            forall|k: int| i <= k < j ==> #[trigger] is_digit(w@[k]),
            digit_run_end(w@, i as int) == digit_run_end(w@, j as int),
        decreases w@.len() - j,
    {
        j += 1;
    }
    j
}

/// Classifies a word made only of letters; mirrors [`word_token`].
fn word_token_x(w: &Vec<char>) -> (t: Token)
    ensures
        t == word_token(w@),
{
    if chars_eq(w, "today") {
        Token::KeyToday
    } else if chars_eq(w, "tomorrow") {
        Token::KeyTomorrow
    } else if chars_eq(w, "yesterday") {
        Token::KeyYesterday
    } else if chars_eq(w, "next") {
        Token::Rel(1)
    } else if chars_eq(w, "this") {
        Token::Rel(0)
    } else if chars_eq(w, "last") {
        Token::Rel(-1)
    } else if chars_eq(w, "week") || chars_eq(w, "weeks") {
        Token::WeekUnit
    } else if chars_eq(w, "day") || chars_eq(w, "days") {
        Token::DayUnit
    } else if chars_eq(w, "month") || chars_eq(w, "months") {
        Token::MonthUnit
    } else if chars_eq(w, "in") {
        Token::InWord
    } else if chars_eq(w, "on") {
        Token::OnWord
    } else if chars_eq(w, "of") {
        Token::OfWord
    } else if chars_eq(w, "one") {
        Token::NumWord(1)
    } else if chars_eq(w, "two") {
        Token::NumWord(2)
    } else if chars_eq(w, "three") {
        Token::NumWord(3)
    } else if chars_eq(w, "four") {
        Token::NumWord(4)
    } else if chars_eq(w, "five") {
        Token::NumWord(5)
    } else if chars_eq(w, "six") {
        Token::NumWord(6)
    } else if chars_eq(w, "seven") {
        Token::NumWord(7)
    } else if chars_eq(w, "eight") {
        Token::NumWord(8)
    } else if chars_eq(w, "nine") {
        Token::NumWord(9)
    } else if chars_eq(w, "ten") {
        Token::NumWord(10)
    } else if chars_eq(w, "eleven") {
        Token::NumWord(11)
    } else if chars_eq(w, "twelve") {
        Token::NumWord(12)
    } else if chars_eq(w, "mon") || chars_eq(w, "monday") {
        Token::WeekdayName(Weekday::Mon)
    } else if chars_eq(w, "tue") || chars_eq(w, "tuesday") {
        Token::WeekdayName(Weekday::Tue)
    } else if chars_eq(w, "wed") || chars_eq(w, "wednesday") {
        Token::WeekdayName(Weekday::Wed)
    } else if chars_eq(w, "thu") || chars_eq(w, "thursday") {
        Token::WeekdayName(Weekday::Thu)
    } else if chars_eq(w, "fri") || chars_eq(w, "friday") {
        Token::WeekdayName(Weekday::Fri)
    } else if chars_eq(w, "sat") || chars_eq(w, "saturday") {
        Token::WeekdayName(Weekday::Sat)
    } else if chars_eq(w, "sun") || chars_eq(w, "sunday") {
        Token::WeekdayName(Weekday::Sun)
    } else if chars_eq(w, "jan") || chars_eq(w, "january") {
        Token::MonthName(Month::January)
    } else if chars_eq(w, "feb") || chars_eq(w, "february") {
        Token::MonthName(Month::February)
    } else if chars_eq(w, "mar") || chars_eq(w, "march") {
        Token::MonthName(Month::March)
    } else if chars_eq(w, "apr") || chars_eq(w, "april") {
        Token::MonthName(Month::April)
    } else if chars_eq(w, "may") {
        Token::MonthName(Month::May)
    } else if chars_eq(w, "jun") || chars_eq(w, "june") {
        Token::MonthName(Month::June)
    } else if chars_eq(w, "jul") || chars_eq(w, "july") {
        Token::MonthName(Month::July)
    } else if chars_eq(w, "aug") || chars_eq(w, "august") {
        Token::MonthName(Month::August)
    } else if chars_eq(w, "sep") || chars_eq(w, "september") {
        Token::MonthName(Month::September)
    } else if chars_eq(w, "oct") || chars_eq(w, "october") {
        Token::MonthName(Month::October)
    } else if chars_eq(w, "nov") || chars_eq(w, "november") {
        Token::MonthName(Month::November)
    } else if chars_eq(w, "dec") || chars_eq(w, "december") {
        Token::MonthName(Month::December)
    } else {
        Token::Other
    }
}

/// Classifies a trimmed word that starts with a digit; mirrors
/// [`classify_numeric`].
fn classify_numeric_x(w: &Vec<char>) -> (t: Token)
    requires
        w@.len() > 0,
        is_digit(w@[0]),
    ensures
        t == classify_numeric(w@),
{
    let e1 = digit_run_end_x(w, 0);
    if e1 == w.len() {
        if e1 <= 4 {
            let value = read_num(w, 0, e1);
            Token::Digits { value, len: e1 as u32, th: false }
        } else {
            Token::Other
        }
    } else if e1 <= 2 && w.len() == e1 + 2 && w[e1] == 't' && w[e1 + 1] == 'h' {
        let value = read_num(w, 0, e1);
        Token::Digits { value, len: e1 as u32, th: true }
    } else if e1 <= 2 && is_sep_x(w[e1]) {
        let s2 = e1 + 1;
        let e2 = digit_run_end_x(w, s2);
        if e2 == w.len() {
            if e2 - s2 == 4 {
                Token::NumYear { a: read_num(w, 0, e1), year: read_num(w, s2, e2) }
            } else if 1 <= e2 - s2 && e2 - s2 <= 2 {
                Token::NumPair { a: read_num(w, 0, e1), b: read_num(w, s2, e2) }
            } else {
                Token::Other
            }
        } else if 1 <= e2 - s2 && e2 - s2 <= 2 && is_sep_x(w[e2]) {
            let s3 = e2 + 1;
            let e3 = digit_run_end_x(w, s3);
            if e3 == w.len() && e3 - s3 == 4 {
                Token::NumPairYear {
                    a: read_num(w, 0, e1),
                    b: read_num(w, s2, e2),
                    year: read_num(w, s3, e3),
                }
            } else {
                Token::Other
            }
        } else {
            Token::Other
        }
    } else {
        Token::Other
    }
}

/// Classifies one raw word of the input.
fn classify(w: &Vec<char>) -> (t: Token)
    ensures
        t == spec_classify(w@),
{
    // trim separators off both ends
    let mut a: usize = 0;
    while a < w.len() && is_sep_x(w[a])
        invariant
            a <= w@.len(),
            trim_start_idx(w@, 0) == trim_start_idx(w@, a as int),
        decreases w@.len() - a,
    {
        a += 1;
    }
    if a == w.len() {
        return Token::Other;
    }
    let mut e: usize = w.len();
    while e > a + 1 && is_sep_x(w[e - 1])
        invariant
            a < e <= w@.len(),
            trim_end_idx(w@, w@.len() as int) == trim_end_idx(w@, e as int),
        decreases e,
    {
        e -= 1;
    }
    proof {
        assert(trim_start_idx(w@, 0) == a as int);
        if is_sep(w@[a as int]) {
            // the trim start loop stopped on a non-separator
            assert(false);
        }
        lemma_trim_end_ge(w@, a as int, e as int);
        assert(trim_end_idx(w@, e as int) == e as int);
    }
    let mut t: Vec<char> = Vec::new();
    let mut k: usize = a;
    while k < e
        invariant
            a <= k <= e <= w@.len(),
            t@ == w@.subrange(a as int, k as int),
        decreases e - k,
    {
        t.push(w[k]);
        proof {
            assert(t@ =~= w@.subrange(a as int, k + 1 as int));
        }
        k += 1;
    }
    proof {
        assert(t@ == spec_trim(w@));
    }
    classify_trimmed(&t)
}

/// Classifies a word already free of leading and trailing separators.
fn classify_trimmed(t: &Vec<char>) -> (r: Token)
    ensures
        r == classify_core(t@),
{
    if t.len() == 0 {
        return Token::Other;
    }
    let mut all_alpha = true;
    let mut k: usize = 0;
    while k < t.len()
        invariant
            k <= t@.len(),
            all_alpha == (forall|m: int| 0 <= m < k ==> #[trigger] is_lower_alpha(t@[m])),
        decreases t@.len() - k,
    {
        let u = t[k] as u32;
        let alpha_here = 97 <= u && u <= 122;
        proof {
            assert(alpha_here == is_lower_alpha(t@[k as int]));
        }
        if !alpha_here {
            all_alpha = false;
        }
        k += 1;
    }
    if all_alpha {
        word_token_x(t)
    } else if is_digit_x(t[0]) {
        classify_numeric_x(t)
    } else {
        Token::Other
    }
}

/// Splits the text into classified tokens.
pub fn tokenize(text: &str) -> (toks: Vec<Token>)
    ensures
        toks@ == spec_tokens(text@),
{
    let cs = lower_chars(text);
    let mut toks: Vec<Token> = Vec::new();
    let mut i: usize = 0;
    while i < cs.len()
        invariant
            i <= cs@.len(),
            cs@ == spec_lower(text@),
            toks@ + toks_from(cs@, i as int) == toks_from(cs@, 0),
        decreases cs@.len() - i,
    {
        if !is_token_char_x(cs[i]) {
            i += 1;
        } else {
            let start = i;
            let mut j = i + 1;
            while j < cs.len() && is_token_char_x(cs[j])
                invariant
                    start < j <= cs@.len(),
                    forall|k: int| start <= k < j ==> #[trigger] is_token_char(cs@[k]),
                decreases cs@.len() - j,
            {
                j += 1;
            }
            proof {
                lemma_tok_end_eq(cs@, start as int, j as int);
            }
            let mut word: Vec<char> = Vec::new();
            let mut k: usize = start;
            while k < j
                invariant
                    start <= k <= j <= cs@.len(),
                    word@ == cs@.subrange(start as int, k as int),
                decreases j - k,
            {
                word.push(cs[k]);
                proof {
                    assert(word@ =~= cs@.subrange(start as int, k + 1 as int));
                }
                k += 1;
            }
            let t = classify(&word);
            toks.push(t);
            proof {
                assert(toks@ + toks_from(cs@, j as int) =~= toks_from(cs@, 0));
            }
            i = j;
        }
    }
    proof {
        assert(toks@ =~= toks@ + toks_from(cs@, i as int));
    }
    toks
}

} // verus!
