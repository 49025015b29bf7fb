//! The grammars of the text fields.
//!
//! Each grammar is a predicate on a sequence of characters, together with a
//! matcher that decides it.  Digits are the ten ASCII digits and letters the
//! fifty-two ASCII letters.  None of the grammars looks at the end of the
//! field: whatever follows an accepted shape is left to Gaussian16.

use vstd::prelude::*;

verus! {

/// One of the digits `0` to `9`.
pub open spec fn is_digit(c: char) -> bool {
    '0' <= c <= '9'
}

/// One of the letters `a` to `z`, in either case.
pub open spec fn is_letter(c: char) -> bool {
    ('a' <= c <= 'z') || ('A' <= c <= 'Z')
}

/// The letter that scales a memory unit: kilo, mega, giga or tera, in either
/// case.
pub open spec fn is_unit_scale(c: char) -> bool {
    c == 'k' || c == 'K' || c == 'm' || c == 'M' || c == 'g' || c == 'G' || c == 't' || c == 'T'
}

/// The letter `b` of a memory unit, in either case.
pub open spec fn is_unit_byte(c: char) -> bool {
    c == 'b' || c == 'B'
}

/// Every character of `s` from `from` up to, not including, `to` is a digit.
pub open spec fn all_digits(s: Seq<char>, from: int, to: int) -> bool {
    forall|p: int| from <= p < to ==> is_digit(#[trigger] s[p])
}

/// At `i` stands a digit, directly followed by one of the units `KB`, `MB`,
/// `GB`, `TB` in any mix of cases.
pub open spec fn memory_at(s: Seq<char>, i: int) -> bool {
    &&& 0 <= i
    &&& i + 3 <= s.len()
    &&& is_digit(s[i])
    &&& is_unit_scale(s[i + 1])
    &&& is_unit_byte(s[i + 2])
}

/// The memory grammar: somewhere in the field an amount meets its unit, as
/// in `134GB` or `100mb`.  A run of digits before a unit ends in a digit
/// before that unit, so one digit is all the grammar asks for.
pub open spec fn memory_shape(s: Seq<char>) -> bool {
    exists|i: int| memory_at(s, i)
}

/// The processor grammar: the field begins with a digit, a dash and a digit,
/// as in `0-39`.
pub open spec fn cpu_shape(s: Seq<char>) -> bool {
    &&& 3 <= s.len()
    &&& is_digit(s[0])
    &&& s[1] == '-'
    &&& is_digit(s[2])
}

/// At `i` stands a `#`, directly followed by a letter.
pub open spec fn marker_at(s: Seq<char>, i: int) -> bool {
    &&& 0 <= i
    &&& i + 2 <= s.len()
    &&& s[i] == '#'
    &&& is_letter(s[i + 1])
}

/// The keyword grammar: somewhere in the field stands a route marker such as
/// `#p` or `#N`.  Which keywords follow it is for Gaussian16 to judge.
pub open spec fn keywords_shape(s: Seq<char>) -> bool {
    exists|i: int| marker_at(s, i)
}

/// From `from` up to `to` stand digits and commas in turn, first and last a
/// digit, and at least two digits in all: `0,1` or `3,4,5`.
pub open spec fn digit_list(s: Seq<char>, from: int, to: int) -> bool {
    &&& 0 <= from
    &&& to <= s.len()
    &&& to - from >= 3
    &&& (to - from) % 2 == 1
    &&& forall|p: int|
        from <= p < to ==> if (p - from) % 2 == 0 {
            is_digit(#[trigger] s[p])
        } else {
            s[p] == ','
        }
}

/// The field begins with a list of digits that ends before `eq`, an equals
/// sign at `eq`, and a second list of digits that ends before `end`.
pub open spec fn gpu_list_at(s: Seq<char>, eq: int, end: int) -> bool {
    &&& digit_list(s, 0, eq)
    &&& eq < s.len()
    &&& s[eq] == '='
    &&& digit_list(s, eq + 1, end)
}

/// The list form of a GPU assignment: the field begins with two
/// comma-separated lists of digits around an equals sign, as in `0,1,2=0,1`.
pub open spec fn gpu_list_shape(s: Seq<char>) -> bool {
    exists|eq: int, end: int| gpu_list_at(s, eq, end)
}

/// A dash at `dash`, one or more digits, an equals sign at `eq`, digits or
/// none, a second dash at `dash2`, and a digit.
pub open spec fn gpu_range_at(s: Seq<char>, dash: int, eq: int, dash2: int) -> bool {
    &&& 0 <= dash
    &&& dash + 1 < eq
    &&& eq < dash2
    &&& dash2 + 1 < s.len()
    &&& s[dash] == '-'
    &&& all_digits(s, dash + 1, eq)
    &&& s[eq] == '='
    &&& all_digits(s, eq + 1, dash2)
    &&& s[dash2] == '-'
    &&& is_digit(s[dash2 + 1])
}

/// The range form of a GPU assignment: somewhere in the field two dash
/// ranges meet at an equals sign, as in `0-4=0-9`.  What stands before the
/// first dash is free.
pub open spec fn gpu_range_shape(s: Seq<char>) -> bool {
    exists|dash: int, eq: int, dash2: int| gpu_range_at(s, dash, eq, dash2)
}

/// The pair form of a GPU assignment: the field begins with a digit, an
/// equals sign and a digit, as in `0=0`.
pub open spec fn gpu_pair_shape(s: Seq<char>) -> bool {
    &&& 3 <= s.len()
    &&& is_digit(s[0])
    &&& s[1] == '='
    &&& is_digit(s[2])
}

/// How many of the three GPU forms the field has.
pub open spec fn gpu_forms(s: Seq<char>) -> nat {
    let list: nat = if gpu_list_shape(s) { 1 } else { 0 };
    let range: nat = if gpu_range_shape(s) { 1 } else { 0 };
    let pair: nat = if gpu_pair_shape(s) { 1 } else { 0 };
    list + range + pair
}

/// The GPU grammar: the field has exactly one of the list, range and pair
/// forms.  A field with none is no assignment; a field with two could be
/// read either way and is turned down rather than guessed at.
pub open spec fn gpu_shape(s: Seq<char>) -> bool {
    gpu_forms(s) == 1
}

/// The characters of `s`, in order, for the matchers to index.
pub fn chars_of(s: &str) -> (chars: Vec<char>)
    ensures
        chars@ == s@,
{
    let mut chars: Vec<char> = Vec::new();
    for c in it: s.chars()
        invariant
            chars@ == it.seq().take(it.index() as int),
            it.seq() == s@,
    {
        chars.push(c);
    }
    chars
}

/// Whether `c` is a digit.
pub fn digit(c: char) -> (yes: bool)
    ensures
        yes == is_digit(c),
{
    '0' <= c && c <= '9'
}

/// Whether `c` is a letter.
pub fn letter(c: char) -> (yes: bool)
    ensures
        yes == is_letter(c),
{
    ('a' <= c && c <= 'z') || ('A' <= c && c <= 'Z')
}

/// Whether `c` scales a memory unit.
pub fn unit_scale(c: char) -> (yes: bool)
    ensures
        yes == is_unit_scale(c),
{
    c == 'k' || c == 'K' || c == 'm' || c == 'M' || c == 'g' || c == 'G' || c == 't' || c == 'T'
}

/// Whether `c` is the `b` of a memory unit.
pub fn unit_byte(c: char) -> (yes: bool)
    ensures
        yes == is_unit_byte(c),
{
    c == 'b' || c == 'B'
}

/// Decides the memory grammar.
pub fn has_memory(s: &[char]) -> (found: bool)
    ensures
        found == memory_shape(s@),
{
    let n = s.len();
    let mut i: usize = 0;
    while n - i >= 3
        invariant
            i <= n,
            n == s@.len(),
            forall|k: int| 0 <= k < i ==> !memory_at(s@, k),
        decreases n - i,
    {
        if digit(s[i]) && unit_scale(s[i + 1]) && unit_byte(s[i + 2]) {
            assert(memory_at(s@, i as int));
            return true;
        }
        i += 1;
    }
    false
}

/// Decides the processor grammar.
pub fn has_cpu_range(s: &[char]) -> (found: bool)
    ensures
        found == cpu_shape(s@),
{
    s.len() >= 3 && digit(s[0]) && s[1] == '-' && digit(s[2])
}

/// Decides the keyword grammar.
pub fn has_marker(s: &[char]) -> (found: bool)
    ensures
        found == keywords_shape(s@),
{
    let n = s.len();
    let mut i: usize = 0;
    while n - i >= 2
        invariant
            i <= n,
            n == s@.len(),
            forall|k: int| 0 <= k < i ==> !marker_at(s@, k),
        decreases n - i,
    {
        if s[i] == '#' && letter(s[i + 1]) {
            assert(marker_at(s@, i as int));
            return true;
        }
        i += 1;
    }
    false
}

/// The end of the run of digits that begins at `from`: the first position
/// from there on that holds no digit, or the length of `s`.
pub fn digits_end(s: &[char], from: usize) -> (end: usize)
    requires
        from <= s@.len(),
    ensures
        from <= end <= s@.len(),
        all_digits(s@, from as int, end as int),
        end < s@.len() ==> !is_digit(s@[end as int]),
{
    let n = s.len();
    let mut end: usize = from;
    while end < n && digit(s[end])
        invariant
            from <= end <= n,
            n == s@.len(),
            all_digits(s@, from as int, end as int),
        decreases n - end,
    {
        end += 1;
    }
    end
}

/// Decides the list form of a GPU assignment.
pub fn has_gpu_list(s: &[char]) -> (found: bool)
    ensures
        found == gpu_list_shape(s@),
{
    let n = s.len();
    if n == 0 || !digit(s[0]) {
        return false;
    }
    // The first list reaches as far as a comma and a digit follow.
    let mut eq: usize = 1;
    while n - eq >= 2 && s[eq] == ',' && digit(s[eq + 1])
        invariant
            1 <= eq <= n,
            n == s@.len(),
            eq % 2 == 1,
            forall|p: int|
                0 <= p < eq ==> if p % 2 == 0 {
                    is_digit(#[trigger] s@[p])
                } else {
                    s@[p] == ','
                },
        decreases n - eq,
    {
        eq += 2;
    }
    let found = eq >= 3 && n - eq >= 4 && s[eq] == '=' && digit(s[eq + 1]) && s[eq + 2] == ','
        && digit(s[eq + 3]);
    proof {
        if found {
            assert(gpu_list_at(s@, eq as int, eq + 4));
        }
        // Where the scan found nothing there is nothing: a first list ends
        // where the scan stopped and nowhere else, and a second list begins
        // with a digit, a comma and a digit.
    }
    found
}

/// Decides the range form of a GPU assignment.
pub fn has_gpu_range(s: &[char]) -> (found: bool)
    ensures
        found == gpu_range_shape(s@),
{
    let n = s.len();
    let mut dash: usize = 0;
    while dash < n
        invariant
            dash <= n,
            n == s@.len(),
            forall|d: int, e: int, d2: int| 0 <= d < dash ==> !gpu_range_at(s@, d, e, d2),
        decreases n - dash,
    {
        let mut here = false;
        let mut eq: usize = dash;
        let mut dash2: usize = dash;
        if s[dash] == '-' {
            eq = digits_end(s, dash + 1);
            if eq > dash + 1 && eq < n && s[eq] == '=' {
                dash2 = digits_end(s, eq + 1);
                here = dash2 < n && s[dash2] == '-' && n - dash2 >= 2 && digit(s[dash2 + 1]);
            }
        }
        if here {
            assert(gpu_range_at(s@, dash as int, eq as int, dash2 as int));
            return true;
        }
        // A run of digits ends in one place only, so no range begins at
        // this dash with its equals sign or second dash elsewhere.
        dash += 1;
    }
    false
}

/// Decides the pair form of a GPU assignment.
pub fn has_gpu_pair(s: &[char]) -> (found: bool)
    ensures
        found == gpu_pair_shape(s@),
{
    s.len() >= 3 && digit(s[0]) && s[1] == '=' && digit(s[2])
}

} // verus!
