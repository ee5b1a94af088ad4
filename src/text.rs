//! Character-level helpers used to derive the path segment of a resource.
use vstd::prelude::*;

verus! {

/// Whether `char::is_uppercase` holds of a character (the Unicode `Uppercase` property).
pub uninterp spec fn upper_char(c: char) -> bool;

/// The first character that `char::to_lowercase` yields for a character.
pub uninterp spec fn lower_char(c: char) -> char;

/// What one character becomes in snake case, given whether it is uppercase
/// and its lowercase form; `i` is its position.
pub open spec fn snake_piece(i: int, c: char, upper: bool, lower: char) -> Seq<char> {
    if upper {
        if i > 0 {
            seq!['_', lower]
        } else {
            seq![lower]
        }
    } else {
        seq![c]
    }
}

/// The snake-case form of `s`, where `upper[i]` says whether `s[i]` is
/// uppercase and `lower[i]` is its lowercase form: every uppercase character
/// is lowered and, unless it is the first, preceded by an underscore.
pub open spec fn snake_with(s: Seq<char>, upper: Seq<bool>, lower: Seq<char>) -> Seq<char>
    decreases s.len(),
{
    if s.len() == 0 {
        Seq::empty()
    } else {
        snake_with(s.drop_last(), upper.drop_last(), lower.drop_last()) + snake_piece(
            s.len() - 1,
            s.last(),
            upper[s.len() - 1],
            lower[s.len() - 1],
        )
    }
}

/// The snake-case form of a name, with the character classes of Unicode.
pub open spec fn snake_case(s: Seq<char>) -> Seq<char> {
    snake_with(s, s.map_values(|c: char| upper_char(c)), s.map_values(|c: char| lower_char(c)))
}

/// Relies on `char::is_uppercase`.
#[verifier::external_body]
fn is_uppercase(c: char) -> (r: bool)
    ensures
        r == upper_char(c),
{
    c.is_uppercase()
}

/// Relies on `char::to_lowercase`, which always yields at least one character.
#[verifier::external_body]
fn lowercase_first(c: char) -> (r: char)
    ensures
        r == lower_char(c),
{
    c.to_lowercase().next().unwrap()
}

/// Relies on `String::push`: appends one character.
#[verifier::external_body]
pub(crate) fn push_char(s: &mut String, c: char)
    ensures
        final(s)@ == old(s)@.push(c),
{
    s.push(c)
}

/// Builds the snake-case form of `input` from the class of each of its
/// characters: `upper[i]` says whether `input[i]` is uppercase and
/// `lower[i]` is its lowercase form.
pub fn snake_case_with(input: &str, upper: &Vec<bool>, lower: &Vec<char>) -> (r: String)
    requires
        upper@.len() == input@.len(),
        lower@.len() == input@.len(),
    ensures
        r@ == snake_with(input@, upper@, lower@),
{
    let mut result = String::new();
    let n = input.unicode_len();
    let mut i: usize = 0;
    while i < n
        invariant
            n == input@.len(),
            upper@.len() == n,
            lower@.len() == n,
            i <= n,
            result@ == snake_with(
                input@.subrange(0, i as int),
                upper@.subrange(0, i as int),
                lower@.subrange(0, i as int),
            ),
        decreases n - i,
    {
        let c = input.get_char(i);
        assert(input@.subrange(0, i + 1).drop_last() =~= input@.subrange(0, i as int));
        assert(upper@.subrange(0, i + 1).drop_last() =~= upper@.subrange(0, i as int));
        assert(lower@.subrange(0, i + 1).drop_last() =~= lower@.subrange(0, i as int));
        if upper[i] {
            if i > 0 {
                push_char(&mut result, '_');
            }
            push_char(&mut result, lower[i]);
        } else {
            push_char(&mut result, c);
        }
        assert(result@ =~= snake_with(
            input@.subrange(0, i + 1),
            upper@.subrange(0, i + 1),
            lower@.subrange(0, i + 1),
        ));
        i = i + 1;
    }
    assert(input@.subrange(0, n as int) =~= input@);
    assert(upper@.subrange(0, n as int) =~= upper@);
    assert(lower@.subrange(0, n as int) =~= lower@);
    result
}

/// Converts a name from camel case to snake case (`BlogPost` becomes `blog_post`).
pub fn to_snake_case(input: &str) -> (r: String)
    ensures
        r@ == snake_case(input@),
{
    let n = input.unicode_len();
    let mut upper: Vec<bool> = Vec::new();
    let mut lower: Vec<char> = Vec::new();
    let mut i: usize = 0;
    while i < n
        invariant
            n == input@.len(),
            i <= n,
            upper@ == input@.subrange(0, i as int).map_values(|c: char| upper_char(c)),
            lower@ == input@.subrange(0, i as int).map_values(|c: char| lower_char(c)),
        decreases n - i,
    {
        let c = input.get_char(i);
        upper.push(is_uppercase(c));
        lower.push(lowercase_first(c));
        assert(upper@ =~= input@.subrange(0, i + 1).map_values(|c: char| upper_char(c)));
        assert(lower@ =~= input@.subrange(0, i + 1).map_values(|c: char| lower_char(c)));
        i = i + 1;
    }
    assert(input@.subrange(0, n as int) =~= input@);
    snake_case_with(input, &upper, &lower)
}

/// Whether two strings hold the same characters.
pub fn same_text(a: &str, b: &str) -> (r: bool)
    ensures
        r == (a@ == b@),
{
    String::from_str(a) == String::from_str(b)
}

} // verus!
