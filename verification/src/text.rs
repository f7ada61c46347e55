//! Texts: views of lists and options of strings, and the normal form of a
//! lookup query.

use vstd::prelude::*;

verus! {

/// The texts of a list of strings, in their order.
pub open spec fn texts_view(texts: Seq<String>) -> Seq<Seq<char>> {
    Seq::new(texts.len(), |i: int| texts[i]@)
}

/// The text of an optional string.
pub open spec fn optional_text_view(text: Option<String>) -> Option<Seq<char>> {
    match text {
        Some(t) => Some(t@),
        None => None,
    }
}

/// The lower-case form of an ASCII capital letter; any other character is
/// itself.
pub open spec fn ascii_lower_char(c: char) -> char {
    if 'A' <= c && c <= 'Z' {
        ((c as u32) + 32) as char
    } else {
        c
    }
}

/// A text with each ASCII capital letter in lower case.
pub open spec fn ascii_lower(text: Seq<char>) -> Seq<char> {
    Seq::new(text.len(), |i: int| ascii_lower_char(text[i]))
}

/// Two texts that differ at most in the case of ASCII letters.
pub open spec fn same_ignoring_ascii_case(a: Seq<char>, b: Seq<char>) -> bool {
    &&& a.len() == b.len()
    &&& forall|i: int| 0 <= i < a.len() ==> ascii_lower_char(a[i]) == ascii_lower_char(b[i])
}

/// The text begins with the prefix.
pub open spec fn starts_with(text: Seq<char>, prefix: Seq<char>) -> bool {
    prefix.len() <= text.len() && text.subrange(0, prefix.len() as int) == prefix
}

/// The text after the prefix, or the whole text where it does not begin with
/// the prefix.
pub open spec fn without_prefix(text: Seq<char>, prefix: Seq<char>) -> Seq<char> {
    if starts_with(text, prefix) {
        text.subrange(prefix.len() as int, text.len() as int)
    } else {
        text
    }
}

/// `str::to_ascii_lowercase`: a copy in which the ASCII letters 'A' to 'Z'
/// are mapped to 'a' to 'z' and every other character is unchanged.
#[verifier::external_body]
fn to_ascii_lowercase(text: &str) -> (r: String)
    ensures
        r@ == ascii_lower(text@),
{
    text.to_ascii_lowercase()
}

/// `str::strip_prefix` with a string as the pattern: the rest of the text
/// where it begins with the prefix, and nothing where it does not.
#[verifier::external_body]
fn strip_prefix<'a>(text: &'a str, prefix: &str) -> (r: Option<&'a str>)
    ensures
        match r {
            Some(rest) => starts_with(text@, prefix@) && rest@ == text@.subrange(
                prefix@.len() as int,
                text@.len() as int,
            ),
            None => !starts_with(text@, prefix@),
        },
{
    text.strip_prefix(prefix)
}

/// The text in ASCII lower case.
pub fn lower_case(text: &str) -> (r: String)
    ensures
        r@ == ascii_lower(text@),
{
    to_ascii_lowercase(text)
}

/// The text without the prefix, where it begins with it; else the text.
pub fn strip_leading(text: String, prefix: &str) -> (r: String)
    ensures
        r@ == without_prefix(text@, prefix@),
{
    match strip_prefix(text.as_str(), prefix) {
        Some(rest) => rest.to_owned(),
        None => text,
    }
}

/// Lower case changes nothing in a text that is in lower case already.
pub proof fn lemma_lower_twice(text: Seq<char>)
    ensures
        ascii_lower(ascii_lower(text)) == ascii_lower(text),
{
    assert(ascii_lower(ascii_lower(text)) =~= ascii_lower(text));
}

/// Texts that differ at most in the case of ASCII letters have one lower-case
/// form.
pub proof fn lemma_lower_ignores_case(a: Seq<char>, b: Seq<char>)
    requires
        same_ignoring_ascii_case(a, b),
    ensures
        ascii_lower(a) == ascii_lower(b),
{
    assert(ascii_lower(a) =~= ascii_lower(b));
}

/// The lower-case form of two texts joined is their lower-case forms joined.
pub proof fn lemma_lower_joined(a: Seq<char>, b: Seq<char>)
    ensures
        ascii_lower(a + b) == ascii_lower(a) + ascii_lower(b),
{
    assert(ascii_lower(a + b) =~= ascii_lower(a) + ascii_lower(b));
}

/// What is left of a text joined to a prefix, the prefix taken away, is the
/// text.
pub proof fn lemma_prefix_removed(prefix: Seq<char>, rest: Seq<char>)
    ensures
        starts_with(prefix + rest, prefix),
        without_prefix(prefix + rest, prefix) == rest,
{
    assert((prefix + rest).subrange(0, prefix.len() as int) =~= prefix);
    assert((prefix + rest).subrange(prefix.len() as int, (prefix + rest).len() as int) =~= rest);
}

/// Copies a list of strings.
pub fn copy_texts(texts: &Vec<String>) -> (r: Vec<String>)
    ensures
        texts_view(r@) == texts_view(texts@),
{
    let mut copied: Vec<String> = Vec::new();
    let mut i: usize = 0;
    while i < texts.len()
        invariant
            i <= texts.len(),
            copied@.len() == i,
            forall|k: int| 0 <= k < i ==> copied@[k]@ == texts@[k]@,
        decreases texts.len() - i,
    {
        copied.push(texts[i].clone());
        i += 1;
    }
    assert(texts_view(copied@) =~= texts_view(texts@));
    copied
}

/// Copies an optional string.
pub fn copy_optional_text(text: &Option<String>) -> (r: Option<String>)
    ensures
        optional_text_view(r) == optional_text_view(*text),
{
    match text {
        Some(t) => Some(t.clone()),
        None => None,
    }
}

} // verus!
