//! The names that the `Lenses` derive and the `lens!` macro give to the items
//! they generate and refer to.

use vstd::prelude::*;
use vstd::string::*;

verus! {

broadcast use vstd::string::group_string_axioms;

/// What `char::to_uppercase` yields for `c`: its uppercase mapping, one or more chars.
pub uninterp spec fn char_uppercase(c: char) -> Seq<char>;

/// What `char::to_lowercase` yields for `c`: its lowercase mapping, one or more chars.
pub uninterp spec fn char_lowercase(c: char) -> Seq<char>;

/// The ASCII uppercase of `c`: ASCII lowercase letters are mapped to uppercase,
/// every other char is left as it is.
pub open spec fn ascii_upper(c: char) -> char {
    if 'a' <= c && c <= 'z' {
        ((c as u32) - 32) as char
    } else {
        c
    }
}

/// The ASCII lowercase of `c`: ASCII uppercase letters are mapped to lowercase,
/// every other char is left as it is.
pub open spec fn ascii_lower(c: char) -> char {
    if 'A' <= c && c <= 'Z' {
        ((c as u32) + 32) as char
    } else {
        c
    }
}

/// Collects `char::to_uppercase(c)` into a string. The result is named by
/// `char_uppercase`; for an ASCII char, std documents it as the one char that
/// `char::to_ascii_uppercase` gives.
#[verifier::external_body]
fn uppercase(c: char) -> (upper: String)
    ensures
        upper@ == char_uppercase(c),
        (c as u32) < 128 ==> upper@ == seq![ascii_upper(c)],
{
    c.to_uppercase().collect::<String>()
}

/// Collects `char::to_lowercase(c)` into a string. The result is named by
/// `char_lowercase`; for an ASCII char, std documents it as the one char that
/// `char::to_ascii_lowercase` gives.
#[verifier::external_body]
fn lowercase(c: char) -> (lower: String)
    ensures
        lower@ == char_lowercase(c),
        (c as u32) < 128 ==> lower@ == seq![ascii_lower(c)],
{
    c.to_lowercase().collect::<String>()
}

/// The uppercase of `c`: for an ASCII char, its ASCII uppercase; otherwise
/// what `char::to_uppercase` yields.
pub open spec fn upper_chars(c: char) -> Seq<char> {
    if (c as u32) < 128 {
        seq![ascii_upper(c)]
    } else {
        char_uppercase(c)
    }
}

/// The lowercase of `c`: for an ASCII char, its ASCII lowercase; otherwise
/// what `char::to_lowercase` yields.
pub open spec fn lower_chars(c: char) -> Seq<char> {
    if (c as u32) < 128 {
        seq![ascii_lower(c)]
    } else {
        char_lowercase(c)
    }
}

/// What the char at position `k` of `s` contributes to the camel case of `s`:
/// nothing for an underscore, the uppercase of the first char of a word, the
/// lowercase of every other char.
pub open spec fn camel_piece(s: Seq<char>, k: int) -> Seq<char> {
    if s[k] == '_' {
        seq![]
    } else if k == 0 || s[k - 1] == '_' {
        upper_chars(s[k])
    } else {
        lower_chars(s[k])
    }
}

/// The camel case of `s`: `s` split at its underscores into words, each word with its
/// first char in uppercase and the rest in lowercase, and the words joined.
pub open spec fn camel_case(s: Seq<char>) -> Seq<char>
    decreases s.len(),
{
    if s.len() == 0 {
        seq![]
    } else {
        camel_case(s.drop_last()) + camel_piece(s, s.len() - 1)
    }
}

/// How the camel case of a name grows by one char `c` (the char at `k`): an
/// underscore adds nothing; an ASCII char that starts a word (at the start, or after
/// an underscore) adds its ASCII uppercase, with the code of a lowercase letter
/// lowered by 32; any other ASCII char adds its ASCII lowercase, with the code of an
/// uppercase letter raised by 32.
pub proof fn lemma_camel_case_step(s: Seq<char>, k: int)
    requires
        0 <= k < s.len(),
    ensures
        s[k] == '_' ==> camel_case(s.take(k + 1)) == camel_case(s.take(k)),
        s[k] != '_' && (s[k] as u32) < 128 && (k == 0 || s[k - 1] == '_') ==> camel_case(
            s.take(k + 1),
        ) == camel_case(s.take(k)).push(ascii_upper(s[k])),
        s[k] != '_' && (s[k] as u32) < 128 && k > 0 && s[k - 1] != '_' ==> camel_case(
            s.take(k + 1),
        ) == camel_case(s.take(k)).push(ascii_lower(s[k])),
        'a' <= s[k] <= 'z' ==> 'A' <= ascii_upper(s[k]) <= 'Z' && (ascii_upper(s[k]) as u32) + 32
            == s[k] as u32,
        'A' <= s[k] <= 'Z' ==> 'a' <= ascii_lower(s[k]) <= 'z' && (ascii_lower(s[k]) as u32)
            == (s[k] as u32) + 32,
        !('a' <= s[k] <= 'z') ==> ascii_upper(s[k]) == s[k],
        !('A' <= s[k] <= 'Z') ==> ascii_lower(s[k]) == s[k],
{
    assert(s.take(k + 1).drop_last() =~= s.take(k));
    assert(camel_piece(s.take(k + 1), k) == camel_piece(s, k));
    assert(seq![].push(ascii_upper(s[k])) =~= seq![ascii_upper(s[k])]);
    assert(camel_case(s.take(k)) + seq![ascii_upper(s[k])] =~= camel_case(s.take(k)).push(
        ascii_upper(s[k]),
    ));
    assert(camel_case(s.take(k)) + seq![ascii_lower(s[k])] =~= camel_case(s.take(k)).push(
        ascii_lower(s[k]),
    ));
    assert(camel_case(s.take(k)) + seq![] =~= camel_case(s.take(k)));
}

/// Converts a snake-case name into camel case (`this_is_snake_case` into `ThisIsSnakeCase`).
pub fn to_camel_case(s: &str) -> (camel: String)
    ensures
        camel@ == camel_case(s@),
{
    let mut camel = String::new();
    let mut previous: Option<char> = None;
    for c in it: s.chars()
        invariant
            it.seq() == s@,
            camel@ == camel_case(s@.take(it.index() as int)),
            previous == (if it.index() == 0 {
                None
            } else {
                Some(s@[it.index() - 1])
            }),
    {
        let ghost k = it.index();
        if c != '_' {
            let piece = match previous {
                None => uppercase(c),
                Some(p) => if p == '_' {
                    uppercase(c)
                } else {
                    lowercase(c)
                },
            };
            camel.append(piece.as_str());
        }
        previous = Some(c);
        assert(s@.take(k + 1).drop_last() =~= s@.take(k as int));
        assert(camel_piece(s@.take(k + 1), k as int) == camel_piece(s@, k as int));
    }
    assert(s@.take(s@.len() as int) =~= s@);
    camel
}

/// Whether `s` holds exactly the chars of `literal`.
pub fn equals_str(s: &String, literal: &str) -> (equal: bool)
    ensures
        equal == (s@ == literal@),
{
    let other = String::from_str(literal);
    *s == other
}

/// The name of the lens type for field `field_name` of struct `struct_name`:
/// the struct name, the field name in camel case, and `Lens`.
pub fn lens_type_name(struct_name: &str, field_name: &str) -> (name: String)
    ensures
        name@ == struct_name@ + camel_case(field_name@) + "Lens"@,
{
    let mut name = String::from_str(struct_name);
    let camel = to_camel_case(field_name);
    name.append(camel.as_str());
    name.append("Lens");
    name
}

/// The name of the member that holds the lenses of a nested struct field.
pub fn nested_lenses_field_name(field_name: &str) -> (name: String)
    ensures
        name@ == field_name@ + "_lenses"@,
{
    String::from_str(field_name).concat("_lenses")
}

/// The name of the member that marks the item type of a `Vec` field.
pub fn vec_item_marker_name(field_name: &str) -> (name: String)
    ensures
        name@ == field_name@ + "_item"@,
{
    String::from_str(field_name).concat("_item")
}

/// The name of the member that holds the lenses of the items of a `Vec` field.
pub fn vec_item_lenses_field_name(field_name: &str) -> (name: String)
    ensures
        name@ == field_name@ + "_item_lenses"@,
{
    String::from_str(field_name).concat("_item_lenses")
}

/// The name of the struct that gathers the lenses of struct `struct_name`.
pub fn lenses_struct_name(struct_name: &str) -> (name: String)
    ensures
        name@ == struct_name@ + "Lenses"@,
{
    String::from_str(struct_name).concat("Lenses")
}

/// The name of the constant that holds the lenses of struct `struct_name`.
pub fn lenses_const_name(struct_name: &str) -> (name: String)
    ensures
        name@ == "_"@ + struct_name@ + "Lenses"@,
{
    String::from_str("_").concat(struct_name).concat("Lenses")
}

} // verus!
