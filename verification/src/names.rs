//! From the name of a call-description type to the name of its method.

use vstd::prelude::*;
use vstd::string::*;

verus! {

/// The suffix that call-description types carry by convention.
pub open spec fn call_suffix() -> Seq<char> {
    seq!['C', 'a', 'l', 'l']
}

/// Whether `name` ends in `Call`.
pub open spec fn ends_with_call(name: Seq<char>) -> bool {
    name.len() >= 4 && name.subrange(name.len() - 4, name.len() as int) == call_suffix()
}

/// `name` without one trailing `Call`, or `name` itself where it has none.
pub open spec fn without_call_suffix(name: Seq<char>) -> Seq<char> {
    if ends_with_call(name) {
        name.subrange(0, name.len() - 4)
    } else {
        name
    }
}

/// The snake-case form that `heck` gives a string. Words end at every
/// character that is neither letter nor digit, and before a capital that
/// follows a lowercase letter, with or without digits between them. A run of
/// capitals is one word, so `HTML` becomes `html`; only where a lowercase
/// letter follows the run does its last capital begin the next word, so
/// `XMLHttp` becomes `xml_http`. The words are lowercased and joined by
/// underscores.
pub uninterp spec fn snake_case_of(name: Seq<char>) -> Seq<char>;

/// The method name that belongs to a call type written as `call_type`.
pub open spec fn method_name_of(call_type: Seq<char>) -> Seq<char> {
    snake_case_of(without_call_suffix(call_type))
}

/// Drops one trailing `Call` from `name`.
pub fn strip_call_suffix<'a>(name: &'a str) -> (stem: &'a str)
    ensures
        stem@ == without_call_suffix(name@),
{
    let n: usize = name.unicode_len();
    if n >= 4 && name.get_char(n - 4) == 'C' && name.get_char(n - 3) == 'a' && name.get_char(n - 2)
        == 'l' && name.get_char(n - 1) == 'l' {
        assert(name@.subrange(n - 4, n as int) =~= call_suffix());
        name.substring_char(0, n - 4)
    } else {
        proof {
            if n >= 4 {
                let tail = name@.subrange(n - 4, n as int);
                assert(tail[0] == name@[n - 4]);
                assert(tail[1] == name@[n - 3]);
                assert(tail[2] == name@[n - 2]);
                assert(tail[3] == name@[n - 1]);
            }
        }
        name
    }
}

/// `heck::ToSnakeCase::to_snake_case` for `str`. The conversion reads nothing
/// but its argument, so its result is `snake_case_of` of it; and since it only
/// ever writes characters of words it found, it is empty for an empty argument.
#[verifier::external_body]
fn snake_case(name: &str) -> (converted: String)
    ensures
        converted@ == snake_case_of(name@),
        name@.len() == 0 ==> converted@.len() == 0,
{
    heck::ToSnakeCase::to_snake_case(name)
}

/// The method name for a call type: its name without the `Call` suffix, in
/// snake case. Nothing is left of a name that is the suffix alone.
pub fn derive_method_name(call_type: &str) -> (name: String)
    ensures
        name@ == method_name_of(call_type@),
        without_call_suffix(call_type@).len() == 0 ==> name@.len() == 0,
{
    snake_case(strip_call_suffix(call_type))
}

/// Derivation is a function of the type name: two runs on one name agree.
pub proof fn lemma_derivation_is_deterministic(
    call_type: Seq<char>,
    first: Seq<char>,
    second: Seq<char>,
)
    requires
        first == method_name_of(call_type),
        second == method_name_of(call_type),
    ensures
        first == second,
{
}

/// A name that does not end in `Call` is converted as it stands.
pub proof fn lemma_unsuffixed_name_is_kept(call_type: Seq<char>)
    requires
        !ends_with_call(call_type),
    ensures
        method_name_of(call_type) == snake_case_of(call_type),
{
}

/// Stripping removes exactly the four characters of the suffix.
pub proof fn lemma_suffix_is_removed(stem: Seq<char>)
    ensures
        without_call_suffix(stem + call_suffix()) == stem,
        method_name_of(stem + call_suffix()) == snake_case_of(stem),
{
    let name = stem + call_suffix();
    assert(name.subrange(name.len() - 4, name.len() as int) =~= call_suffix());
    assert(name.subrange(0, name.len() - 4) =~= stem);
}

} // verus!
