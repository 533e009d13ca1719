use vstd::prelude::*;

verus! {

/// Number of characters in a generated subdomain label.
pub const GENERATED_LEN: usize = 7;

/// A character of the alphabet generated labels are drawn from.
pub open spec fn is_label_char(c: char) -> bool {
    ('0' <= c <= '9') || ('a' <= c <= 'f')
}

/// A label as `assign_subdomain` generates it: seven characters of
/// `0123456789abcdef`.
pub open spec fn is_generated_label(s: Seq<char>) -> bool {
    &&& s.len() == GENERATED_LEN
    &&& forall|i: int| 0 <= i < s.len() ==> is_label_char(#[trigger] s[i])
}

/// Relies on nanoid::format fed by nanoid::rngs::default: it returns `size`
/// characters, each one of `alphabet`. It asserts that the alphabet holds at
/// most 255 characters, counts the identifier in bytes (hence ASCII), and never
/// returns for an empty alphabet or a size of zero.
#[verifier::external_body]
fn random_id(alphabet: &[char], size: usize) -> (r: String)
    requires
        0 < alphabet@.len() <= 255,
        0 < size <= 4096,
        forall|i: int| 0 <= i < alphabet@.len() ==> (#[trigger] alphabet@[i] as u32) < 128,
    ensures
        r@.len() == size,
        forall|i: int| 0 <= i < r@.len() ==> alphabet@.contains(#[trigger] r@[i]),
{
    nanoid::format(nanoid::rngs::default, alphabet, size)
}

/// The label the caller asked for, or a fresh random one when it asked for none.
pub fn assign_subdomain(requested: &Option<String>) -> (r: String)
    ensures
        match requested {
            Some(s) => r@ == s@,
            None => is_generated_label(r@),
        },
{
    match requested {
        Some(s) => s.clone(),
        None => {
            let alphabet: Vec<char> = vec![
                '1', '2', '3', '4', '5', '6', '7', '8', '9', '0', 'a', 'b', 'c', 'd', 'e', 'f',
            ];
            assert(forall|i: int|
                0 <= i < alphabet@.len() ==> is_label_char(#[trigger] alphabet@[i])
                    && (alphabet@[i] as u32) < 128);
            let r = random_id(alphabet.as_slice(), GENERATED_LEN);
            assert forall|i: int| 0 <= i < r@.len() implies is_label_char(#[trigger] r@[i]) by {
                let j = choose|j: int| 0 <= j < alphabet@.len() && alphabet@[j] == r@[i];
                assert(is_label_char(alphabet@[j]));
            }
            r
        },
    }
}

/// The subdomain relative to the root: the assigned label, followed by the
/// apex domain's prefix when there is one.
pub open spec fn full_subdomain_of(assigned: Seq<char>, prefix: Seq<char>) -> Seq<char> {
    if prefix.len() == 0 {
        assigned
    } else {
        assigned + seq!['.'] + prefix
    }
}

/// Joins the assigned label and the apex domain's prefix.
pub fn full_subdomain(assigned: &str, prefix: &str) -> (r: String)
    ensures
        r@ == full_subdomain_of(assigned@, prefix@),
{
    if prefix.unicode_len() == 0 {
        String::from_str(assigned)
    } else {
        let mut r = String::from_str(assigned);
        proof {
            reveal_strlit(".");
        }
        r.append(".");
        r.append(prefix);
        r
    }
}

/// The fully-qualified name of a subdomain under the root.
pub fn qualified_name(subdomain: &str, root: &str) -> (r: String)
    ensures
        r@ == subdomain@ + seq!['.'] + root@,
{
    let mut r = String::from_str(subdomain);
    proof {
        reveal_strlit(".");
    }
    r.append(".");
    r.append(root);
    r
}

} // verus!
