use vstd::prelude::*;

verus! {

/// Whether the domain holds at least two labels, that is, at least one dot.
pub open spec fn has_two_labels(s: Seq<char>) -> bool {
    exists|i: int| 0 <= i < s.len() && s[i] == '.'
}

/// Index of the `need`-th dot counted from the end of `s`, or -1 when `s`
/// holds fewer than `need` dots.
pub open spec fn dot_from_end(s: Seq<char>, need: nat) -> int
    decreases s.len(),
{
    if s.len() == 0 || need == 0 {
        -1
    } else if s.last() == '.' {
        if need == 1 {
            s.len() - 1
        } else {
            dot_from_end(s.drop_last(), (need - 1) as nat)
        }
    } else {
        dot_from_end(s.drop_last(), need)
    }
}

/// The last two labels: everything after the second dot from the end.
pub open spec fn root_of(s: Seq<char>) -> Seq<char> {
    s.subrange(dot_from_end(s, 2) + 1, s.len() as int)
}

/// All labels before the last two, joined by their dots; empty when there are
/// exactly two labels.
pub open spec fn prefix_of(s: Seq<char>) -> Seq<char> {
    let k = dot_from_end(s, 2);
    if k < 0 {
        Seq::empty()
    } else {
        s.subrange(0, k)
    }
}

proof fn lemma_dot_from_end_bounds(s: Seq<char>, need: nat)
    ensures
        -1 <= dot_from_end(s, need) < s.len(),
        dot_from_end(s, need) >= 0 ==> s[dot_from_end(s, need)] == '.',
    decreases s.len(),
{
    if s.len() > 0 && need > 0 {
        lemma_dot_from_end_bounds(s.drop_last(), need);
        if need > 1 {
            lemma_dot_from_end_bounds(s.drop_last(), (need - 1) as nat);
        }
    }
}

/// Finds the start of the cut: the index of the second dot from the end.
fn second_dot_from_end(s: &str) -> (r: Option<usize>)
    ensures
        match r {
            Some(k) => k as int == dot_from_end(s@, 2),
            None => dot_from_end(s@, 2) == -1,
        },
{
    let n = s.unicode_len();
    let mut j: usize = n;
    let mut found: usize = 0;
    assert(s@.subrange(0, n as int) =~= s@);
    while j > 0
        invariant
            n == s@.len(),
            j <= n,
            found < 2,
            dot_from_end(s@, 2) == dot_from_end(s@.subrange(0, j as int), (2 - found) as nat),
        decreases j,
    {
        let ghost p = s@.subrange(0, j as int);
        assert(p.drop_last() =~= s@.subrange(0, j - 1));
        let c = s.get_char(j - 1);
        j = j - 1;
        if c == '.' {
            if found == 1 {
                return Some(j);
            }
            found = found + 1;
        }
    }
    None
}

/// Whether the domain holds a dot.
fn contains_dot(s: &str) -> (r: bool)
    ensures
        r == has_two_labels(s@),
{
    let n = s.unicode_len();
    let mut i: usize = 0;
    while i < n
        invariant
            n == s@.len(),
            i <= n,
            forall|k: int| 0 <= k < i ==> s@[k] != '.',
        decreases n - i,
    {
        if s.get_char(i) == '.' {
            return true;
        }
        i = i + 1;
    }
    false
}

/// Splits a domain of at least two labels into the labels before the last two
/// and the last two labels: `sub.domain.com` gives `("sub", "domain.com")`.
/// The rule is the naive two-label one, so `sub.other.co.uk` gives
/// `("sub.other", "co.uk")`.
pub fn extract_subdomain(domain: String) -> (r: (String, String))
    requires
        has_two_labels(domain@),
    ensures
        r.0@ == prefix_of(domain@),
        r.1@ == root_of(domain@),
{
    let s = domain.as_str();
    let n = s.unicode_len();
    proof {
        lemma_dot_from_end_bounds(s@, 2);
    }
    match second_dot_from_end(s) {
        Some(k) => {
            let prefix = String::from_str(s.substring_char(0, k));
            let root = String::from_str(s.substring_char(k + 1, n));
            (prefix, root)
        },
        None => {
            let root = String::from_str(s);
            proof {
                assert(root@ =~= root_of(domain@));
            }
            (String::new(), root)
        },
    }
}

/// The apex domain cut into its registrable root and the fixed prefix before it.
#[derive(Debug)]
pub struct DomainParts {
    pub prefix: String,
    pub root: String,
}

/// The configured apex domain cannot be split.
#[derive(Clone, Copy, Debug, PartialEq, Eq, Structural)]
pub enum ConfigError {
    /// The domain holds a single label.
    MalformedDomain,
}

impl DomainParts {
    /// Splits the apex domain, failing where it has fewer than two labels.
    pub fn from_domain(domain: &str) -> (r: Result<DomainParts, ConfigError>)
        ensures
            r is Err <==> !has_two_labels(domain@),
            r matches Ok(p) ==> p.prefix@ == prefix_of(domain@) && p.root@ == root_of(domain@),
            r matches Err(e) ==> e == ConfigError::MalformedDomain,
    {
        if !contains_dot(domain) {
            return Err(ConfigError::MalformedDomain);
        }
        let (prefix, root) = extract_subdomain(String::from_str(domain));
        Ok(DomainParts { prefix, root })
    }
}

} // verus!
