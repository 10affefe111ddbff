//! The strength policy that a stored secret must meet. Its values come from
//! configuration; nothing here fixes them.

use vstd::prelude::*;

verus! {

pub open spec fn is_lowercase(c: char) -> bool {
    'a' <= c <= 'z'
}

pub open spec fn is_uppercase(c: char) -> bool {
    'A' <= c <= 'Z'
}

pub open spec fn is_digit(c: char) -> bool {
    '0' <= c <= '9'
}

/// A symbol is any character that is neither an ASCII letter nor a digit.
pub open spec fn is_symbol(c: char) -> bool {
    !is_lowercase(c) && !is_uppercase(c) && !is_digit(c)
}

pub open spec fn has_lowercase(text: Seq<char>) -> bool {
    exists|i: int| 0 <= i < text.len() && is_lowercase(#[trigger] text[i])
}

pub open spec fn has_uppercase(text: Seq<char>) -> bool {
    exists|i: int| 0 <= i < text.len() && is_uppercase(#[trigger] text[i])
}

pub open spec fn has_digit(text: Seq<char>) -> bool {
    exists|i: int| 0 <= i < text.len() && is_digit(#[trigger] text[i])
}

pub open spec fn has_symbol(text: Seq<char>) -> bool {
    exists|i: int| 0 <= i < text.len() && is_symbol(#[trigger] text[i])
}

/// A minimum length in characters, and the character classes that a secret
/// must draw from.
#[derive(Debug, Clone, Copy, PartialEq, Eq, Structural)]
pub struct PasswordPolicy {
    pub min_length: usize,
    pub require_lowercase: bool,
    pub require_uppercase: bool,
    pub require_digit: bool,
    pub require_symbol: bool,
}

impl PasswordPolicy {
    /// Whether `secret` is long enough and holds a character of every
    /// class that the policy requires.
    pub open spec fn satisfied_by(self, secret: Seq<char>) -> bool {
        &&& secret.len() >= self.min_length
        &&& self.require_lowercase ==> has_lowercase(secret)
        &&& self.require_uppercase ==> has_uppercase(secret)
        &&& self.require_digit ==> has_digit(secret)
        &&& self.require_symbol ==> has_symbol(secret)
    }

    /// The policy that accepts every secret.
    pub fn permissive() -> (policy: PasswordPolicy)
        ensures
            policy == (PasswordPolicy {
                min_length: 0,
                require_lowercase: false,
                require_uppercase: false,
                require_digit: false,
                require_symbol: false,
            }),
            forall|secret: Seq<char>| policy.satisfied_by(secret),
    {
        PasswordPolicy {
            min_length: 0,
            require_lowercase: false,
            require_uppercase: false,
            require_digit: false,
            require_symbol: false,
        }
    }

    /// Tests a secret against the policy.
    pub fn admits(&self, secret: &str) -> (ok: bool)
        ensures
            ok == self.satisfied_by(secret@),
    {
        let n: usize = secret.unicode_len();
        let mut lower = false;
        let mut upper = false;
        let mut digit = false;
        let mut symbol = false;
        let mut i: usize = 0;
        while i < n
            invariant
                i <= n,
                n == secret@.len(),
                lower == has_lowercase(secret@.take(i as int)),
                upper == has_uppercase(secret@.take(i as int)),
                digit == has_digit(secret@.take(i as int)),
                symbol == has_symbol(secret@.take(i as int)),
            decreases n - i,
        {
            let c = secret.get_char(i);
            proof {
                lemma_classes_step(secret@, i as int);
            }
            if 'a' <= c && c <= 'z' {
                lower = true;
            } else if 'A' <= c && c <= 'Z' {
                upper = true;
            } else if '0' <= c && c <= '9' {
                digit = true;
            } else {
                symbol = true;
            }
            i += 1;
        }
        assert(secret@.take(n as int) =~= secret@);
        n >= self.min_length && (!self.require_lowercase || lower) && (!self.require_uppercase
            || upper) && (!self.require_digit || digit) && (!self.require_symbol || symbol)
    }
}

/// How the classes found in a prefix grow when the prefix takes one more
/// character.
proof fn lemma_classes_step(text: Seq<char>, i: int)
    requires
        0 <= i < text.len(),
    ensures
        has_lowercase(text.take(i + 1)) == (has_lowercase(text.take(i)) || is_lowercase(text[i])),
        has_uppercase(text.take(i + 1)) == (has_uppercase(text.take(i)) || is_uppercase(text[i])),
        has_digit(text.take(i + 1)) == (has_digit(text.take(i)) || is_digit(text[i])),
        has_symbol(text.take(i + 1)) == (has_symbol(text.take(i)) || is_symbol(text[i])),
{
    let shorter = text.take(i);
    let longer = text.take(i + 1);
    assert(longer[i] == text[i]);
    assert forall|j: int| 0 <= j < i implies shorter[j] == longer[j] by {}
    if has_lowercase(shorter) {
        let j = choose|j: int| 0 <= j < shorter.len() && is_lowercase(#[trigger] shorter[j]);
        assert(is_lowercase(longer[j]));
    }
    if has_uppercase(shorter) {
        let j = choose|j: int| 0 <= j < shorter.len() && is_uppercase(#[trigger] shorter[j]);
        assert(is_uppercase(longer[j]));
    }
    if has_digit(shorter) {
        let j = choose|j: int| 0 <= j < shorter.len() && is_digit(#[trigger] shorter[j]);
        assert(is_digit(longer[j]));
    }
    if has_symbol(shorter) {
        let j = choose|j: int| 0 <= j < shorter.len() && is_symbol(#[trigger] shorter[j]);
        assert(is_symbol(longer[j]));
    }
    if has_lowercase(longer) {
        let j = choose|j: int| 0 <= j < longer.len() && is_lowercase(#[trigger] longer[j]);
        if j < i {
            assert(is_lowercase(shorter[j]));
        }
    }
    if has_uppercase(longer) {
        let j = choose|j: int| 0 <= j < longer.len() && is_uppercase(#[trigger] longer[j]);
        if j < i {
            assert(is_uppercase(shorter[j]));
        }
    }
    if has_digit(longer) {
        let j = choose|j: int| 0 <= j < longer.len() && is_digit(#[trigger] longer[j]);
        if j < i {
            assert(is_digit(shorter[j]));
        }
    }
    if has_symbol(longer) {
        let j = choose|j: int| 0 <= j < longer.len() && is_symbol(#[trigger] longer[j]);
        if j < i {
            assert(is_symbol(shorter[j]));
        }
    }
}

} // verus!
