//! Random passwords over chosen character classes.
//!
//! A password holds at least one character of each chosen class; the rest
//! are drawn from the union of the chosen classes, and the whole is shuffled.
use vstd::prelude::*;

use rand::seq::SliceRandom;

verus! {

broadcast use vstd::seq_lib::group_to_multiset_ensures;

/// Uppercase letters, without the easily misread `I`.
pub open spec fn upper_letters() -> Seq<u8> {
    seq![65u8, 66, 67, 68, 69, 70, 71, 72, 74, 75, 76, 77, 78, 79, 80, 81, 82, 83, 84, 85, 86, 87, 88, 89, 90]
}

/// Lowercase letters, without the easily misread `o`.
pub open spec fn lower_letters() -> Seq<u8> {
    seq![97u8, 98, 99, 100, 101, 102, 103, 104, 105, 106, 107, 108, 109, 110, 112, 113, 114, 115, 116, 117, 118, 119, 120, 121, 122]
}

/// Digits, without the easily misread `0`.
pub open spec fn digits() -> Seq<u8> {
    seq![49u8, 50, 51, 52, 53, 54, 55, 56, 57]
}

/// Punctuation symbols: `!@#$%^&*()_+-=[]{}|;:,.<>?/`.
pub open spec fn symbols() -> Seq<u8> {
    seq![33u8, 64, 35, 36, 37, 94, 38, 42, 40, 41, 95, 43, 45, 61, 91, 93, 123, 125, 124, 59, 58, 44, 46, 60, 62, 63, 47]
}

/// Which character classes a password is drawn from.
#[derive(Debug, Clone, Copy, PartialEq, Eq, Structural)]
pub struct CharClasses {
    pub upper: bool,
    pub lower: bool,
    pub number: bool,
    pub symbol: bool,
}

impl CharClasses {
    /// How many classes are chosen.
    pub open spec fn count(self) -> nat {
        (if self.upper { 1nat } else { 0nat }) + (if self.lower { 1nat } else { 0nat }) + (if self.number {
            1nat
        } else {
            0nat
        }) + (if self.symbol { 1nat } else { 0nat })
    }

    /// Whether `b` belongs to one of the chosen classes.
    pub open spec fn allows(self, b: u8) -> bool {
        ||| self.upper && upper_letters().contains(b)
        ||| self.lower && lower_letters().contains(b)
        ||| self.number && digits().contains(b)
        ||| self.symbol && symbols().contains(b)
    }
}

/// Whether `pw` holds some character of `class`.
pub open spec fn has_one_of(pw: Seq<u8>, class: Seq<u8>) -> bool {
    exists|c: u8| #[trigger] class.contains(c) && pw.contains(c)
}

/// Whether `pw` is a password of `length` characters over `classes`.
pub open spec fn is_password(pw: Seq<u8>, length: nat, classes: CharClasses) -> bool {
    &&& pw.len() == length
    &&& forall|i: int| 0 <= i < pw.len() ==> classes.allows(#[trigger] pw[i])
    &&& classes.upper ==> has_one_of(pw, upper_letters())
    &&& classes.lower ==> has_one_of(pw, lower_letters())
    &&& classes.number ==> has_one_of(pw, digits())
    &&& classes.symbol ==> has_one_of(pw, symbols())
}

/// Why no password could be made.
#[derive(Debug, Clone, Copy, PartialEq, Eq, Structural)]
pub enum PasswordError {
    /// The length is below the number of chosen classes.
    TooShort,
    /// Characters are asked for, but no class is chosen.
    NoCharacterClass,
}

/// The outcome that the inputs call for, leaving the random characters open.
pub open spec fn password_outcome(length: nat, classes: CharClasses) -> Result<(), PasswordError> {
    if length < classes.count() {
        Err(PasswordError::TooShort)
    } else if classes.count() == 0 && length > 0 {
        Err(PasswordError::NoCharacterClass)
    } else {
        Ok(())
    }
}

/// Relies on `SliceRandom::choose` with the thread-local generator: some
/// element of a non-empty slice.
#[verifier::external_body]
fn choose_byte(pool: &[u8]) -> (r: u8)
    requires
        pool@.len() > 0,
    ensures
        pool@.contains(r),
{
    *pool.choose(&mut rand::thread_rng()).unwrap()
}

/// Relies on `SliceRandom::shuffle` with the thread-local generator: a
/// permutation of the elements.
#[verifier::external_body]
fn shuffle_bytes(v: &mut Vec<u8>)
    ensures
        final(v)@.len() == old(v)@.len(),
        final(v)@.to_multiset() == old(v)@.to_multiset(),
{
    v.as_mut_slice().shuffle(&mut rand::thread_rng());
}

/// Relies on `String::from_utf8`, which accepts every ASCII byte sequence
/// and keeps each byte as one character.
#[verifier::external_body]
fn ascii_to_string(bytes: Vec<u8>) -> (r: String)
    requires
        forall|i: int| 0 <= i < bytes@.len() ==> bytes@[i] < 128,
    ensures
        r@ == Seq::new(bytes@.len(), |i: int| bytes@[i] as char),
{
    String::from_utf8(bytes).unwrap()
}

fn upper_pool() -> (v: Vec<u8>)
    ensures
        v@ == upper_letters(),
{
    let v = vec![65u8, 66, 67, 68, 69, 70, 71, 72, 74, 75, 76, 77, 78, 79, 80, 81, 82, 83, 84, 85, 86, 87, 88, 89, 90];
    proof {
        assert(v@ =~= upper_letters());
    }
    v
}

fn lower_pool() -> (v: Vec<u8>)
    ensures
        v@ == lower_letters(),
{
    let v = vec![97u8, 98, 99, 100, 101, 102, 103, 104, 105, 106, 107, 108, 109, 110, 112, 113, 114, 115, 116, 117, 118, 119, 120, 121, 122];
    proof {
        assert(v@ =~= lower_letters());
    }
    v
}

fn digit_pool() -> (v: Vec<u8>)
    ensures
        v@ == digits(),
{
    let v = vec![49u8, 50, 51, 52, 53, 54, 55, 56, 57];
    proof {
        assert(v@ =~= digits());
    }
    v
}

fn symbol_pool() -> (v: Vec<u8>)
    ensures
        v@ == symbols(),
{
    let v = vec![33u8, 64, 35, 36, 37, 94, 38, 42, 40, 41, 95, 43, 45, 61, 91, 93, 123, 125, 124, 59, 58, 44, 46, 60, 62, 63, 47];
    proof {
        assert(v@ =~= symbols());
    }
    v
}

/// Every character of a class belongs to the chosen classes when the class is chosen.
proof fn lemma_class_allowed(classes: CharClasses, class: Seq<u8>, c: u8)
    requires
        class.contains(c),
        (class == upper_letters() && classes.upper) || (class == lower_letters() && classes.lower)
            || (class == digits() && classes.number) || (class == symbols() && classes.symbol),
    ensures
        classes.allows(c),
{
}

/// Adds one character of `class` to `password`, and the class to `pool`.
fn take_class(password: &mut Vec<u8>, pool: &mut Vec<u8>, class: Vec<u8>, classes: CharClasses)
    requires
        class@.len() > 0,
        (class@ == upper_letters() && classes.upper) || (class@ == lower_letters() && classes.lower)
            || (class@ == digits() && classes.number) || (class@ == symbols() && classes.symbol),
        forall|i: int| 0 <= i < old(password)@.len() ==> classes.allows(#[trigger] old(password)@[i]),
        forall|i: int| 0 <= i < old(pool)@.len() ==> classes.allows(#[trigger] old(pool)@[i]),
    ensures
        final(password)@ == old(password)@.push(final(password)@.last()),
        class@.contains(final(password)@.last()),
        forall|i: int| 0 <= i < final(password)@.len() ==> classes.allows(#[trigger] final(password)@[i]),
        forall|i: int| 0 <= i < final(pool)@.len() ==> classes.allows(#[trigger] final(pool)@[i]),
        final(pool)@.len() == old(pool)@.len() + class@.len(),
{
    let c = choose_byte(class.as_slice());
    proof {
        lemma_class_allowed(classes, class@, c);
    }
    password.push(c);
    let mut class = class;
    let ghost added = class@;
    proof {
        assert forall|i: int| 0 <= i < added.len() implies classes.allows(#[trigger] added[i]) by {
            assert(added.contains(added[i]));
            lemma_class_allowed(classes, added, added[i]);
        }
    }
    let ghost before = pool@;
    pool.append(&mut class);
    proof {
        assert forall|i: int| 0 <= i < pool@.len() implies classes.allows(#[trigger] pool@[i]) by {
            if i >= before.len() {
                assert(pool@[i] == added[i - before.len()]);
            }
        }
    }
}

/// A character kept in a sequence stays there when another is pushed.
proof fn lemma_push_keeps_class(pw: Seq<u8>, x: u8, class: Seq<u8>)
    requires
        has_one_of(pw, class),
    ensures
        has_one_of(pw.push(x), class),
{
    let c = choose|c: u8| #[trigger] class.contains(c) && pw.contains(c);
    let j = choose|j: int| 0 <= j < pw.len() && pw[j] == c;
    assert(pw.push(x)[j] == c);
    assert(class.contains(c) && pw.push(x).contains(c));
}

/// A character kept in a sequence stays in any permutation of it.
proof fn lemma_permutation_keeps_class(a: Seq<u8>, b: Seq<u8>, class: Seq<u8>)
    requires
        has_one_of(a, class),
        a.to_multiset() == b.to_multiset(),
    ensures
        has_one_of(b, class),
{
    let c = choose|c: u8| #[trigger] class.contains(c) && a.contains(c);
    assert(a.to_multiset().count(c) > 0);
    assert(b.contains(c));
    assert(class.contains(c) && b.contains(c));
}

/// Every character of the chosen classes is ASCII.
proof fn lemma_allowed_is_ascii(classes: CharClasses, b: u8)
    requires
        classes.allows(b),
    ensures
        b < 128,
{
    assert forall|i: int| 0 <= i < upper_letters().len() implies upper_letters()[i] < 128 by {}
    assert forall|i: int| 0 <= i < lower_letters().len() implies lower_letters()[i] < 128 by {}
    assert forall|i: int| 0 <= i < digits().len() implies digits()[i] < 128 by {}
    assert forall|i: int| 0 <= i < symbols().len() implies symbols()[i] < 128 by {}
}

/// Draws a password of `length` characters over `classes`: one of each
/// chosen class, the rest from all chosen classes, then shuffled.
pub fn generate_password(length: u8, classes: CharClasses) -> (r: Result<Vec<u8>, PasswordError>)
    ensures
        match password_outcome(length as nat, classes) {
            Ok(_) => r matches Ok(pw) && is_password(pw@, length as nat, classes),
            Err(e) => r == Err::<Vec<u8>, PasswordError>(e),
        },
{
    let count: u8 = (if classes.upper { 1u8 } else { 0u8 }) + (if classes.lower { 1u8 } else { 0u8 })
        + (if classes.number { 1u8 } else { 0u8 }) + (if classes.symbol { 1u8 } else { 0u8 });
    if length < count {
        return Err(PasswordError::TooShort);
    }
    if count == 0 && length > 0 {
        return Err(PasswordError::NoCharacterClass);
    }
    let mut password: Vec<u8> = Vec::new();
    let mut pool: Vec<u8> = Vec::new();
    if classes.upper {
        take_class(&mut password, &mut pool, upper_pool(), classes);
        proof {
            assert(upper_letters().contains(password@.last()) && password@.contains(password@.last()));
        }
    }
    if classes.lower {
        let ghost prev = password@;
        take_class(&mut password, &mut pool, lower_pool(), classes);
        proof {
            assert(lower_letters().contains(password@.last()) && password@.contains(password@.last()));
            if classes.upper {
                lemma_push_keeps_class(prev, password@.last(), upper_letters());
            }
        }
    }
    if classes.number {
        let ghost prev = password@;
        take_class(&mut password, &mut pool, digit_pool(), classes);
        proof {
            assert(digits().contains(password@.last()) && password@.contains(password@.last()));
            if classes.upper {
                lemma_push_keeps_class(prev, password@.last(), upper_letters());
            }
            if classes.lower {
                lemma_push_keeps_class(prev, password@.last(), lower_letters());
            }
        }
    }
    if classes.symbol {
        let ghost prev = password@;
        take_class(&mut password, &mut pool, symbol_pool(), classes);
        proof {
            assert(symbols().contains(password@.last()) && password@.contains(password@.last()));
            if classes.upper {
                lemma_push_keeps_class(prev, password@.last(), upper_letters());
            }
            if classes.lower {
                lemma_push_keeps_class(prev, password@.last(), lower_letters());
            }
            if classes.number {
                lemma_push_keeps_class(prev, password@.last(), digits());
            }
        }
    }
    while password.len() < length as usize
        invariant
            password@.len() <= length,
            count > 0 ==> pool@.len() > 0,
            count == 0 ==> length == 0,
            count as nat == classes.count(),
            forall|i: int| 0 <= i < password@.len() ==> classes.allows(#[trigger] password@[i]),
            forall|i: int| 0 <= i < pool@.len() ==> classes.allows(#[trigger] pool@[i]),
            classes.upper ==> has_one_of(password@, upper_letters()),
            classes.lower ==> has_one_of(password@, lower_letters()),
            classes.number ==> has_one_of(password@, digits()),
            classes.symbol ==> has_one_of(password@, symbols()),
        decreases length - password@.len(),
    {
        let c = choose_byte(pool.as_slice());
        let ghost prev = password@;
        password.push(c);
        proof {
            let j = choose|j: int| 0 <= j < pool@.len() && pool@[j] == c;
            assert(classes.allows(pool@[j]));
            if classes.upper {
                lemma_push_keeps_class(prev, c, upper_letters());
            }
            if classes.lower {
                lemma_push_keeps_class(prev, c, lower_letters());
            }
            if classes.number {
                lemma_push_keeps_class(prev, c, digits());
            }
            if classes.symbol {
                lemma_push_keeps_class(prev, c, symbols());
            }
        }
    }
    let ghost drawn = password@;
    shuffle_bytes(&mut password);
    proof {
        assert(password@.len() == drawn.len());
        assert forall|i: int| 0 <= i < password@.len() implies classes.allows(#[trigger] password@[i]) by {
            assert(password@.contains(password@[i]));
            assert(password@.to_multiset().count(password@[i]) > 0);
            assert(drawn.contains(password@[i]));
        }
        if classes.upper {
            lemma_permutation_keeps_class(drawn, password@, upper_letters());
        }
        if classes.lower {
            lemma_permutation_keeps_class(drawn, password@, lower_letters());
        }
        if classes.number {
            lemma_permutation_keeps_class(drawn, password@, digits());
        }
        if classes.symbol {
            lemma_permutation_keeps_class(drawn, password@, symbols());
        }
    }
    Ok(password)
}

/// The text of an ASCII byte sequence.
pub open spec fn ascii_text(bytes: Seq<u8>) -> Seq<char> {
    Seq::new(bytes.len(), |i: int| bytes[i] as char)
}

/// Generates a random password of `length` characters from the chosen
/// classes, with at least one character of each chosen class.
pub fn process_genpasswd(length: u8, upper: bool, lower: bool, number: bool, symbol: bool) -> (r:
    Result<String, PasswordError>)
    ensures
        match password_outcome(length as nat, CharClasses { upper, lower, number, symbol }) {
            Ok(_) => r matches Ok(s) && exists|pw: Seq<u8>|
                is_password(pw, length as nat, CharClasses { upper, lower, number, symbol })
                    && s@ == #[trigger] ascii_text(pw),
            Err(e) => r == Err::<String, PasswordError>(e),
        },
{
    let classes = CharClasses { upper, lower, number, symbol };
    match generate_password(length, classes) {
        Ok(pw) => {
            proof {
                assert forall|i: int| 0 <= i < pw@.len() implies pw@[i] < 128 by {
                    lemma_allowed_is_ascii(classes, pw@[i]);
                }
            }
            let ghost bytes = pw@;
            let s = ascii_to_string(pw);
            proof {
                assert(s@ =~= ascii_text(bytes));
            }
            Ok(s)
        },
        Err(e) => Err(e),
    }
}

} // verus!
