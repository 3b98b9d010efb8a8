//! Random passwords over chosen classes of characters.

use vstd::prelude::*;
use vstd::string::StringExecFns;

use rand::seq::IteratorRandom;
use rand::seq::SliceRandom;

use crate::cli::password::{DIGITS, LOWER_CASE, SYMBOLS, UPPER_CASE};

verus! {

/// Why no password was generated.
#[derive(Debug, Clone, Copy, PartialEq, Eq, Structural)]
pub enum PasswordError {
    /// A password of no characters was asked for.
    ZeroLength,
    /// The password is too short to hold a character of each chosen class.
    TooShort,
}

/// The characters of a class, if the class is chosen.
pub open spec fn class_chars(chosen: bool, class: Seq<char>) -> Seq<char> {
    if chosen {
        class
    } else {
        Seq::empty()
    }
}

/// All characters that a password over the chosen classes may hold.
pub open spec fn char_pool(
    uppercase: bool,
    lowercase: bool,
    digits: bool,
    symbols: bool,
) -> Seq<char> {
    class_chars(uppercase, UPPER_CASE@) + class_chars(lowercase, LOWER_CASE@)
        + class_chars(digits, DIGITS@) + class_chars(symbols, SYMBOLS@)
}

/// How many classes are chosen.
pub open spec fn class_count(uppercase: bool, lowercase: bool, digits: bool, symbols: bool) -> nat {
    let count = |chosen: bool| if chosen { 1nat } else { 0nat };
    count(uppercase) + count(lowercase) + count(digits) + count(symbols)
}

/// The password holds a character of the class, if the class is chosen.
pub open spec fn covers(password: Seq<char>, chosen: bool, class: Seq<char>) -> bool {
    chosen ==> exists|i: int| 0 <= i < password.len() && class.contains(#[trigger] password[i])
}

/// What is owed of a generated password: its length, that every character
/// comes from the chosen classes, and that every chosen class occurs.
pub open spec fn is_password_for(
    password: Seq<char>,
    length: nat,
    uppercase: bool,
    lowercase: bool,
    digits: bool,
    symbols: bool,
) -> bool {
    &&& password.len() == length
    &&& forall|i: int|
        0 <= i < password.len() ==> char_pool(uppercase, lowercase, digits, symbols).contains(
            #[trigger] password[i],
        )
    &&& covers(password, uppercase, UPPER_CASE@)
    &&& covers(password, lowercase, LOWER_CASE@)
    &&& covers(password, digits, DIGITS@)
    &&& covers(password, symbols, SYMBOLS@)
}

/// Calls `IteratorRandom::choose` on the characters of `pool`, with the
/// thread's generator.
///
/// Trusted: it gives `None` only for an empty pool, and else a character of
/// the pool. Which one is not known. The generator ends the program where the
/// operating system cannot seed it.
#[verifier::external_body]
fn choose_char(pool: &str) -> (chosen: Option<char>)
    ensures
        match chosen {
            Some(c) => pool@.contains(c),
            None => pool@.len() == 0,
        },
{
    pool.chars().choose(&mut rand::thread_rng())
}

/// Calls `SliceRandom::shuffle`, with the thread's generator.
///
/// Trusted: the characters are the same as before, each as often as before.
/// Their order is not known. The generator ends the program where the
/// operating system cannot seed it.
#[verifier::external_body]
fn shuffle(chars: &mut Vec<char>)
    ensures
        final(chars)@.to_multiset() == old(chars)@.to_multiset(),
{
    chars.shuffle(&mut rand::thread_rng());
}

/// Calls `String::push`.
///
/// Trusted: the character is added at the end and nothing else changes.
#[verifier::external_body]
fn push_char(text: &mut String, c: char)
    ensures
        final(text)@ == old(text)@.push(c),
{
    text.push(c);
}

/// The string of some characters, in their order.
fn string_of(chars: &Vec<char>) -> (text: String)
    ensures
        text@ == chars@,
{
    let mut text = String::new();
    let mut i: usize = 0;
    while i < chars.len()
        invariant
            i <= chars@.len(),
            text@ == chars@.subrange(0, i as int),
        decreases chars@.len() - i,
    {
        push_char(&mut text, chars[i]);
        assert(chars@.subrange(0, i + 1) =~= chars@.subrange(0, i as int).push(chars@[i as int]));
        i += 1;
    }
    assert(chars@.subrange(0, chars@.len() as int) =~= chars@);
    text
}

/// A character is in a concatenation exactly when it is in one of the parts.
proof fn lemma_concat_contains(a: Seq<char>, b: Seq<char>, c: char)
    ensures
        (a + b).contains(c) <==> a.contains(c) || b.contains(c),
{
    if a.contains(c) {
        let i = choose|i: int| 0 <= i < a.len() && a[i] == c;
        assert((a + b)[i] == c);
    }
    if b.contains(c) {
        let i = choose|i: int| 0 <= i < b.len() && b[i] == c;
        assert((a + b)[a.len() + i] == c);
    }
    if (a + b).contains(c) {
        let i = choose|i: int| 0 <= i < (a + b).len() && (a + b)[i] == c;
        if i < a.len() {
            assert(a[i] == c);
        } else {
            assert(b[i - a.len()] == c);
        }
    }
}

/// A shuffled password is still one.
proof fn lemma_shuffled_password(
    before: Seq<char>,
    after: Seq<char>,
    length: nat,
    uppercase: bool,
    lowercase: bool,
    digits: bool,
    symbols: bool,
)
    requires
        before.to_multiset() == after.to_multiset(),
        is_password_for(before, length, uppercase, lowercase, digits, symbols),
    ensures
        is_password_for(after, length, uppercase, lowercase, digits, symbols),
{
    before.to_multiset_ensures();
    after.to_multiset_ensures();
    assert forall|i: int| 0 <= i < after.len() implies char_pool(
        uppercase,
        lowercase,
        digits,
        symbols,
    ).contains(#[trigger] after[i]) by {
        assert(after.contains(after[i]));
        assert(before.to_multiset().count(after[i]) > 0);
        assert(before.contains(after[i]));
    }
    lemma_shuffle_covers(before, after, uppercase, UPPER_CASE@);
    lemma_shuffle_covers(before, after, lowercase, LOWER_CASE@);
    lemma_shuffle_covers(before, after, digits, DIGITS@);
    lemma_shuffle_covers(before, after, symbols, SYMBOLS@);
}

/// A class that occurs before a shuffle occurs after it.
proof fn lemma_shuffle_covers(before: Seq<char>, after: Seq<char>, chosen: bool, class: Seq<char>)
    requires
        before.to_multiset() == after.to_multiset(),
        covers(before, chosen, class),
    ensures
        covers(after, chosen, class),
{
    before.to_multiset_ensures();
    after.to_multiset_ensures();
    if chosen {
        let i = choose|i: int| 0 <= i < before.len() && class.contains(#[trigger] before[i]);
        assert(before.contains(before[i]));
        assert(after.to_multiset().count(before[i]) > 0);
        assert(after.contains(before[i]));
        let j = choose|j: int| 0 <= j < after.len() && after[j] == before[i];
        assert(class.contains(after[j]));
    }
}

/// No class of characters is empty.
proof fn lemma_classes_not_empty()
    ensures
        UPPER_CASE@.len() > 0,
        LOWER_CASE@.len() > 0,
        DIGITS@.len() > 0,
        SYMBOLS@.len() > 0,
{
    reveal_strlit("ABCDEFGHIJKLMNOPQRSTUVWXYZ");
    reveal_strlit("abcdefghijklmnopqrstuvwxyz");
    reveal_strlit("0123456789");
    reveal_strlit("!@#$%^&*()_+-=[]{}|;:,.<>?");
}

/// Whether a character belongs to one of the chosen classes.
pub open spec fn in_chosen_class(
    c: char,
    uppercase: bool,
    lowercase: bool,
    digits: bool,
    symbols: bool,
) -> bool {
    ||| uppercase && UPPER_CASE@.contains(c)
    ||| lowercase && LOWER_CASE@.contains(c)
    ||| digits && DIGITS@.contains(c)
    ||| symbols && SYMBOLS@.contains(c)
}

/// The pool holds the characters of the chosen classes and no others.
pub proof fn lemma_pool_members(
    c: char,
    uppercase: bool,
    lowercase: bool,
    digits: bool,
    symbols: bool,
)
    ensures
        char_pool(uppercase, lowercase, digits, symbols).contains(c) <==> in_chosen_class(
            c,
            uppercase,
            lowercase,
            digits,
            symbols,
        ),
{
    let upper = class_chars(uppercase, UPPER_CASE@);
    let lower = class_chars(lowercase, LOWER_CASE@);
    let digit = class_chars(digits, DIGITS@);
    let symbol = class_chars(symbols, SYMBOLS@);
    lemma_concat_contains(upper, lower, c);
    lemma_concat_contains(upper + lower, digit, c);
    lemma_concat_contains(upper + lower + digit, symbol, c);
}

/// Adds a class to the pool, and one character drawn from the class to the
/// password.
fn draw_from_class(pool: &mut String, password: &mut Vec<char>, class: &'static str)
    requires
        class@.len() > 0,
    ensures
        final(pool)@ == old(pool)@ + class@,
        final(password)@.len() == old(password)@.len() + 1,
        final(password)@.drop_last() == old(password)@,
        class@.contains(final(password)@.last()),
{
    pool.append(class);
    match choose_char(class) {
        Some(c) => {
            password.push(c);
            assert(password@.drop_last() =~= old(password)@);
        },
        None => {
            unreached::<()>();
        },
    }
}

/// A random password of `length` characters over the chosen classes, with at
/// least one character of each chosen class.
///
/// A length of zero is refused, and so is a length below the number of
/// chosen classes. With a length above zero some class has to be chosen.
pub fn password_gen(
    length: usize,
    uppercase: bool,
    lowercase: bool,
    digits: bool,
    symbols: bool,
) -> (r: Result<String, PasswordError>)
    requires
        length == 0 || uppercase || lowercase || digits || symbols,
    ensures
        match r {
            Ok(password) => {
                &&& length > 0
                &&& class_count(uppercase, lowercase, digits, symbols) <= length
                &&& is_password_for(
                    password@,
                    length as nat,
                    uppercase,
                    lowercase,
                    digits,
                    symbols,
                )
            },
            Err(e) => if length == 0 {
                e == PasswordError::ZeroLength
            } else {
                &&& length < class_count(uppercase, lowercase, digits, symbols)
                &&& e == PasswordError::TooShort
            },
        },
{
    if length == 0 {
        return Err(PasswordError::ZeroLength);
    }
    proof {
        lemma_classes_not_empty();
    }
    let ghost all = char_pool(uppercase, lowercase, digits, symbols);
    proof {
        assert forall|c: char| #[trigger] all.contains(c) <==> in_chosen_class(
            c,
            uppercase,
            lowercase,
            digits,
            symbols,
        ) by {
            lemma_pool_members(c, uppercase, lowercase, digits, symbols);
        }
    }
    let mut password: Vec<char> = Vec::new();
    let mut pool = String::new();
    if uppercase {
        draw_from_class(&mut pool, &mut password, UPPER_CASE);
        assert(UPPER_CASE@.contains(password@[password@.len() - 1]));
    }
    let ghost drawn = password@;
    if lowercase {
        draw_from_class(&mut pool, &mut password, LOWER_CASE);
        assert(LOWER_CASE@.contains(password@[password@.len() - 1]));
    }
    proof {
        assert(drawn =~= password@.subrange(0, drawn.len() as int));
        lemma_prefix_covers(drawn, password@, uppercase, UPPER_CASE@);
    }
    let ghost drawn = password@;
    if digits {
        draw_from_class(&mut pool, &mut password, DIGITS);
        assert(DIGITS@.contains(password@[password@.len() - 1]));
    }
    proof {
        assert(drawn =~= password@.subrange(0, drawn.len() as int));
        lemma_prefix_covers(drawn, password@, uppercase, UPPER_CASE@);
        lemma_prefix_covers(drawn, password@, lowercase, LOWER_CASE@);
    }
    let ghost drawn = password@;
    if symbols {
        draw_from_class(&mut pool, &mut password, SYMBOLS);
        assert(SYMBOLS@.contains(password@[password@.len() - 1]));
    }
    proof {
        assert(drawn =~= password@.subrange(0, drawn.len() as int));
        lemma_prefix_covers(drawn, password@, uppercase, UPPER_CASE@);
        lemma_prefix_covers(drawn, password@, lowercase, LOWER_CASE@);
        lemma_prefix_covers(drawn, password@, digits, DIGITS@);
        assert(pool@ =~= all);
    }
    assert(password@.len() == class_count(uppercase, lowercase, digits, symbols));
    if length < password.len() {
        return Err(PasswordError::TooShort);
    }
    while password.len() < length
        invariant
            password@.len() <= length,
            pool@ == all,
            all == char_pool(uppercase, lowercase, digits, symbols),
            all.len() > 0,
            forall|i: int| 0 <= i < password@.len() ==> all.contains(#[trigger] password@[i]),
            covers(password@, uppercase, UPPER_CASE@),
            covers(password@, lowercase, LOWER_CASE@),
            covers(password@, digits, DIGITS@),
            covers(password@, symbols, SYMBOLS@),
        decreases length - password@.len(),
    {
        let ghost before = password@;
        match choose_char(pool.as_str()) {
            Some(c) => {
                password.push(c);
            },
            None => {
                unreached::<()>();
            },
        }
        proof {
            assert(password@.drop_last() =~= before);
            lemma_prefix_covers(before, password@, uppercase, UPPER_CASE@);
            lemma_prefix_covers(before, password@, lowercase, LOWER_CASE@);
            lemma_prefix_covers(before, password@, digits, DIGITS@);
            lemma_prefix_covers(before, password@, symbols, SYMBOLS@);
        }
    }
    let ghost ordered = password@;
    shuffle(&mut password);
    proof {
        lemma_shuffled_password(
            ordered,
            password@,
            length as nat,
            uppercase,
            lowercase,
            digits,
            symbols,
        );
    }
    Ok(string_of(&password))
}

/// A class that occurs in the front of a password occurs in the password.
proof fn lemma_prefix_covers(front: Seq<char>, password: Seq<char>, chosen: bool, class: Seq<char>)
    requires
        front.len() <= password.len(),
        front == password.subrange(0, front.len() as int),
        covers(front, chosen, class),
    ensures
        covers(password, chosen, class),
{
    if chosen {
        let i = choose|i: int| 0 <= i < front.len() && class.contains(#[trigger] front[i]);
        assert(class.contains(password[i]));
    }
}

} // verus!
