//! Passwords: the policy under which they are generated, and the secret
//! taken from a line of standard input.
//!
//! The random choice is made by the `passwords` crate; what a policy admits
//! is defined here.

use crate::error::{SecretError, SecretErrorView};
use vstd::prelude::*;
use vstd::string::*;

verus! {

/// The number of character classes that a generated password draws from:
/// digits, lowercase letters, uppercase letters and symbols.
pub const CHARACTER_CLASSES: u8 = 4;

pub open spec fn is_digit(c: char) -> bool {
    '0' <= c <= '9'
}

pub open spec fn is_lowercase(c: char) -> bool {
    'a' <= c <= 'z'
}

pub open spec fn is_uppercase(c: char) -> bool {
    'A' <= c <= 'Z'
}

/// The 32 punctuation characters of ASCII.
pub open spec fn is_symbol(c: char) -> bool {
    '!' <= c <= '/' || ':' <= c <= '@' || '[' <= c <= '`' || '{' <= c <= '~'
}

/// The characters that are easily taken for another: ``iI1loO0"'`|``.
pub open spec fn is_look_alike(c: char) -> bool {
    c == 'i' || c == 'I' || c == '1' || c == 'l' || c == 'o' || c == 'O' || c == '0' || c == '"'
        || c == '\'' || c == '`' || c == '|'
}

pub open spec fn has_digit(text: Seq<char>) -> bool {
    exists|i: int| 0 <= i < text.len() && is_digit(#[trigger] text[i])
}

pub open spec fn has_lowercase(text: Seq<char>) -> bool {
    exists|i: int| 0 <= i < text.len() && is_lowercase(#[trigger] text[i])
}

pub open spec fn has_uppercase(text: Seq<char>) -> bool {
    exists|i: int| 0 <= i < text.len() && is_uppercase(#[trigger] text[i])
}

pub open spec fn has_symbol(text: Seq<char>) -> bool {
    exists|i: int| 0 <= i < text.len() && is_symbol(#[trigger] text[i])
}

pub open spec fn has_space(text: Seq<char>) -> bool {
    exists|i: int| 0 <= i < text.len() && #[trigger] text[i] == ' '
}

/// What a generated password may and must contain.
#[derive(Clone, Copy, Debug)]
pub struct PasswordPolicy {
    /// The number of characters.
    pub length: usize,
    /// Digits are allowed, and required if `strict`.
    pub numbers: bool,
    /// Lowercase letters are allowed, and required if `strict`.
    pub lowercase_letters: bool,
    /// Uppercase letters are allowed, and required if `strict`.
    pub uppercase_letters: bool,
    /// Symbols are allowed, and required if `strict`.
    pub symbols: bool,
    /// The space is allowed, and required if `strict`.
    pub spaces: bool,
    /// No look-alike character is allowed.
    pub exclude_similar_characters: bool,
    /// Every allowed class must occur.
    pub strict: bool,
}

impl PasswordPolicy {
    /// Whether `c` may occur in a password.
    pub open spec fn admits(self, c: char) -> bool {
        &&& self.exclude_similar_characters ==> !is_look_alike(c)
        &&& {
            ||| self.numbers && is_digit(c)
            ||| self.lowercase_letters && is_lowercase(c)
            ||| self.uppercase_letters && is_uppercase(c)
            ||| self.symbols && is_symbol(c)
            ||| self.spaces && c == ' '
        }
    }

    /// The number of allowed classes.
    pub open spec fn classes(self) -> nat {
        (if self.numbers { 1nat } else { 0nat })
            + (if self.lowercase_letters { 1nat } else { 0nat })
            + (if self.uppercase_letters { 1nat } else { 0nat })
            + (if self.symbols { 1nat } else { 0nat })
            + (if self.spaces { 1nat } else { 0nat })
    }

    /// Whether any password meets the policy: it has a length and a class,
    /// and, if strict, room for one character of each class.
    pub open spec fn satisfiable(self) -> bool {
        &&& self.length > 0
        &&& self.classes() > 0
        &&& self.strict ==> self.length >= self.classes()
    }

    /// Whether `text` meets the policy.
    pub open spec fn accepts(self, text: Seq<char>) -> bool {
        &&& text.len() == self.length
        &&& forall|i: int| 0 <= i < text.len() ==> self.admits(#[trigger] text[i])
        &&& self.strict ==> {
            &&& self.numbers ==> has_digit(text)
            &&& self.lowercase_letters ==> has_lowercase(text)
            &&& self.uppercase_letters ==> has_uppercase(text)
            &&& self.symbols ==> has_symbol(text)
            &&& self.spaces ==> has_space(text)
        }
    }

    /// The policy of generated secrets: `length` characters from the four
    /// classes, each of which must occur, without spaces or look-alikes.
    pub open spec fn spec_standard(length: u8) -> PasswordPolicy {
        PasswordPolicy {
            length: length as usize,
            numbers: true,
            lowercase_letters: true,
            uppercase_letters: true,
            symbols: true,
            spaces: false,
            exclude_similar_characters: true,
            strict: true,
        }
    }

    #[verifier::when_used_as_spec(spec_standard)]
    pub fn standard(length: u8) -> (policy: PasswordPolicy)
        ensures
            policy == Self::spec_standard(length),
    {
        PasswordPolicy {
            length: length as usize,
            numbers: true,
            lowercase_letters: true,
            uppercase_letters: true,
            symbols: true,
            spaces: false,
            exclude_similar_characters: true,
            strict: true,
        }
    }
}

/// The shape of a generated secret of `length` characters: every character
/// is a digit, a letter or a symbol, none is a look-alike or a space, and
/// each of the four classes occurs.
pub open spec fn well_shaped(text: Seq<char>, length: nat) -> bool {
    &&& text.len() == length
    &&& forall|i: int|
        0 <= i < text.len() ==> {
            let c = #[trigger] text[i];
            &&& is_digit(c) || is_lowercase(c) || is_uppercase(c) || is_symbol(c)
            &&& !is_look_alike(c)
            &&& c != ' '
        }
    &&& has_digit(text)
    &&& has_lowercase(text)
    &&& has_uppercase(text)
    &&& has_symbol(text)
}

/// Under the standard policy a password exists exactly from four characters
/// on, and every password that the policy accepts is well shaped.
pub proof fn lemma_standard_policy(length: u8, text: Seq<char>)
    ensures
        PasswordPolicy::standard(length).satisfiable() <==> length >= CHARACTER_CLASSES,
        PasswordPolicy::standard(length).accepts(text) <==> well_shaped(text, length as nat),
{
    let policy = PasswordPolicy::standard(length);
    assert(policy.classes() == 4);
    if policy.accepts(text) {
        assert forall|i: int| 0 <= i < text.len() implies {
            let c = #[trigger] text[i];
            &&& is_digit(c) || is_lowercase(c) || is_uppercase(c) || is_symbol(c)
            &&& !is_look_alike(c)
            &&& c != ' '
        } by {
            assert(policy.admits(text[i]));
        }
    }
    if well_shaped(text, length as nat) {
        assert forall|i: int| 0 <= i < text.len() implies policy.admits(#[trigger] text[i]) by {
            let c = text[i];
            assert(is_digit(c) || is_lowercase(c) || is_uppercase(c) || is_symbol(c));
        }
    }
}

/// Calls `passwords::PasswordGenerator::generate_one` on a generator with
/// the fields of `policy`.
///
/// Trusted: the generator refuses exactly the policies that no password can
/// meet (no length, no class, or strict with fewer characters than classes)
/// and otherwise returns a password that the policy accepts. Which password
/// is left open: it is drawn at random, from the generator of the running
/// thread, which gives up with a panic if the system has no randomness to
/// seed it with.
#[verifier::external_body]
fn draw_password(policy: PasswordPolicy) -> (outcome: Result<String, String>)
    ensures
        outcome is Ok <==> policy.satisfiable(),
        outcome is Ok ==> policy.accepts(outcome->Ok_0@),
{
    let generator = passwords::PasswordGenerator {
        length: policy.length,
        numbers: policy.numbers,
        lowercase_letters: policy.lowercase_letters,
        uppercase_letters: policy.uppercase_letters,
        symbols: policy.symbols,
        spaces: policy.spaces,
        exclude_similar_characters: policy.exclude_similar_characters,
        strict: policy.strict,
    };
    match generator.generate_one() {
        Ok(password) => Ok(password),
        Err(reason) => Err(String::from(reason)),
    }
}

/// The result of generating a password, given what the generator returned:
/// its password, or its refusal as a [`SecretError::GenerationError`].
pub fn password_from_outcome(outcome: Result<String, String>) -> (result: Result<
    String,
    SecretError,
>)
    ensures
        match outcome {
            Ok(password) => result matches Ok(p) && p@ == password@,
            Err(reason) => result matches Err(e) && e@ == SecretErrorView::GenerationError(
                reason@,
            ),
        },
{
    match outcome {
        Ok(password) => Ok(password),
        Err(reason) => Err(SecretError::GenerationError(reason)),
    }
}

/// Generates a random secret of `length` characters under the standard
/// policy.
///
/// Fails with a [`SecretError::GenerationError`] exactly when `length` is
/// below the number of character classes; otherwise the secret is well
/// shaped.
pub fn generate_password(length: u8) -> (result: Result<String, SecretError>)
    ensures
        result is Err <==> length < CHARACTER_CLASSES,
        result matches Err(e) ==> e@ is GenerationError,
        result matches Ok(password) ==> well_shaped(password@, length as nat),
{
    let outcome = draw_password(PasswordPolicy::standard(length));
    proof {
        lemma_standard_policy(length, outcome->Ok_0@);
    }
    password_from_outcome(outcome)
}

/// The message of the error for a standard input that ended before a line.
pub open spec fn end_of_input() -> Seq<char> {
    "end of input while reading the secret"@
}

/// The secret that a line of input stands for: the line without its
/// trailing newline, if it has one.
pub open spec fn line_secret(line: Seq<char>) -> Seq<char> {
    if line.len() > 0 && line.last() == '\n' {
        line.drop_last()
    } else {
        line
    }
}

/// The secret taken from standard input: `read` is the line that was read,
/// newline included, empty at the end of input, or the reason why reading
/// failed.
///
/// Fails with a [`SecretError::IoError`] on a failed read and at the end of
/// input; otherwise the secret is the line without its trailing newline.
pub fn password_from_line(read: &Result<String, String>) -> (result: Result<String, SecretError>)
    ensures
        match *read {
            Ok(line) => if line@.len() == 0 {
                result matches Err(e) && e@ == SecretErrorView::IoError(end_of_input())
            } else {
                result matches Ok(password) && password@ == line_secret(line@)
            },
            Err(reason) => result matches Err(e) && e@ == SecretErrorView::IoError(reason@),
        },
{
    match read {
        Ok(line) => {
            let text = line.as_str();
            let length = text.unicode_len();
            if length == 0 {
                Err(SecretError::IoError(String::from_str("end of input while reading the secret")))
            } else if text.get_char(length - 1) == '\n' {
                Ok(String::from_str(text.substring_char(0, length - 1)))
            } else {
                Ok(line.clone())
            }
        },
        Err(reason) => Err(SecretError::IoError(reason.clone())),
    }
}

} // verus!
