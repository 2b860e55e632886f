//! Input validation for the account routes: the email shape check, the
//! password strength rules and the name rules, each with the exact message
//! the service answers with. Character classes beyond ASCII come from the
//! standard library's Unicode tables, named but not restated here.

use crate::model::{UserCreateInput, UserUpdateInput};
use crate::parse::is_digit_char;
use vstd::prelude::*;
use vstd::slice::axiom_spec_len;

verus! {

/// Whether `char::is_uppercase` holds: Unicode's uppercase-letter class.
pub uninterp spec fn uppercase_char(c: char) -> bool;

/// Whether `char::is_lowercase` holds: Unicode's lowercase-letter class.
pub uninterp spec fn lowercase_char(c: char) -> bool;

/// Whether `char::is_alphanumeric` holds: Unicode letters and numbers.
pub uninterp spec fn alphanumeric_char(c: char) -> bool;

/// Relies on char::is_uppercase: Unicode classification, a pure function of
/// the character.
#[verifier::external_body]
pub(crate) fn char_is_uppercase(c: char) -> (r: bool)
    ensures
        r == uppercase_char(c),
{
    c.is_uppercase()
}

/// Relies on char::is_lowercase: Unicode classification, a pure function of
/// the character.
#[verifier::external_body]
pub(crate) fn char_is_lowercase(c: char) -> (r: bool)
    ensures
        r == lowercase_char(c),
{
    c.is_lowercase()
}

/// Relies on char::is_alphanumeric: Unicode classification, a pure function
/// of the character.
#[verifier::external_body]
pub(crate) fn char_is_alphanumeric(c: char) -> (r: bool)
    ensures
        r == alphanumeric_char(c),
{
    c.is_alphanumeric()
}

/// The accepted email shape: some text, one `@`, then text holding a `.`
/// with at least one character on each side — nothing before the `@` or
/// after it may be another `@`.
pub open spec fn valid_email(s: Seq<char>) -> bool {
    exists|p: int, d: int|
        {
            &&& 1 <= p
            &&& p + 2 <= d
            &&& d + 1 < s.len()
            &&& #[trigger] s[p] == '@'
            &&& #[trigger] s[d] == '.'
            &&& forall|i: int| 0 <= i < s.len() && i != p ==> s[i] != '@'
        }
}

/// Check the email shape.
pub fn is_valid_email(s: &str) -> (r: bool)
    ensures
        r == valid_email(s@),
{
    let n = s.unicode_len();
    // Find the unique '@'.
    let mut at: usize = 0;
    let mut found_at = false;
    let mut i: usize = 0;
    while i < n
        invariant
            i <= n,
            n == s@.len(),
            found_at ==> at < i && s@[at as int] == '@',
            forall|k: int| 0 <= k < i && k != at ==> s@[k] != '@',
            !found_at ==> forall|k: int| 0 <= k < i ==> s@[k] != '@',
        decreases n - i,
    {
        if s.get_char(i) == '@' {
            if found_at {
                proof {
                    let p0 = at as int;
                    let p1 = i as int;
                    assert forall|p: int, d: int|
                        !(1 <= p && p + 2 <= d && d + 1 < s@.len() && s@[p] == '@' && s@[d] == '.'
                            && (forall|k: int|
                            0 <= k < s@.len() && k != p ==> s@[k] != '@')) by {
                        if 1 <= p && p + 2 <= d && d + 1 < s@.len() && s@[p] == '@' && s@[d] == '.'
                            && (forall|k: int| 0 <= k < s@.len() && k != p ==> s@[k] != '@') {
                            assert(p0 != p1);
                            assert(s@[p0] == '@' && s@[p1] == '@');
                        }
                    }
                }
                return false;
            }
            at = i;
            found_at = true;
        }
        i += 1;
    }
    if !found_at || at == 0 {
        proof {
            assert forall|p: int, d: int|
                !(1 <= p && p + 2 <= d && d + 1 < s@.len() && s@[p] == '@' && s@[d] == '.' && (
                forall|k: int|
                    0 <= k < s@.len() && k != p ==> s@[k] != '@')) by {
                if 1 <= p && p + 2 <= d && d + 1 < s@.len() && s@[p] == '@' && s@[d] == '.' && (
                forall|k: int| 0 <= k < s@.len() && k != p ==> s@[k] != '@') {
                    if !found_at {
                        assert(s@[p] != '@');
                    } else {
                        assert(p == at as int);
                    }
                }
            }
        }
        return false;
    }
    // Find a '.' with a character on each side, strictly after the '@'.
    if n - at < 4 {
        proof {
            assert forall|p: int, d: int|
                !(1 <= p && p + 2 <= d && d + 1 < s@.len() && s@[p] == '@' && s@[d] == '.' && (
                forall|k: int|
                    0 <= k < s@.len() && k != p ==> s@[k] != '@')) by {
                if 1 <= p && p + 2 <= d && d + 1 < s@.len() && s@[p] == '@' && s@[d] == '.' && (
                forall|k: int| 0 <= k < s@.len() && k != p ==> s@[k] != '@') {
                    assert(p == at as int);
                }
            }
        }
        return false;
    }
    let mut d: usize = at + 2;
    while d < n - 1
        invariant
            1 <= at,
            at + 2 <= d,
            d <= n,
            n == s@.len(),
            at < n,
            s@[at as int] == '@',
            forall|k: int| 0 <= k < n && k != at ==> s@[k] != '@',
            forall|k: int| at + 2 <= k < d ==> s@[k] != '.',
        decreases n - d,
    {
        if s.get_char(d) == '.' {
            proof {
                assert(valid_email(s@)) by {
                    assert(1 <= at as int && at as int + 2 <= d as int && d as int + 1 < s@.len()
                        && s@[at as int] == '@' && s@[d as int] == '.');
                }
            }
            return true;
        }
        d += 1;
    }
    proof {
        assert forall|p: int, dd: int|
            !(1 <= p && p + 2 <= dd && dd + 1 < s@.len() && s@[p] == '@' && s@[dd] == '.' && (
            forall|k: int|
                0 <= k < s@.len() && k != p ==> s@[k] != '@')) by {
            if 1 <= p && p + 2 <= dd && dd + 1 < s@.len() && s@[p] == '@' && s@[dd] == '.' && (
            forall|k: int| 0 <= k < s@.len() && k != p ==> s@[k] != '@') {
                assert(p == at as int);
                assert(at + 2 <= dd && dd + 1 < n);
                assert(s@[dd] != '.');
            }
        }
    }
    false
}

/// Byte length of a string, the measure the length rules use.
pub open spec fn byte_len(s: Seq<char>) -> nat {
    vstd::utf8::encode_utf8(s).len()
}

pub open spec fn has_uppercase(s: Seq<char>) -> bool {
    exists|i: int| 0 <= i < s.len() && uppercase_char(#[trigger] s[i])
}

pub open spec fn has_lowercase(s: Seq<char>) -> bool {
    exists|i: int| 0 <= i < s.len() && lowercase_char(#[trigger] s[i])
}

pub open spec fn has_digit(s: Seq<char>) -> bool {
    exists|i: int| 0 <= i < s.len() && is_digit_char(#[trigger] s[i])
}

pub open spec fn has_special(s: Seq<char>) -> bool {
    exists|i: int| 0 <= i < s.len() && !alphanumeric_char(#[trigger] s[i])
}

/// The password strength rule: at least one uppercase letter, one lowercase
/// letter, one decimal digit and one non-alphanumeric character.
pub open spec fn password_classes_ok(s: Seq<char>) -> bool {
    has_uppercase(s) && has_lowercase(s) && has_digit(s) && has_special(s)
}

fn check_password_classes(s: &str) -> (r: bool)
    ensures
        r == password_classes_ok(s@),
{
    let n = s.unicode_len();
    let mut has_upper = false;
    let mut has_lower = false;
    let mut has_dig = false;
    let mut has_spec = false;
    let mut i: usize = 0;
    while i < n
        invariant
            i <= n,
            n == s@.len(),
            has_upper == exists|j: int| 0 <= j < i && uppercase_char(#[trigger] s@[j]),
            has_lower == exists|j: int| 0 <= j < i && lowercase_char(#[trigger] s@[j]),
            has_dig == exists|j: int| 0 <= j < i && is_digit_char(#[trigger] s@[j]),
            has_spec == exists|j: int| 0 <= j < i && !alphanumeric_char(#[trigger] s@[j]),
        decreases n - i,
    {
        let c = s.get_char(i);
        if char_is_uppercase(c) {
            has_upper = true;
        }
        if char_is_lowercase(c) {
            has_lower = true;
        }
        let cu = c as u32;
        if 48 <= cu && cu <= 57 {
            has_dig = true;
        }
        if !char_is_alphanumeric(c) {
            has_spec = true;
        }
        i += 1;
    }
    has_upper && has_lower && has_dig && has_spec
}

/// The local rules on a creation request, checked in order; the first broken
/// rule decides the message. The email-uniqueness rule needs the store and
/// is checked separately, after these pass.
pub open spec fn spec_validate_create_local(u: UserCreateInput) -> Result<(), Seq<char>> {
    if u.name@.len() == 0 || u.email@.len() == 0 || u.password@.len() == 0 {
        Err("Missing name or email or password"@)
    } else if !valid_email(u.email@) {
        Err("Invalid email format"@)
    } else if u.password@ != u.confirm_password@ {
        Err("Passwords do not match"@)
    } else if byte_len(u.password@) < 10 {
        Err("Password must be at least 8 characters long"@)
    } else if !password_classes_ok(u.password@) {
        Err("Password must contain uppercase, lowercase, digit, and special character"@)
    } else if byte_len(u.name@) < 2 {
        Err("Name must be at least 2 characters long"@)
    } else {
        Ok(())
    }
}

/// Validate a creation request against every local rule.
pub fn validate_create_local(u: &UserCreateInput) -> (r: Result<(), String>)
    ensures
        match r {
            Ok(()) => spec_validate_create_local(*u) is Ok,
            Err(m) => spec_validate_create_local(*u) == Err::<(), Seq<char>>(m@),
        },
{
    if u.name.as_str().is_empty() || u.email.as_str().is_empty() || u.password.as_str().is_empty() {
        return Err("Missing name or email or password".to_owned());
    }
    if !is_valid_email(u.email.as_str()) {
        return Err("Invalid email format".to_owned());
    }
    if !strings_equal(u.password.as_str(), u.confirm_password.as_str()) {
        return Err("Passwords do not match".to_owned());
    }
    proof {
        broadcast use axiom_spec_len;
    }
    if u.password.as_str().as_bytes().len() < 10 {
        return Err("Password must be at least 8 characters long".to_owned());
    }
    if !check_password_classes(u.password.as_str()) {
        return Err(
            "Password must contain uppercase, lowercase, digit, and special character".to_owned(),
        );
    }
    if u.name.as_str().as_bytes().len() < 2 {
        return Err("Name must be at least 2 characters long".to_owned());
    }
    Ok(())
}

/// The store's answer on email uniqueness, mapped to the rule's outcome: an
/// existing email is refused, a store failure is answered as an internal
/// error, both as bad requests.
pub fn validate_create_email(exists_check: &Result<bool, ()>) -> (r: Result<(), String>)
    ensures
        match r {
            Ok(()) => exists_check == Ok::<bool, ()>(false),
            Err(m) => (exists_check == Ok::<bool, ()>(true) && m@ == "Email already exists"@) || (
            exists_check is Err && m@ == "Internal error"@),
        },
{
    match exists_check {
        Ok(false) => Ok(()),
        Ok(true) => Err("Email already exists".to_owned()),
        Err(()) => Err("Internal error".to_owned()),
    }
}

/// The rules on an update request: the path id and the body id must agree,
/// and the new name must be there and at least two bytes long.
pub open spec fn spec_validate_update(id: i32, u: UserUpdateInput) -> Result<(), Seq<char>> {
    if id != u.id {
        Err("User id in path does not match user id in body"@)
    } else if u.name@.len() == 0 {
        Err("Missing name"@)
    } else if byte_len(u.name@) < 2 {
        Err("Name must be at least 2 characters long"@)
    } else {
        Ok(())
    }
}

/// Validate an update request.
pub fn validate_update(id: i32, u: &UserUpdateInput) -> (r: Result<(), String>)
    ensures
        match r {
            Ok(()) => spec_validate_update(id, *u) is Ok,
            Err(m) => spec_validate_update(id, *u) == Err::<(), Seq<char>>(m@),
        },
{
    if id != u.id {
        return Err("User id in path does not match user id in body".to_owned());
    }
    if u.name.as_str().is_empty() {
        return Err("Missing name".to_owned());
    }
    proof {
        broadcast use axiom_spec_len;
    }
    if u.name.as_str().as_bytes().len() < 2 {
        return Err("Name must be at least 2 characters long".to_owned());
    }
    Ok(())
}

/// Character-for-character string equality.
pub fn strings_equal(a: &str, b: &str) -> (r: bool)
    ensures
        r == (a@ == b@),
{
    let n = a.unicode_len();
    if n != b.unicode_len() {
        proof {
            assert(a@.len() != b@.len());
        }
        return false;
    }
    let mut i: usize = 0;
    while i < n
        invariant
            i <= n,
            n == a@.len(),
            n == b@.len(),
            forall|j: int| 0 <= j < i ==> a@[j] == b@[j],
        decreases n - i,
    {
        if a.get_char(i) != b.get_char(i) {
            return false;
        }
        i += 1;
    }
    proof {
        assert(a@ =~= b@);
    }
    true
}

} // verus!
