use vstd::prelude::*;
use crate::text::{is_control, spec_is_control, str_chars};
use crate::text::{decimal, is_digit};
use argon2::{Params, PasswordHash, PasswordHasher, PasswordVerifier};

verus! {

broadcast use vstd::string::group_string_axioms;

pub const MSG_PASSWORD_TOO_SHORT: &'static str = "密码至少需要 8 个字符";
pub const MSG_PASSWORD_INVALID: &'static str = "密码包含不支持的字符或长度超过限制";
pub const MSG_PASSWORD_HASH: &'static str = "无法安全处理密码";

/// Fewest characters of an access password.
pub const MIN_PASSWORD_CHARS: usize = 8;

/// Most characters of an access password.
pub const MAX_PASSWORD_CHARS: usize = 128;

/// Argon2 memory cost, in KiB.
pub const ARGON2_M_COST: u32 = 19 * 1024;

/// Argon2 iterations.
pub const ARGON2_T_COST: u32 = 2;

/// Argon2 lanes.
pub const ARGON2_P_COST: u32 = 1;

/// Argon2 output length, in bytes.
pub const ARGON2_OUTPUT_LEN: usize = 32;

/// What validating a new password gives: too short below 8 characters;
/// invalid above 128 characters or with a control character; accepted
/// otherwise.
pub open spec fn spec_validate_new_password(password: Seq<char>) -> Result<(), Seq<char>> {
    if password.len() < MIN_PASSWORD_CHARS {
        Err(MSG_PASSWORD_TOO_SHORT@)
    } else if password.len() > MAX_PASSWORD_CHARS || exists|i: int|
        0 <= i < password.len() && spec_is_control(#[trigger] password[i]) {
        Err(MSG_PASSWORD_INVALID@)
    } else {
        Ok(())
    }
}

pub open spec fn unit_result_view(r: Result<(), String>) -> Result<(), Seq<char>> {
    match r {
        Ok(()) => Ok(()),
        Err(e) => Err(e@),
    }
}

/// Checks that a new access password has a reasonable length and no control
/// characters.
pub fn validate_new_password(password: &str) -> (r: Result<(), String>)
    ensures
        unit_result_view(r) == spec_validate_new_password(password@),
{
    let chars = str_chars(password);
    if chars.len() < MIN_PASSWORD_CHARS {
        return Err(String::from_str(MSG_PASSWORD_TOO_SHORT));
    }
    if chars.len() > MAX_PASSWORD_CHARS {
        return Err(String::from_str(MSG_PASSWORD_INVALID));
    }
    let mut i: usize = 0;
    while i < chars.len()
        invariant
            chars@ == password@,
            i <= chars.len(),
            MIN_PASSWORD_CHARS <= chars.len() <= MAX_PASSWORD_CHARS,
            forall|j: int| 0 <= j < i ==> !spec_is_control(#[trigger] password@[j]),
        decreases chars.len() - i,
    {
        if is_control(chars[i]) {
            assert(spec_is_control(password@[i as int]));
            return Err(String::from_str(MSG_PASSWORD_INVALID));
        }
        i = i + 1;
    }
    Ok(())
}

// ---------------------------------------------------------------------------
// Argon2
// ---------------------------------------------------------------------------

/// Whether `password` verifies against the PHC hash string `stored_hash`
/// with `Argon2::verify_password` (the parameters, salt and algorithm are
/// read from the string).
pub uninterp spec fn argon2_verifies(password: Seq<char>, stored_hash: Seq<char>) -> bool;

/// The start of the PHC string of an Argon2id (version 19) hash with memory
/// cost `m_cost`, `t_cost` iterations and `p_cost` lanes, up to the salt:
/// `$argon2id$v=19$m=<m_cost>,t=<t_cost>,p=<p_cost>$`.
pub open spec fn argon2id_phc_prefix(m_cost: u32, t_cost: u32, p_cost: u32) -> Seq<char> {
    "$argon2id$v=19$m="@ + decimal(m_cost as nat) + ",t="@ + decimal(t_cost as nat) + ",p="@ + decimal(
        p_cost as nat,
    ) + "$"@
}

/// Whether `h` starts with `prefix`.
pub open spec fn starts_with(h: Seq<char>, prefix: Seq<char>) -> bool {
    h.len() >= prefix.len() && h.take(prefix.len() as int) == prefix
}

/// Whether Argon2 accepts these parameters and produces a PHC hash of this
/// output length: `Params::new` takes a memory cost of at least 8 and at
/// least 8 per lane, at least one iteration and 1 to 2^24 - 1 lanes, and
/// the PHC output holds 10 to 64 bytes.
pub open spec fn argon2_hashable(m_cost: u32, t_cost: u32, p_cost: u32, output_len: usize) -> bool {
    &&& m_cost >= 8
    &&& m_cost >= 8 * p_cost
    &&& t_cost >= 1
    &&& 1 <= p_cost <= 0xFFFFFF
    &&& 10 <= output_len <= 64
}

/// Sixteen random bytes for a salt, drawn from `rand_core::OsRng` with
/// `RngCore::try_fill_bytes` (the call behind `SaltString::generate`, which
/// panics where this gives `None`): `None` when the operating system has no
/// randomness to give. Nothing is stated of the bytes.
#[verifier::external_body]
fn random_salt() -> Option<[u8; 16]> {
    let mut bytes = [0u8; 16];
    rand_core::RngCore::try_fill_bytes(&mut rand_core::OsRng, &mut bytes).ok()?;
    Some(bytes)
}

/// `Argon2::new(Algorithm::Argon2id, Version::V0x13, params).hash_password`
/// with `params = Params::new(m_cost, t_cost, p_cost, Some(output_len))` and
/// the salt `SaltString::encode_b64(salt)`, rendered as a PHC string. As the
/// sources show, with parameters that `argon2_hashable` accepts, a 16-byte
/// salt and a password of at most 2^32 - 1 bytes (a `char` takes at most 4
/// bytes in UTF-8) it succeeds. The string then starts with
/// `argon2id_phc_prefix` (`Display` writes `$`, the algorithm, `$v=19`, `$`
/// and the `m`, `t`, `p` parameters) and verifies the same password:
/// `verify_password` recomputes the hash from the algorithm, version,
/// parameters and salt that the string records and compares the outputs.
/// Past the parameters come the salt and the output in unpadded B64
/// (`[A-Za-z0-9+/]`), which holds no `=`; so the only `p=` is the lane
/// count given, which has nine digits only from 10^8 up.
#[verifier::external_body]
fn argon2id_hash(
    password: &str,
    salt: &[u8; 16],
    m_cost: u32,
    t_cost: u32,
    p_cost: u32,
    output_len: usize,
) -> (r: Option<String>)
    requires
        p_cost <= 0xFFFFFF,
    ensures
        argon2_hashable(m_cost, t_cost, p_cost, output_len) && password@.len() <= 0x3FFF_FFFF ==> r is Some,
        r matches Some(h) ==> starts_with(h@, argon2id_phc_prefix(m_cost, t_cost, p_cost)) && argon2_verifies(
            password@,
            h@,
        ) && (p_cost < 100_000_000 ==> !has_oversized_lanes(h@)),
{
    let params = Params::new(m_cost, t_cost, p_cost, Some(output_len)).ok()?;
    let salt = argon2::password_hash::SaltString::encode_b64(salt).ok()?;
    argon2::Argon2::new(argon2::Algorithm::Argon2id, argon2::Version::V0x13, params)
        .hash_password(password.as_bytes(), &salt)
        .ok()
        .map(|hash| hash.to_string())
}

/// Whether `h` holds `p=` followed by at least nine digits at `i`.
pub open spec fn lanes_field_at(h: Seq<char>, i: int) -> bool {
    &&& 0 <= i
    &&& i + 11 <= h.len()
    &&& h[i] == 'p'
    &&& h[i + 1] == '='
    &&& forall|j: int| i + 2 <= j < i + 11 ==> is_digit(#[trigger] h[j])
}

/// Whether the hash text names a lane count (`p=`) of nine or more digits.
/// A PHC decimal has no leading zero, so that is at least 10^8, more than
/// Argon2's largest lane count, 2^24 - 1; every lane count from 2^29 up,
/// for which `Params::new` overflows `p_cost * 8` before it checks the
/// bound, is of this form.
pub open spec fn has_oversized_lanes(h: Seq<char>) -> bool {
    exists|i: int| #[trigger] lanes_field_at(h, i)
}

/// Whether the text of `stored_hash` names an oversized lane count.
fn oversized_lanes(stored_hash: &str) -> (r: bool)
    ensures
        r == has_oversized_lanes(stored_hash@),
{
    let chars = str_chars(stored_hash);
    let n = chars.len();
    if n < 11 {
        proof {
            assert forall|i: int| !lanes_field_at(stored_hash@, i) by {}
        }
        return false;
    }
    let mut i: usize = 0;
    while i <= n - 11
        invariant
            chars@ == stored_hash@,
            n == chars.len(),
            n >= 11,
            i <= n - 10,
            forall|k: int| 0 <= k < i ==> !lanes_field_at(stored_hash@, k),
        decreases n - i,
    {
        if chars[i] == 'p' && chars[i + 1] == '=' {
            let mut j: usize = i + 2;
            while j < i + 11 && '0' <= chars[j] && chars[j] <= '9'
                invariant
                    chars@ == stored_hash@,
                    n == chars.len(),
                    i + 11 <= n,
                    i + 2 <= j <= i + 11,
                    forall|m: int| i + 2 <= m < j ==> is_digit(#[trigger] stored_hash@[m]),
                decreases i + 11 - j,
            {
                j = j + 1;
            }
            if j == i + 11 {
                assert(lanes_field_at(stored_hash@, i as int));
                return true;
            }
            assert(!is_digit(stored_hash@[j as int]));
        }
        i = i + 1;
    }
    proof {
        assert forall|k: int| !lanes_field_at(stored_hash@, k) by {
            if 0 <= k && k + 11 <= stored_hash@.len() {
                assert(k < i);
            }
        }
    }
    false
}

/// `PasswordHash::new` and then `Argon2::default().verify_password`; false
/// when `stored_hash` is not a PHC string. The result is named, not stated.
/// The hash text must not name an oversized lane count: for one from 2^29
/// up, `Params::new` overflows (and panics where overflow is checked). A
/// very large memory cost in the text makes Argon2 allocate that much
/// memory; nothing is stated of running out of it.
#[verifier::external_body]
fn argon2_verify(password: &str, stored_hash: &str) -> (r: bool)
    requires
        !has_oversized_lanes(stored_hash@),
    ensures
        r == argon2_verifies(password@, stored_hash@),
{
    match PasswordHash::new(stored_hash) {
        Ok(parsed) => argon2::Argon2::default().verify_password(password.as_bytes(), &parsed).is_ok(),
        Err(_) => false,
    }
}

/// What a stored password hash looks like: an Argon2id PHC string with this
/// library's parameters that verifies `password`.
pub open spec fn is_password_hash_of(h: Seq<char>, password: Seq<char>) -> bool {
    starts_with(h, argon2id_phc_prefix(ARGON2_M_COST, ARGON2_T_COST, ARGON2_P_COST)) && spec_password_matches(
        password,
        h,
    )
}

/// Validates a new password and hashes it with Argon2id (19 MiB, 2
/// iterations, 1 lane, 32-byte output) and the 16-byte salt `salt`. A valid
/// password always gives a hash.
pub fn password_hash_with_salt(password: &str, salt: &[u8; 16]) -> (r: Result<String, String>)
    ensures
        spec_validate_new_password(password@) matches Err(e) ==> r matches Err(m) && m@ == e,
        spec_validate_new_password(password@) is Ok ==> (r matches Ok(h) && is_password_hash_of(h@, password@)),
{
    validate_new_password(password)?;
    match argon2id_hash(password, salt, ARGON2_M_COST, ARGON2_T_COST, ARGON2_P_COST, ARGON2_OUTPUT_LEN) {
        Some(h) => Ok(h),
        None => Err(String::from_str(MSG_PASSWORD_HASH)),
    }
}

/// Validates a new password and hashes it with a random salt (see
/// [`password_hash_with_salt`]). The only failure beyond validation is the
/// operating system having no randomness to give.
pub fn password_hash(password: &str) -> (r: Result<String, String>)
    ensures
        spec_validate_new_password(password@) matches Err(e) ==> r matches Err(m) && m@ == e,
        spec_validate_new_password(password@) is Ok ==> match r {
            Ok(h) => is_password_hash_of(h@, password@),
            Err(m) => m@ == MSG_PASSWORD_HASH@,
        },
{
    validate_new_password(password)?;
    match random_salt() {
        Some(salt) => password_hash_with_salt(password, &salt),
        None => Err(String::from_str(MSG_PASSWORD_HASH)),
    }
}

/// Whether `password` verifies against `stored_hash`: never for a hash
/// text that names an oversized lane count (which Argon2 refuses too).
pub open spec fn spec_password_matches(password: Seq<char>, stored_hash: Seq<char>) -> bool {
    !has_oversized_lanes(stored_hash) && argon2_verifies(password, stored_hash)
}

/// Whether `password` is the one that `stored_hash` was made from.
pub fn password_matches(password: &str, stored_hash: &str) -> (r: bool)
    ensures
        r == spec_password_matches(password@, stored_hash@),
{
    if oversized_lanes(stored_hash) {
        return false;
    }
    argon2_verify(password, stored_hash)
}


pub const MSG_CURRENT_PASSWORD_REQUIRED: &'static str = "请输入当前密码";
pub const MSG_CURRENT_PASSWORD_WRONG: &'static str = "当前密码不正确";
pub const MSG_NO_PASSWORD_SET: &'static str = "尚未设置访问密码";

/// Whether a request to set or replace the access password is authorized:
/// no password is set, or the current one is given and verifies.
pub open spec fn change_authorized(current_password: Option<Seq<char>>, stored_hash: Option<Seq<char>>) -> bool {
    stored_hash matches Some(h) ==> (current_password matches Some(c) && spec_password_matches(c, h))
}

pub open spec fn option_view(o: Option<String>) -> Option<Seq<char>> {
    match o {
        Some(s) => Some(s@),
        None => None,
    }
}

/// Checks that a request to set or replace the access password is
/// authorized: replacing a password takes the current one, which must
/// verify.
pub fn authorize_current_password(current_password: &Option<String>, stored_hash: &Option<String>) -> (r: Result<
    (),
    String,
>)
    ensures
        r is Ok <==> change_authorized(option_view(*current_password), option_view(*stored_hash)),
        r matches Err(e) ==> (current_password is None && e@ == MSG_CURRENT_PASSWORD_REQUIRED@) || (
        current_password is Some && e@ == MSG_CURRENT_PASSWORD_WRONG@),
{
    if let Some(stored) = stored_hash {
        let current = match current_password {
            Some(c) => c,
            None => return Err(String::from_str(MSG_CURRENT_PASSWORD_REQUIRED)),
        };
        if !password_matches(current.as_str(), stored.as_str()) {
            return Err(String::from_str(MSG_CURRENT_PASSWORD_WRONG));
        }
    }
    Ok(())
}

/// Checks a request to set or replace the access password and gives the
/// hash to store, made with the salt `salt`: the request must be
/// authorized (see [`authorize_current_password`]); then the new password
/// is validated and hashed, which always succeeds for a valid one.
pub fn authorize_password_change_with_salt(
    current_password: Option<String>,
    new_password: &str,
    stored_hash: &Option<String>,
    salt: &[u8; 16],
) -> (r: Result<String, String>)
    ensures
        !change_authorized(option_view(current_password), option_view(*stored_hash)) ==> (r matches Err(e) && (
        (current_password is None && e@ == MSG_CURRENT_PASSWORD_REQUIRED@) || (current_password is Some && e@
            == MSG_CURRENT_PASSWORD_WRONG@))),
        change_authorized(option_view(current_password), option_view(*stored_hash)) ==> {
            &&& spec_validate_new_password(new_password@) matches Err(e) ==> (r matches Err(m) && m@ == e)
            &&& spec_validate_new_password(new_password@) is Ok ==> (r matches Ok(h) && is_password_hash_of(
                h@,
                new_password@,
            ))
        },
{
    authorize_current_password(&current_password, stored_hash)?;
    password_hash_with_salt(new_password, salt)
}

/// Checks a request to set or replace the access password and gives the
/// hash to store, made with a random salt (see
/// [`authorize_password_change_with_salt`]); the one further failure is the
/// operating system having no randomness to give.
pub fn authorize_password_change(
    current_password: Option<String>,
    new_password: &str,
    stored_hash: &Option<String>,
) -> (r: Result<String, String>)
    ensures
        !change_authorized(option_view(current_password), option_view(*stored_hash)) ==> (r matches Err(e) && (
        (current_password is None && e@ == MSG_CURRENT_PASSWORD_REQUIRED@) || (current_password is Some && e@
            == MSG_CURRENT_PASSWORD_WRONG@))),
        change_authorized(option_view(current_password), option_view(*stored_hash)) ==> {
            &&& spec_validate_new_password(new_password@) matches Err(e) ==> (r matches Err(m) && m@ == e)
            &&& spec_validate_new_password(new_password@) is Ok ==> match r {
                Ok(h) => is_password_hash_of(h@, new_password@),
                Err(m) => m@ == MSG_PASSWORD_HASH@,
            }
        },
{
    authorize_current_password(&current_password, stored_hash)?;
    password_hash(new_password)
}

/// Checks a request to remove the access password: one must be set, and the
/// current password must verify against it.
pub fn authorize_password_removal(current_password: &str, stored_hash: &Option<String>) -> (r: Result<(), String>)
    ensures
        match stored_hash {
            None => r matches Err(e) && e@ == MSG_NO_PASSWORD_SET@,
            Some(h) => if spec_password_matches(current_password@, h@) {
                r is Ok
            } else {
                r matches Err(e) && e@ == MSG_CURRENT_PASSWORD_WRONG@
            },
        },
{
    match stored_hash {
        None => Err(String::from_str(MSG_NO_PASSWORD_SET)),
        Some(stored) => {
            if password_matches(current_password, stored.as_str()) {
                Ok(())
            } else {
                Err(String::from_str(MSG_CURRENT_PASSWORD_WRONG))
            }
        },
    }
}

/// A new password is accepted exactly when it has 8 to 128 characters and
/// no control character: fewer than 8 is "too short"; more than 128, or any
/// character below U+0020 or in U+007F..U+009F, is refused; any 8 to 128
/// printable ASCII characters (U+0020..U+007E) are accepted.
pub proof fn lemma_password_rules(password: Seq<char>)
    ensures
        password.len() < 8 ==> spec_validate_new_password(password) == Err::<(), Seq<char>>(
            MSG_PASSWORD_TOO_SHORT@,
        ),
        password.len() > 128 ==> spec_validate_new_password(password) is Err,
        (exists|i: int| 0 <= i < password.len() && ((password[i] as u32) < 0x20 || (0x7F <= (password[i] as u32)
            <= 0x9F))) ==> spec_validate_new_password(password) is Err,
        (8 <= password.len() <= 128 && forall|i: int|
            0 <= i < password.len() ==> ' ' <= #[trigger] password[i] <= '~') ==> spec_validate_new_password(
            password,
        ) is Ok,
{
    if exists|i: int| 0 <= i < password.len() && ((password[i] as u32) < 0x20 || (0x7F <= (password[i] as u32) <= 0x9F)) {
        let i = choose|i: int| 0 <= i < password.len() && ((password[i] as u32) < 0x20 || (0x7F <= (password[i] as u32)
            <= 0x9F));
        assert(spec_is_control(password[i]));
    }
    if 8 <= password.len() <= 128 && forall|i: int| 0 <= i < password.len() ==> ' ' <= #[trigger] password[i] <= '~' {
        assert forall|i: int| 0 <= i < password.len() implies !spec_is_control(#[trigger] password[i]) by {
            assert(' ' <= password[i] <= '~');
        }
    }
}

} // verus!
