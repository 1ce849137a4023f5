//! The settings of the database's connection pool, as the environment gives
//! them: `DATABASE_URL` and `MAX_DB_POOL_SIZE`.

use vstd::prelude::*;
use vstd::string::StrSliceExecFns;

verus! {

/// What the connection pool is built from.
pub struct PoolSettings {
    pub database_url: String,
    pub max_size: usize,
}

/// Why the pool's settings are not usable.
#[derive(PartialEq, Eq, Structural, Clone, Copy, Debug)]
pub enum ConfigError {
    /// `DATABASE_URL` is not set.
    MissingDatabaseUrl,
    /// `MAX_DB_POOL_SIZE` is not set.
    MissingPoolSize,
    /// `MAX_DB_POOL_SIZE` is not an unsigned number that fits a `usize`.
    InvalidPoolSize,
}

/// Whether a character is an ASCII decimal digit.
pub open spec fn is_digit(c: char) -> bool {
    '0' <= c && c <= '9'
}

/// The value of a sequence of decimal digits.
pub open spec fn digits_value(digits: Seq<char>) -> nat
    decreases digits.len(),
{
    if digits.len() == 0 {
        0
    } else {
        digits_value(digits.drop_last()) * 10 + ((digits.last() as int - '0' as int) as nat)
    }
}

/// The digits of an unsigned number's text: without its one optional leading `+`.
pub open spec fn unsigned_digits(text: Seq<char>) -> Seq<char> {
    if text.len() > 0 && text[0] == '+' {
        text.drop_first()
    } else {
        text
    }
}

/// The `usize` that a text spells, as Rust's `usize::from_str` reads it: an
/// optional `+`, then at least one decimal digit and nothing else, with a value
/// that fits. `None` for any other text.
pub open spec fn usize_from_text(text: Seq<char>) -> Option<usize> {
    let digits = unsigned_digits(text);
    if digits.len() > 0 && (forall|i: int| 0 <= i < digits.len() ==> is_digit(#[trigger] digits[i]))
        && digits_value(digits) <= usize::MAX {
        Some(digits_value(digits) as usize)
    } else {
        None
    }
}

/// Appending digits never lowers the value of a sequence of digits.
proof fn lemma_digits_value_prefix(digits: Seq<char>, k: int)
    requires
        0 <= k <= digits.len(),
        forall|i: int| 0 <= i < digits.len() ==> is_digit(#[trigger] digits[i]),
    ensures
        digits_value(digits.take(k)) <= digits_value(digits),
    decreases digits.len(),
{
    if k < digits.len() {
        let shorter = digits.drop_last();
        assert(shorter.take(k) =~= digits.take(k));
        assert forall|i: int| 0 <= i < shorter.len() implies is_digit(#[trigger] shorter[i]) by {
            assert(shorter[i] == digits[i]);
        }
        lemma_digits_value_prefix(shorter, k);
    } else {
        assert(digits.take(k) =~= digits);
    }
}

/// Reads a `usize` from a text as `usize::from_str` does.
pub fn parse_usize(text: &str) -> (value: Option<usize>)
    ensures
        value == usize_from_text(text@),
        text@.len() > 0 && (forall|i: int| 0 <= i < text@.len() ==> is_digit(#[trigger] text@[i]))
            && digits_value(text@) <= usize::MAX ==> value == Some(digits_value(text@) as usize),
        text@.len() == 0 ==> value is None,
        (exists|i: int| 0 < i < text@.len() && !is_digit(#[trigger] text@[i])) ==> value is None,
        (text@.len() > 0 && text@[0] != '+' && !is_digit(text@[0])) ==> value is None,
{
    proof {
        if exists|i: int| 0 < i < text@.len() && !is_digit(#[trigger] text@[i]) {
            let i = choose|i: int| 0 < i < text@.len() && !is_digit(#[trigger] text@[i]);
            let d = unsigned_digits(text@);
            if text@[0] == '+' {
                assert(d[i - 1] == text@[i]);
            } else {
                assert(d[i] == text@[i]);
            }
        }
        if text@.len() > 0 && text@[0] != '+' && !is_digit(text@[0]) {
            assert(unsigned_digits(text@)[0] == text@[0]);
        }
        if text@.len() > 0 && (forall|i: int| 0 <= i < text@.len() ==> is_digit(#[trigger] text@[i])) {
            assert(is_digit(text@[0]));
            assert(unsigned_digits(text@) == text@);
        }
    }
    let n = text.unicode_len();
    if n == 0 {
        return None;
    }
    let start: usize = if text.get_char(0) == '+' { 1 } else { 0 };
    let ghost digits = unsigned_digits(text@);
    assert(digits.len() == n - start);
    assert(forall|j: int| 0 <= j < digits.len() ==> digits[j] == text@[j + start]);
    if start == n {
        return None;
    }
    let mut acc: usize = 0;
    let mut i: usize = start;
    while i < n
        invariant
            start <= i <= n,
            n == text@.len(),
            digits == unsigned_digits(text@),
            digits.len() == n - start,
            forall|j: int| 0 <= j < digits.len() ==> digits[j] == text@[j + start],
            forall|j: int| 0 <= j < i - start ==> is_digit(#[trigger] digits[j]),
            acc == digits_value(digits.take(i - start)),
        decreases n - i,
    {
        let c = text.get_char(i);
        assert(digits[i - start] == c);
        if c < '0' || c > '9' {
            assert(!is_digit(digits[i - start]));
            assert(!(forall|j: int| 0 <= j < digits.len() ==> is_digit(#[trigger] digits[j])));
            assert(usize_from_text(text@) is None);
            return None;
        }
        let d: usize = ((c as u32) - 48u32) as usize;
        assert(d == c as int - '0' as int);
        let ghost k: int = i - start + 1;
        assert(digits.take(k).drop_last() =~= digits.take(k - 1));
        assert(digits.take(k).last() == c);
        assert(digits_value(digits.take(k)) == acc * 10 + d);
        if acc > (usize::MAX - d) / 10 {
            proof {
                let m = (usize::MAX - d) as int;
                assert(acc * 10 + d > usize::MAX) by (nonlinear_arith)
                    requires
                        acc > m / 10,
                        m == usize::MAX - d,
                        0 <= d <= 9,
                        m >= 0,
                ;
                if forall|j: int| 0 <= j < digits.len() ==> is_digit(#[trigger] digits[j]) {
                    lemma_digits_value_prefix(digits, k);
                    assert(digits_value(digits) > usize::MAX);
                }
                assert(usize_from_text(text@) is None);
            }
            return None;
        }
        proof {
            let m = (usize::MAX - d) as int;
            assert(acc * 10 + d <= usize::MAX) by (nonlinear_arith)
                requires
                    acc <= m / 10,
                    m == usize::MAX - d,
                    0 <= d <= 9,
                    m >= 0,
            ;
        }
        acc = acc * 10 + d;
        i = i + 1;
    }
    proof {
        assert(digits.take(n - start) =~= digits);
    }
    Some(acc)
}

/// The settings the pool is built from, given the values of `DATABASE_URL` and
/// `MAX_DB_POOL_SIZE` (`None` where a variable is not set); the first problem
/// found, in that order, otherwise.
pub open spec fn settings_from(database_url: Option<String>, max_pool_size: Option<String>) -> Result<PoolSettings, ConfigError> {
    match database_url {
        None => Err(ConfigError::MissingDatabaseUrl),
        Some(url) => match max_pool_size {
            None => Err(ConfigError::MissingPoolSize),
            Some(size) => match usize_from_text(size@) {
                None => Err(ConfigError::InvalidPoolSize),
                Some(max_size) => Ok(PoolSettings { database_url: url, max_size }),
            },
        },
    }
}

/// The pool is built with exactly the URL given and exactly the size that
/// `MAX_DB_POOL_SIZE` spells, whatever that size; a missing URL, a missing size
/// and a size that is not an unsigned number are refused, in that order.
pub proof fn law_settings_keep_the_given_values(url: String, size: String, n: usize)
    requires
        usize_from_text(size@) == Some(n),
    ensures
        settings_from(Some(url), Some(size)) matches Ok(s) && s.database_url == url && s.max_size == n,
        settings_from(None, Some(size)) == Err::<PoolSettings, ConfigError>(ConfigError::MissingDatabaseUrl),
        settings_from(Some(url), None) == Err::<PoolSettings, ConfigError>(ConfigError::MissingPoolSize),
{
}

/// A text of decimal digits (with an optional leading `+`) spells its value,
/// whenever the value fits a `usize`; a number is never changed on the way.
pub proof fn law_digits_spell_their_value(digits: Seq<char>)
    requires
        digits.len() > 0,
        digits[0] != '+',
        forall|i: int| 0 <= i < digits.len() ==> is_digit(#[trigger] digits[i]),
        digits_value(digits) <= usize::MAX,
    ensures
        usize_from_text(digits) == Some(digits_value(digits) as usize),
        usize_from_text(seq!['+'] + digits) == Some(digits_value(digits) as usize),
{
    assert((seq!['+'] + digits).drop_first() =~= digits);
}

/// Reads the pool's settings from the values of `DATABASE_URL` and
/// `MAX_DB_POOL_SIZE`.
pub fn pool_settings(database_url: Option<String>, max_pool_size: Option<String>) -> (settings: Result<PoolSettings, ConfigError>)
    ensures
        settings == settings_from(database_url, max_pool_size),
        database_url is None ==> settings == Err::<PoolSettings, ConfigError>(ConfigError::MissingDatabaseUrl),
        database_url is Some && max_pool_size is None ==> settings == Err::<PoolSettings, ConfigError>(
            ConfigError::MissingPoolSize,
        ),
        database_url is Some ==> (max_pool_size matches Some(size) && usize_from_text(size@) is None ==> settings
            == Err::<PoolSettings, ConfigError>(ConfigError::InvalidPoolSize)),
        database_url matches Some(url) ==> (max_pool_size matches Some(size) ==> (usize_from_text(size@) matches Some(n)
            ==> (settings matches Ok(s) && s.database_url == url && s.max_size == n))),
{
    match database_url {
        None => Err(ConfigError::MissingDatabaseUrl),
        Some(url) => match max_pool_size {
            None => Err(ConfigError::MissingPoolSize),
            Some(size) => match parse_usize(size.as_str()) {
                None => Err(ConfigError::InvalidPoolSize),
                Some(max_size) => Ok(PoolSettings { database_url: url, max_size }),
            },
        },
    }
}

} // verus!
