//! Parsing of the line-oriented configuration text.
//!
//! The configuration is nine `key:value` lines in fixed order: head width,
//! head height, head speed, arena width, arena height, food width, food
//! height, food spawn interval in milliseconds, and the tail-shrink flag.
//! The value is everything after the first `:` of the line, untrimmed. The
//! numeric fields are unsigned decimals; sizes and speed must be positive.
//! The flag is `true` for true and anything else for false.

use vstd::prelude::*;
use crate::config::Config;

verus! {

/// The index of the first occurrence of `b` in `s`, or `s.len()` when `b`
/// does not occur.
pub open spec fn find_first(s: Seq<u8>, b: u8) -> nat
    decreases s.len(),
{
    if s.len() == 0 {
        0
    } else if s[0] == b {
        0
    } else {
        1 + find_first(s.drop_first(), b)
    }
}

/// `find_first` is the first occurrence: nothing before it matches, and it
/// lies within the sequence exactly when `b` occurs.
pub proof fn lemma_find_first_is(s: Seq<u8>, b: u8, j: int)
    requires
        0 <= j <= s.len(),
        forall|m: int| 0 <= m < j ==> s[m] != b,
        j < s.len() ==> s[j] == b,
    ensures
        find_first(s, b) == j,
    decreases s.len(),
{
    if j == 0 {
        if s.len() > 0 && s[0] != b {
            assert(false);
        }
    } else {
        let rest = s.drop_first();
        assert forall|m: int| 0 <= m < j - 1 implies rest[m] != b by {
            assert(rest[m] == s[m + 1]);
        }
        assert(j - 1 < rest.len() ==> rest[j - 1] == s[j]);
        lemma_find_first_is(rest, b, j - 1);
    }
}

/// The line with one trailing carriage return removed, if it has one.
pub open spec fn strip_cr(line: Seq<u8>) -> Seq<u8> {
    if line.len() > 0 && line.last() == 13u8 {
        line.drop_last()
    } else {
        line
    }
}

/// The text split at newline bytes into lines, each without its line ending.
/// A final line ending produces no trailing empty line.
pub open spec fn split_lines(t: Seq<u8>) -> Seq<Seq<u8>>
    decreases t.len(),
{
    if t.len() == 0 {
        Seq::empty()
    } else {
        let i = find_first(t, 10u8);
        if i >= t.len() {
            seq![strip_cr(t)]
        } else {
            seq![strip_cr(t.take(i as int))] + split_lines(t.skip(i + 1 as int))
        }
    }
}

/// Whether every byte is an ASCII decimal digit, and there is at least one.
pub open spec fn is_digits(s: Seq<u8>) -> bool {
    s.len() > 0 && forall|i: int| 0 <= i < s.len() ==> 48 <= #[trigger] s[i] <= 57
}

/// The number the decimal digits denote, most significant first.
pub open spec fn digits_value(s: Seq<u8>) -> nat
    decreases s.len(),
{
    if s.len() == 0 {
        0
    } else {
        digits_value(s.drop_last()) * 10 + (s.last() - 48) as nat
    }
}

/// A prefix of a digit string denotes no more than the whole string.
proof fn lemma_digits_prefix_le(s: Seq<u8>, j: int)
    requires
        0 <= j <= s.len(),
        forall|i: int| 0 <= i < s.len() ==> 48 <= #[trigger] s[i] <= 57,
    ensures
        digits_value(s.take(j)) <= digits_value(s),
    decreases s.len() - j,
{
    if j < s.len() {
        assert(s.take(j + 1).drop_last() =~= s.take(j));
        assert(digits_value(s.take(j + 1))
            == digits_value(s.take(j)) * 10 + (s.take(j + 1).last() - 48) as nat);
        lemma_digits_prefix_le(s, j + 1);
    } else {
        assert(s.take(j) =~= s);
    }
}

/// Everything after the line's first `:`.
pub open spec fn spec_field_value(line: Seq<u8>) -> Seq<u8> {
    line.skip((find_first(line, 58u8) + 1) as int)
}

/// Whether the line holds a `:` delimiter at all.
pub open spec fn line_has_value(line: Seq<u8>) -> bool {
    find_first(line, 58u8) < line.len()
}

/// The bytes of the word `true`, the only flag spelling that reads as true.
pub open spec fn true_bytes() -> Seq<u8> {
    seq![116u8, 114u8, 117u8, 101u8]
}

/// A malformed configuration field; fatal at startup. `field` is the
/// zero-based index of the offending line.
#[derive(Clone, Copy, PartialEq, Eq, Structural, Debug)]
pub enum ConfigError {
    /// The text does not hold exactly the nine expected lines.
    FieldCount { found: usize },
    /// This field's line has no `:` delimiter.
    MissingDelimiter { field: usize },
    /// This numeric field is not an unsigned decimal in range.
    BadNumber { field: usize },
    /// This size or speed field is zero, but must be positive.
    ZeroValue { field: usize },
}

/// How field `i` of a configuration fails, if it does. Fields 0 through 6
/// are positive 32-bit sizes and the speed; field 7 is the 64-bit spawn
/// interval; field 8, the flag, can only lack its delimiter.
pub open spec fn field_err(line: Seq<u8>, i: int) -> Option<ConfigError> {
    if !line_has_value(line) {
        Some(ConfigError::MissingDelimiter { field: i as usize })
    } else {
        let v = spec_field_value(line);
        if i <= 6 {
            if !(is_digits(v) && digits_value(v) <= u32::MAX) {
                Some(ConfigError::BadNumber { field: i as usize })
            } else if digits_value(v) == 0 {
                Some(ConfigError::ZeroValue { field: i as usize })
            } else {
                None
            }
        } else if i == 7 {
            if !(is_digits(v) && digits_value(v) <= u64::MAX) {
                Some(ConfigError::BadNumber { field: i as usize })
            } else {
                None
            }
        } else {
            None
        }
    }
}

/// The first field error among the nine lines, if any.
pub open spec fn first_field_err(lines: Seq<Seq<u8>>) -> Option<ConfigError> {
    if field_err(lines[0], 0) is Some { field_err(lines[0], 0) }
    else if field_err(lines[1], 1) is Some { field_err(lines[1], 1) }
    else if field_err(lines[2], 2) is Some { field_err(lines[2], 2) }
    else if field_err(lines[3], 3) is Some { field_err(lines[3], 3) }
    else if field_err(lines[4], 4) is Some { field_err(lines[4], 4) }
    else if field_err(lines[5], 5) is Some { field_err(lines[5], 5) }
    else if field_err(lines[6], 6) is Some { field_err(lines[6], 6) }
    else if field_err(lines[7], 7) is Some { field_err(lines[7], 7) }
    else if field_err(lines[8], 8) is Some { field_err(lines[8], 8) }
    else { None }
}

/// The configuration the nine error-free lines denote.
pub open spec fn config_of(lines: Seq<Seq<u8>>) -> Config {
    Config {
        head_width: digits_value(spec_field_value(lines[0])) as u32,
        head_height: digits_value(spec_field_value(lines[1])) as u32,
        speed: digits_value(spec_field_value(lines[2])) as u32,
        arena_width: digits_value(spec_field_value(lines[3])) as u32,
        arena_height: digits_value(spec_field_value(lines[4])) as u32,
        food_width: digits_value(spec_field_value(lines[5])) as u32,
        food_height: digits_value(spec_field_value(lines[6])) as u32,
        food_spawn_interval_ms: digits_value(spec_field_value(lines[7])) as u64,
        tail_shrink_enabled: spec_field_value(lines[8]) == true_bytes(),
    }
}

/// What parsing the configuration text yields: the first failure in line
/// order, or the configuration all nine lines denote.
pub open spec fn spec_parse_config(t: Seq<u8>) -> Result<Config, ConfigError> {
    let lines = split_lines(t);
    if lines.len() != 9 {
        Err(ConfigError::FieldCount { found: lines.len() as usize })
    } else {
        match first_field_err(lines) {
            Some(e) => Err(e),
            None => Ok(config_of(lines)),
        }
    }
}

/// The index of the first occurrence of `b`, or the length when absent.
fn find_in(v: &Vec<u8>, b: u8) -> (i: usize)
    ensures
        i as nat == find_first(v@, b),
{
    let mut i: usize = 0;
    while i < v.len()
        invariant
            i <= v@.len(),
            forall|m: int| 0 <= m < i ==> v@[m] != b,
        decreases v@.len() - i,
    {
        if v[i] == b {
            proof {
                lemma_find_first_is(v@, b, i as int);
            }
            return i;
        }
        i = i + 1;
    }
    proof {
        lemma_find_first_is(v@, b, i as int);
    }
    i
}

/// A copy of `v`'s bytes from `from` (inclusive) to `to` (exclusive).
fn copy_range(v: &Vec<u8>, from: usize, to: usize) -> (r: Vec<u8>)
    requires
        from <= to <= v@.len(),
    ensures
        r@ == v@.subrange(from as int, to as int),
{
    let mut r: Vec<u8> = Vec::new();
    let mut i: usize = from;
    proof {
        assert(r@ =~= v@.subrange(from as int, from as int));
    }
    while i < to
        invariant
            from <= i <= to <= v@.len(),
            r@ == v@.subrange(from as int, i as int),
        decreases to - i,
    {
        r.push(v[i]);
        proof {
            assert(r@ =~= v@.subrange(from as int, i + 1 as int));
        }
        i = i + 1;
    }
    r
}

/// Splits the text at newline bytes, stripping line endings.
fn split_into_lines(text: &Vec<u8>) -> (lines: Vec<Vec<u8>>)
    ensures
        lines@.map_values(|l: Vec<u8>| l@) == split_lines(text@),
{
    let mut lines: Vec<Vec<u8>> = Vec::new();
    let mut p: usize = 0;
    proof {
        assert(text@.skip(0) =~= text@);
        assert(lines@.map_values(|l: Vec<u8>| l@) + split_lines(text@) =~= split_lines(text@));
    }
    while p < text.len()
        invariant
            p <= text@.len(),
            split_lines(text@) == lines@.map_values(|l: Vec<u8>| l@)
                + split_lines(text@.skip(p as int)),
        decreases text@.len() - p,
    {
        let ghost lines0 = lines@;
        let mut j: usize = p;
        while j < text.len() && text[j] != 10
            invariant
                p <= j <= text@.len(),
                forall|m: int| p <= m < j ==> text@[m] != 10u8,
            decreases text@.len() - j,
        {
            j = j + 1;
        }
        proof {
            let suffix = text@.skip(p as int);
            assert forall|m: int| 0 <= m < j - p implies suffix[m] != 10u8 by {
                assert(suffix[m] == text@[m + p]);
            }
            if j < text.len() {
                assert(suffix[j - p] == text@[j as int]);
            }
            lemma_find_first_is(suffix, 10u8, j - p);
        }
        let mut line = copy_range(text, p, j);
        if line.len() > 0 && line[line.len() - 1] == 13 {
            line.pop();
        }
        proof {
            assert(line@ =~= strip_cr(text@.subrange(p as int, j as int)));
        }
        lines.push(line);
        proof {
            let suffix = text@.skip(p as int);
            let f = |l: Vec<u8>| l@;
            assert(lines@ =~= lines0.push(line));
            assert(lines@.map_values(f) =~= lines0.map_values(f).push(line@));
            if j < text.len() {
                assert(suffix.take(j - p) =~= text@.subrange(p as int, j as int));
                assert(suffix.skip(j - p + 1) =~= text@.skip(j + 1 as int));
                assert(split_lines(suffix)
                    == seq![line@] + split_lines(text@.skip(j + 1 as int)));
                assert(lines@.map_values(f) + split_lines(text@.skip(j + 1 as int))
                    =~= lines0.map_values(f) + split_lines(suffix));
            } else {
                assert(suffix =~= text@.subrange(p as int, text@.len() as int));
                assert(split_lines(suffix) == seq![line@]);
                assert(text@.skip(j as int) =~= Seq::<u8>::empty());
                assert(split_lines(Seq::<u8>::empty()) =~= Seq::<Seq<u8>>::empty());
                assert(lines@.map_values(f) + split_lines(text@.skip(j as int))
                    =~= lines0.map_values(f) + split_lines(suffix));
            }
        }
        if j < text.len() {
            p = j + 1;
        } else {
            proof {
                assert(text@.skip(text@.len() as int) =~= Seq::<u8>::empty());
            }
            p = j;
        }
    }
    proof {
        assert(text@.skip(p as int) =~= Seq::<u8>::empty());
        assert(split_lines(text@) =~= lines@.map_values(|l: Vec<u8>| l@));
    }
    lines
}

/// Parses a non-empty all-digit decimal that fits in 64 bits.
fn parse_u64(s: &Vec<u8>) -> (r: Option<u64>)
    ensures
        r is Some <==> is_digits(s@) && digits_value(s@) <= u64::MAX,
        r matches Some(n) ==> n as nat == digits_value(s@),
{
    if s.len() == 0 {
        return None;
    }
    let mut acc: u64 = 0;
    let mut i: usize = 0;
    proof {
        assert(s@.take(0) =~= Seq::<u8>::empty());
    }
    while i < s.len()
        invariant
            i <= s@.len(),
            s@.len() > 0,
            forall|m: int| 0 <= m < i ==> 48 <= #[trigger] s@[m] <= 57,
            acc as nat == digits_value(s@.take(i as int)),
        decreases s@.len() - i,
    {
        let c = s[i];
        if c < 48 || c > 57 {
            return None;
        }
        let d = (c - 48) as u64;
        proof {
            assert(s@.take(i + 1 as int).drop_last() =~= s@.take(i as int));
            assert(digits_value(s@.take(i + 1 as int))
                == digits_value(s@.take(i as int)) * 10 + (s@[i as int] - 48) as nat);
        }
        if acc > (u64::MAX - d) / 10 {
            proof {
                assert(acc * 10 + d > u64::MAX) by (nonlinear_arith)
                    requires
                        acc > (u64::MAX - d) / 10,
                        d <= 9,
                {}
                if is_digits(s@) {
                    lemma_digits_prefix_le(s@, i + 1);
                }
            }
            return None;
        }
        proof {
            assert(acc * 10 + d <= u64::MAX) by (nonlinear_arith)
                requires
                    acc <= (u64::MAX - d) / 10,
                    d <= 9,
            {}
        }
        acc = acc * 10 + d;
        i = i + 1;
    }
    proof {
        assert(s@.take(s@.len() as int) =~= s@);
    }
    Some(acc)
}

/// Parses a non-empty all-digit decimal that fits in 32 bits.
fn parse_u32(s: &Vec<u8>) -> (r: Option<u32>)
    ensures
        r is Some <==> is_digits(s@) && digits_value(s@) <= u32::MAX,
        r matches Some(n) ==> n as nat == digits_value(s@),
{
    match parse_u64(s) {
        None => None,
        Some(n) => {
            if n <= u32::MAX as u64 {
                Some(n as u32)
            } else {
                None
            }
        },
    }
}

/// The bytes after the line's first `:`, or nothing without a delimiter.
fn field_value(line: &Vec<u8>) -> (r: Option<Vec<u8>>)
    ensures
        r is Some <==> line_has_value(line@),
        r matches Some(v) ==> v@ == spec_field_value(line@),
{
    let c = find_in(line, 58);
    if c < line.len() {
        Some(copy_range(line, c + 1, line.len()))
    } else {
        None
    }
}

/// One positive 32-bit size or speed field.
fn parse_u32_field(line: &Vec<u8>, idx: usize) -> (r: Result<u32, ConfigError>)
    requires
        idx <= 6,
    ensures
        match r {
            Ok(n) => {
                &&& field_err(line@, idx as int) is None
                &&& n as nat == digits_value(spec_field_value(line@))
                &&& n > 0
            },
            Err(e) => field_err(line@, idx as int) == Some(e),
        },
{
    match field_value(line) {
        None => Err(ConfigError::MissingDelimiter { field: idx }),
        Some(v) => match parse_u32(&v) {
            None => Err(ConfigError::BadNumber { field: idx }),
            Some(n) => {
                if n == 0 {
                    Err(ConfigError::ZeroValue { field: idx })
                } else {
                    Ok(n)
                }
            },
        },
    }
}

/// The 64-bit spawn interval field; zero is allowed.
fn parse_u64_field(line: &Vec<u8>) -> (r: Result<u64, ConfigError>)
    ensures
        match r {
            Ok(n) => {
                &&& field_err(line@, 7) is None
                &&& n as nat == digits_value(spec_field_value(line@))
            },
            Err(e) => field_err(line@, 7) == Some(e),
        },
{
    match field_value(line) {
        None => Err(ConfigError::MissingDelimiter { field: 7 }),
        Some(v) => match parse_u64(&v) {
            None => Err(ConfigError::BadNumber { field: 7 }),
            Some(n) => Ok(n),
        },
    }
}

/// The tail-shrink flag: `true` for true, anything else for false.
fn parse_flag_field(line: &Vec<u8>) -> (r: Result<bool, ConfigError>)
    ensures
        match r {
            Ok(b) => {
                &&& field_err(line@, 8) is None
                &&& b == (spec_field_value(line@) == true_bytes())
            },
            Err(e) => field_err(line@, 8) == Some(e),
        },
{
    match field_value(line) {
        None => Err(ConfigError::MissingDelimiter { field: 8 }),
        Some(v) => {
            let b = v.len() == 4 && v[0] == 116 && v[1] == 114 && v[2] == 117 && v[3] == 101;
            proof {
                if b {
                    assert(v@ =~= true_bytes());
                } else {
                    if v@ == true_bytes() {
                        assert(v@.len() == 4);
                        assert(v@[0] == 116u8 && v@[1] == 114u8 && v@[2] == 117u8
                            && v@[3] == 101u8);
                    }
                }
            }
            Ok(b)
        },
    }
}

/// Parses the nine-line configuration text. Returns the configuration the
/// text denotes, or the first malformed field in line order; every returned
/// configuration is well-formed.
pub fn parse_config(text: &Vec<u8>) -> (r: Result<Config, ConfigError>)
    ensures
        r == spec_parse_config(text@),
        r matches Ok(c) ==> c.wf(),
{
    let lines = split_into_lines(text);
    let ghost ls = lines@.map_values(|l: Vec<u8>| l@);
    if lines.len() != 9 {
        return Err(ConfigError::FieldCount { found: lines.len() });
    }
    proof {
        assert forall|i: int| 0 <= i < 9 implies lines@[i]@ == ls[i] by {}
    }
    let head_width = match parse_u32_field(&lines[0], 0) {
        Ok(n) => n,
        Err(e) => { return Err(e); },
    };
    let head_height = match parse_u32_field(&lines[1], 1) {
        Ok(n) => n,
        Err(e) => { return Err(e); },
    };
    let speed = match parse_u32_field(&lines[2], 2) {
        Ok(n) => n,
        Err(e) => { return Err(e); },
    };
    let arena_width = match parse_u32_field(&lines[3], 3) {
        Ok(n) => n,
        Err(e) => { return Err(e); },
    };
    let arena_height = match parse_u32_field(&lines[4], 4) {
        Ok(n) => n,
        Err(e) => { return Err(e); },
    };
    let food_width = match parse_u32_field(&lines[5], 5) {
        Ok(n) => n,
        Err(e) => { return Err(e); },
    };
    let food_height = match parse_u32_field(&lines[6], 6) {
        Ok(n) => n,
        Err(e) => { return Err(e); },
    };
    let food_spawn_interval_ms = match parse_u64_field(&lines[7]) {
        Ok(n) => n,
        Err(e) => { return Err(e); },
    };
    let tail_shrink_enabled = match parse_flag_field(&lines[8]) {
        Ok(b) => b,
        Err(e) => { return Err(e); },
    };
    Ok(Config {
        head_width,
        head_height,
        speed,
        arena_width,
        arena_height,
        food_width,
        food_height,
        food_spawn_interval_ms,
        tail_shrink_enabled,
    })
}

} // verus!
