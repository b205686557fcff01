use vstd::prelude::*;
use crate::error::{ApiError, Field};

verus! {

/// A validated page request: at most `limit` records (all where `None`),
/// skipping the first `offset`.
#[derive(Debug, Clone, Copy, PartialEq, Eq, Structural)]
pub struct Pagination {
    pub limit: Option<i32>,
    pub offset: i32,
}

impl Pagination {
    /// A page request is valid when its limit, if any, is positive and its
    /// offset is not negative.
    pub open spec fn wf(self) -> bool {
        &&& self.offset >= 0
        &&& self.limit matches Some(l) ==> l > 0
    }
}

impl Default for Pagination {
    /// No limit, no offset.
    fn default() -> (r: Pagination)
        ensures
            r == (Pagination { limit: None, offset: 0 }),
    {
        Pagination { limit: None, offset: 0 }
    }
}

/// The value of an ASCII decimal digit.
pub open spec fn digit_value(c: char) -> int {
    c as int - '0' as int
}

/// A non-empty run of ASCII decimal digits.
pub open spec fn is_digits(s: Seq<char>) -> bool {
    s.len() > 0 && forall|i: int| 0 <= i < s.len() ==> '0' <= #[trigger] s[i] <= '9'
}

/// The number that a run of decimal digits writes.
pub open spec fn digits_value(s: Seq<char>) -> int
    decreases s.len(),
{
    if s.len() == 0 {
        0
    } else {
        digits_value(s.drop_last()) * 10 + digit_value(s.last())
    }
}

/// The integer a decimal literal writes: an optional `+` or `-`, then one
/// or more digits.
pub open spec fn decimal_value(s: Seq<char>) -> Option<int> {
    if s.len() > 0 && (s[0] == '+' || s[0] == '-') {
        let rest = s.subrange(1, s.len() as int);
        if is_digits(rest) {
            Some(if s[0] == '-' { -digits_value(rest) } else { digits_value(rest) })
        } else {
            None
        }
    } else if is_digits(s) {
        Some(digits_value(s))
    } else {
        None
    }
}

/// A decimal literal whose value fits in `i32`.
pub open spec fn parse_i32_spec(s: Seq<char>) -> Option<i32> {
    match decimal_value(s) {
        Some(v) => if i32::MIN <= v <= i32::MAX { Some(v as i32) } else { None },
        None => None,
    }
}

proof fn lemma_digits_value_nonneg(s: Seq<char>)
    requires
        forall|i: int| 0 <= i < s.len() ==> '0' <= #[trigger] s[i] <= '9',
    ensures
        digits_value(s) >= 0,
    decreases s.len(),
{
    if s.len() > 0 {
        lemma_digits_value_nonneg(s.drop_last());
    }
}

/// Digits that follow a prefix never make its value smaller.
proof fn lemma_digits_value_prefix(s: Seq<char>, k: int)
    requires
        0 <= k <= s.len(),
        forall|i: int| 0 <= i < s.len() ==> '0' <= #[trigger] s[i] <= '9',
    ensures
        digits_value(s) >= digits_value(s.subrange(0, k)),
    decreases s.len(),
{
    if k < s.len() {
        let t = s.drop_last();
        assert(t.subrange(0, k) =~= s.subrange(0, k));
        lemma_digits_value_prefix(t, k);
        lemma_digits_value_nonneg(t);
    } else {
        assert(s.subrange(0, k) =~= s);
    }
}

/// Parses a decimal `i32` as Rust's integer parsing does: an optional sign,
/// then at least one digit, and a value in range.
pub fn parse_i32(s: &str) -> (r: Option<i32>)
    ensures
        r == parse_i32_spec(s@),
{
    let n = s.unicode_len();
    if n == 0 {
        return None;
    }
    let first = s.get_char(0);
    let negative = first == '-';
    let start: usize = if first == '+' || first == '-' { 1 } else { 0 };
    if start == n {
        return None;
    }
    let ghost digits = s@.subrange(start as int, n as int);
    proof {
        if start == 0 {
            assert(s@ =~= digits);
        }
    }
    assert(decimal_value(s@) == if is_digits(digits) {
        Some(if negative { -digits_value(digits) } else { digits_value(digits) })
    } else {
        None::<int>
    });
    let mut acc: i64 = 0;
    let mut i: usize = start;
    while i < n
        invariant
            n == s@.len(),
            start <= i <= n,
            start < n,
            digits == s@.subrange(start as int, n as int),
            decimal_value(s@) == if is_digits(digits) {
                Some(if negative { -digits_value(digits) } else { digits_value(digits) })
            } else {
                None::<int>
            },
            forall|j: int| start <= j < i ==> '0' <= #[trigger] s@[j] <= '9',
            acc == digits_value(s@.subrange(start as int, i as int)),
            0 <= acc <= 2147483648,
        decreases n - i,
    {
        let c = s.get_char(i);
        if c < '0' || c > '9' {
            assert(digits[i - start] == c);
            assert(!is_digits(digits));
            return None;
        }
        let ghost prev = s@.subrange(start as int, i as int);
        let ghost next = s@.subrange(start as int, i + 1);
        assert(next.drop_last() =~= prev);
        acc = acc * 10 + (c as i64 - '0' as i64);
        i = i + 1;
        if acc > 2147483648 {
            proof {
                let k = (i - start) as int;
                if is_digits(digits) {
                    assert(digits.subrange(0, k) =~= next);
                    lemma_digits_value_prefix(digits, k);
                }
            }
            return None;
        }
    }
    assert(s@.subrange(start as int, n as int) =~= digits);
    if negative {
        Some((-acc) as i32)
    } else if acc > 2147483647 {
        None
    } else {
        Some(acc as i32)
    }
}

/// What a page request built from the raw `limit` and `offset` values is.
pub open spec fn pagination_outcome(limit: Option<Seq<char>>, offset: Option<Seq<char>>) -> Result<
    Pagination,
    ApiError,
> {
    let l = match limit {
        None => Ok(None),
        Some(s) => match parse_i32_spec(s) {
            None => Err(ApiError::ParseError(Field::Limit)),
            Some(v) => if v <= 0 { Err(ApiError::OutOfRange(Field::Limit)) } else { Ok(Some(v)) },
        },
    };
    let o = match offset {
        None => Ok(0i32),
        Some(s) => match parse_i32_spec(s) {
            None => Err(ApiError::ParseError(Field::Offset)),
            Some(v) => if v < 0 { Err(ApiError::OutOfRange(Field::Offset)) } else { Ok(v) },
        },
    };
    match (l, o) {
        (Err(e), _) => Err(e),
        (Ok(_), Err(e)) => Err(e),
        (Ok(lv), Ok(ov)) => Ok(Pagination { limit: lv, offset: ov }),
    }
}

/// The characters of a query value, where one is present.
pub open spec fn param_view(p: Option<&str>) -> Option<Seq<char>> {
    match p {
        None => None,
        Some(s) => Some(s@),
    }
}

/// Builds a page request from the raw `limit` and `offset` query values: an
/// absent limit means no limit, an absent offset means 0; a value that is not
/// a decimal integer, a limit that is not positive and a negative offset are
/// rejected, naming the field (the limit is checked first).
pub fn extract_pagination(limit: Option<&str>, offset: Option<&str>) -> (r: Result<Pagination, ApiError>)
    ensures
        r == pagination_outcome(param_view(limit), param_view(offset)),
        r matches Ok(p) ==> p.wf(),
{
    let l = match limit {
        None => None,
        Some(s) => match parse_i32(s) {
            None => return Err(ApiError::ParseError(Field::Limit)),
            Some(v) => {
                if v <= 0 {
                    return Err(ApiError::OutOfRange(Field::Limit));
                }
                Some(v)
            },
        },
    };
    let o = match offset {
        None => 0,
        Some(s) => match parse_i32(s) {
            None => return Err(ApiError::ParseError(Field::Offset)),
            Some(v) => {
                if v < 0 {
                    return Err(ApiError::OutOfRange(Field::Offset));
                }
                v
            },
        },
    };
    Ok(Pagination { limit: l, offset: o })
}

} // verus!

verus! {

/// A decimal literal without a minus sign whose value fits in `u16`.
pub open spec fn parse_u16_spec(s: Seq<char>) -> Option<u16> {
    if s.len() > 0 && s[0] == '-' {
        None
    } else {
        match decimal_value(s) {
            Some(v) => if 0 <= v <= u16::MAX { Some(v as u16) } else { None },
            None => None,
        }
    }
}

/// Parses a decimal `u16` as Rust's integer parsing does: an optional `+`,
/// then at least one digit, and a value in range.
pub fn parse_u16(s: &str) -> (r: Option<u16>)
    ensures
        r == parse_u16_spec(s@),
{
    if s.unicode_len() > 0 && s.get_char(0) == '-' {
        return None;
    }
    match parse_i32(s) {
        Some(v) => if 0 <= v && v <= u16::MAX as i32 { Some(v as u16) } else { None },
        None => None,
    }
}

} // verus!
