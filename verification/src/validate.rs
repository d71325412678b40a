use vstd::prelude::*;

verus! {

pub open spec fn is_dec_digit(c: char) -> bool {
    48 <= c as u32 <= 57
}

pub open spec fn digit_val(c: char) -> nat {
    (c as u32 - 48) as nat
}

pub open spec fn all_dec_digits(s: Seq<char>) -> bool {
    forall|i: int| 0 <= i < s.len() ==> is_dec_digit(#[trigger] s[i])
}

/// Value of an all-digit sequence read in base ten.
pub open spec fn dec_value(s: Seq<char>) -> nat
    decreases s.len(),
{
    if s.len() == 0 {
        0
    } else {
        dec_value(s.drop_last()) * 10 + digit_val(s.last())
    }
}

/// What str::parse accepts for an unsigned integer: an optional plus
/// sign followed by at least one digit; the value is unbounded here,
/// bounds are the caller's business.
pub open spec fn spec_parse_decimal(s: Seq<char>) -> Option<nat> {
    let body = if s.len() > 0 && s[0] == '+' {
        s.subrange(1, s.len() as int)
    } else {
        s
    };
    if body.len() > 0 && all_dec_digits(body) {
        Some(dec_value(body))
    } else {
        None
    }
}

proof fn lemma_dec_value_prefix_le(s: Seq<char>, k: int)
    requires
        0 <= k <= s.len(),
        all_dec_digits(s),
    ensures
        dec_value(s.subrange(0, k)) <= dec_value(s),
    decreases s.len() - k,
{
    if k == s.len() {
        assert(s.subrange(0, k) =~= s);
    } else {
        assert(s.subrange(0, k + 1).drop_last() =~= s.subrange(0, k));
        assert(s.subrange(0, k + 1).last() == s[k]);
        assert(dec_value(s.subrange(0, k + 1)) == dec_value(s.subrange(0, k)) * 10 + digit_val(
            s[k],
        ));
        assert(dec_value(s.subrange(0, k)) * 10 >= dec_value(s.subrange(0, k))) by (nonlinear_arith);
        lemma_dec_value_prefix_le(s, k + 1);
    }
}

/// Parses `s` as an unsigned decimal, as str::parse does: an optional
/// plus sign and at least one digit. The value comes back exactly when
/// the text is well formed and the value is at most `max`.
pub fn parse_decimal_bounded(s: &str, max: u32) -> (r: Option<u32>)
    ensures
        match spec_parse_decimal(s@) {
            Some(n) => r == if n <= max {
                Some(n as u32)
            } else {
                None::<u32>
            },
            None => r == None::<u32>,
        },
{
    let n: usize = s.unicode_len();
    if n == 0 {
        return None;
    }
    let start: usize = if s.get_char(0) == '+' {
        1
    } else {
        0
    };
    if start == n {
        return None;
    }
    let ghost body: Seq<char> = if start == 1 {
        s@.subrange(1, n as int)
    } else {
        s@
    };
    proof {
        assert(body.subrange(0, 0) =~= Seq::<char>::empty());
    }
    let mut acc: u64 = 0;
    let mut i: usize = start;
    while i < n
        invariant
            start <= i <= n,
            n == s@.len(),
            start == 0 || start == 1,
            start == 1 ==> s@[0] == '+',
            start == 0 ==> s@[0] != '+' || n == 0,
            body == (if start == 1 {
                s@.subrange(1, n as int)
            } else {
                s@
            }),
            body.len() == n - start,
            forall|j: int| 0 <= j < i - start ==> is_dec_digit(#[trigger] body[j]),
            acc == dec_value(body.subrange(0, i - start)),
            acc <= max,
        decreases n - i,
    {
        let c = s.get_char(i);
        let u: u32 = c as u32;
        proof {
            assert(body[i - start] == s@[i as int]);
        }
        if u < 48 || u > 57 {
            proof {
                assert(!is_dec_digit(body[i - start]));
                assert(!all_dec_digits(body));
            }
            return None;
        }
        proof {
            assert(body.subrange(0, i - start + 1).drop_last() =~= body.subrange(0, i - start));
            assert(body.subrange(0, i - start + 1).last() == body[i - start]);
        }
        acc = acc * 10 + ((u - 48) as u64);
        if acc > max as u64 {
            proof {
                if all_dec_digits(body) {
                    lemma_dec_value_prefix_le(body, i - start + 1);
                }
            }
            return None;
        }
        i = i + 1;
    }
    proof {
        assert(body.subrange(0, n - start) =~= body);
    }
    Some(acc as u32)
}

pub open spec fn uuid_char_ok(s: Seq<char>, i: int) -> bool {
    if i == 8 || i == 13 || i == 18 || i == 23 {
        s[i] == '-'
    } else {
        48 <= s[i] as u32 <= 57 || 97 <= s[i] as u32 <= 102
    }
}

/// The canonical hyphenated identifier form: thirty-six characters,
/// hyphens at the four fixed positions, lowercase hex digits elsewhere.
pub open spec fn is_uuid_seq(s: Seq<char>) -> bool {
    s.len() == 36 && forall|i: int| 0 <= i < 36 ==> #[trigger] uuid_char_ok(s, i)
}

/// A canonical share link: the fixed service prefix followed by the
/// hyphenated identifier, and nothing else.
pub open spec fn spec_is_swisstransfer_link(s: Seq<char>) -> bool {
    &&& s.len() == 68
    &&& s.subrange(0, 32) == "https://www.swisstransfer.com/d/"@
    &&& is_uuid_seq(s.subrange(32, 68))
}

/// Validates a share link: exactly the canonical form passes; a
/// trailing slash, another scheme, another path segment or a truncated
/// identifier does not.
pub fn is_swisstransfer_link(link: &str) -> (r: bool)
    ensures
        r == spec_is_swisstransfer_link(link@),
{
    let prefix = "https://www.swisstransfer.com/d/";
    proof {
        reveal_strlit("https://www.swisstransfer.com/d/");
    }
    let n: usize = link.unicode_len();
    if n != 68 {
        return false;
    }
    let mut i: usize = 0;
    while i < 32
        invariant
            i <= 32,
            n == link@.len(),
            n == 68,
            prefix@ == "https://www.swisstransfer.com/d/"@,
            prefix@.len() == 32,
            forall|j: int| 0 <= j < i ==> link@[j] == prefix@[j],
        decreases 32 - i,
    {
        if link.get_char(i) != prefix.get_char(i) {
            proof {
                assert(link@.subrange(0, 32)[i as int] == link@[i as int]);
            }
            return false;
        }
        i = i + 1;
    }
    proof {
        assert(link@.subrange(0, 32) =~= prefix@);
    }
    let mut k: usize = 32;
    while k < 68
        invariant
            32 <= k <= 68,
            n == link@.len(),
            n == 68,
            link@.subrange(0, 32) == "https://www.swisstransfer.com/d/"@,
            forall|j: int| 0 <= j < k - 32 ==> uuid_char_ok(link@.subrange(32, 68), j),
        decreases 68 - k,
    {
        let c = link.get_char(k);
        let u: u32 = c as u32;
        proof {
            assert(link@.subrange(32, 68)[k - 32] == link@[k as int]);
        }
        let pos: usize = k - 32;
        if pos == 8 || pos == 13 || pos == 18 || pos == 23 {
            if c != '-' {
                proof {
                    assert(!uuid_char_ok(link@.subrange(32, 68), k - 32));
                }
                return false;
            }
        } else {
            if !(48 <= u && u <= 57 || 97 <= u && u <= 102) {
                proof {
                    assert(!uuid_char_ok(link@.subrange(32, 68), k - 32));
                }
                return false;
            }
        }
        k = k + 1;
    }
    proof {
        assert(link@.subrange(32, 68).len() == 36);
    }
    true
}

/// Validates a download-count argument: the text must parse as a
/// 16-bit unsigned number and lie between 1 and 250.
pub fn validate_number_download(val: &str) -> (r: Result<String, String>)
    ensures
        match spec_parse_decimal(val@) {
            Some(n) => {
                if n > 65535 {
                    r matches Err(e) && e@ == "Must be a valid number"@
                } else if 1 <= n <= 250 {
                    r matches Ok(v) && v@ == val@
                } else {
                    r matches Err(e) && e@ == "Number of downloads must be between 1 and 250"@
                }
            },
            None => r matches Err(e) && e@ == "Must be a valid number"@,
        },
{
    match parse_decimal_bounded(val, 65535) {
        Some(number) => {
            if number < 1 || number > 250 {
                Err("Number of downloads must be between 1 and 250".to_owned())
            } else {
                Ok(val.to_owned())
            }
        },
        None => Err("Must be a valid number".to_owned()),
    }
}

/// Validates a retention-duration argument: the text must parse as a
/// 32-bit unsigned number and be one of the durations the service
/// offers.
pub fn validate_duration(val: &str) -> (r: Result<String, String>)
    ensures
        match spec_parse_decimal(val@) {
            Some(n) => {
                if n > u32::MAX {
                    r matches Err(e) && e@ == "Must be a valid number"@
                } else if n == 1 || n == 7 || n == 15 || n == 30 {
                    r matches Ok(v) && v@ == val@
                } else {
                    r matches Err(e) && e@ == "Duration must be 1, 7, 15 or 30"@
                }
            },
            None => r matches Err(e) && e@ == "Must be a valid number"@,
        },
{
    match parse_decimal_bounded(val, u32::MAX) {
        Some(number) => {
            if number == 1 || number == 7 || number == 15 || number == 30 {
                Ok(val.to_owned())
            } else {
                Err("Duration must be 1, 7, 15 or 30".to_owned())
            }
        },
        None => Err("Must be a valid number".to_owned()),
    }
}

} // verus!
