use vstd::prelude::*;

verus! {

/// The failure classes of move-input parsing, kept apart from the game
/// core's own errors: a coordinate pair can be missing a side, hold a
/// non-numeric coordinate, or name a coordinate outside 1..=3.
#[derive(Copy, Clone, PartialEq, Eq, Structural, Debug)]
pub enum InputError {
    /// No comma, or nothing on one side of it.
    MissingCoordinate,
    /// A coordinate holds a character that is not a decimal digit.
    NonNumericCoordinate,
    /// A coordinate, read as a 1-based number, lies outside 1..=3.
    OutOfRange,
}

/// The input with every space removed; other characters stay in order.
pub open spec fn strip_spaces(s: Seq<char>) -> Seq<char> {
    s.filter(|c: char| c != ' ')
}

/// The decimal value of a digit character, or None for any other character.
pub open spec fn digit_of(c: char) -> Option<int> {
    if c == '0' {
        Some(0)
    } else if c == '1' {
        Some(1)
    } else if c == '2' {
        Some(2)
    } else if c == '3' {
        Some(3)
    } else if c == '4' {
        Some(4)
    } else if c == '5' {
        Some(5)
    } else if c == '6' {
        Some(6)
    } else if c == '7' {
        Some(7)
    } else if c == '8' {
        Some(8)
    } else if c == '9' {
        Some(9)
    } else {
        None
    }
}

/// Whether `c` is a decimal digit.
pub open spec fn is_digit(c: char) -> bool {
    digit_of(c) is Some
}

/// Whether every character of `s` is a decimal digit.
pub open spec fn all_digits(s: Seq<char>) -> bool {
    forall|j: int| 0 <= j < s.len() ==> is_digit(#[trigger] s[j])
}

/// The digit's value, with 0 standing in for a non-digit; only applied
/// under `all_digits`.
pub open spec fn digit_int(c: char) -> int {
    match digit_of(c) {
        Some(d) => d,
        None => 0,
    }
}

/// The number the digit string `s` denotes in decimal, most significant
/// digit first.
pub open spec fn digits_value(s: Seq<char>) -> int
    decreases s.len(),
{
    if s.len() == 0 {
        0
    } else {
        10 * digits_value(s.drop_last()) + digit_int(s.last())
    }
}

/// The index of the first comma in `t`, or `t.len()` when there is none.
pub open spec fn first_comma(t: Seq<char>) -> int
    decreases t.len(),
{
    if t.len() == 0 {
        0
    } else if t[0] == ',' {
        0
    } else {
        1 + first_comma(t.subrange(1, t.len() as int))
    }
}

/// What parsing the already space-stripped text `t` yields: the zero-based
/// coordinate pair of a well-formed `x,y` move, or the first applicable
/// failure class. `t` must split at its first comma into two non-empty
/// sides (else a coordinate is missing), each side must be all digits (else
/// non-numeric), and each side's value, 1-based, must lie in 1..=3 (else
/// out of range); the pair is then both values less one.
pub open spec fn parse_stripped(t: Seq<char>) -> Result<(u8, u8), InputError> {
    let k = first_comma(t);
    if k >= t.len() {
        Err(InputError::MissingCoordinate)
    } else if k == 0 || k + 1 == t.len() {
        Err(InputError::MissingCoordinate)
    } else {
        let left = t.subrange(0, k);
        let right = t.subrange(k + 1, t.len() as int);
        if !all_digits(left) || !all_digits(right) {
            Err(InputError::NonNumericCoordinate)
        } else {
            let xv = digits_value(left);
            let yv = digits_value(right);
            if 1 <= xv <= 3 && 1 <= yv <= 3 {
                Ok((((xv - 1) as u8), ((yv - 1) as u8)))
            } else {
                Err(InputError::OutOfRange)
            }
        }
    }
}

/// What parsing the raw move text `s` yields: spaces are stripped first,
/// the rest as `parse_stripped` says.
pub open spec fn parse_spec(s: Seq<char>) -> Result<(u8, u8), InputError> {
    parse_stripped(strip_spaces(s))
}

/// A denoted number is never negative.
proof fn lemma_digits_value_nonneg(s: Seq<char>)
    ensures
        digits_value(s) >= 0,
    decreases s.len(),
{
    if s.len() > 0 {
        lemma_digits_value_nonneg(s.drop_last());
    }
}

/// A scan that saw no comma before `k`, and one at `k` unless `k` is the
/// length, has found the first comma.
proof fn lemma_first_comma_at(t: Seq<char>, k: int)
    requires
        0 <= k <= t.len(),
        forall|j: int| 0 <= j < k ==> t[j] != ',',
        k < t.len() ==> t[k] == ',',
    ensures
        first_comma(t) == k,
    decreases k,
{
    if k == 0 {
    } else {
        let t2 = t.subrange(1, t.len() as int);
        lemma_first_comma_at(t2, k - 1);
    }
}

/// The digit character `c` denotes, or None for any other character.
fn digit_of_char(c: char) -> (r: Option<u8>)
    ensures
        r is Some <==> is_digit(c),
        r matches Some(d) ==> digit_of(c) == Some(d as int),
{
    match c {
        '0' => Some(0),
        '1' => Some(1),
        '2' => Some(2),
        '3' => Some(3),
        '4' => Some(4),
        '5' => Some(5),
        '6' => Some(6),
        '7' => Some(7),
        '8' => Some(8),
        '9' => Some(9),
        _ => None,
    }
}

/// Reads the characters `t[from..to]` as a decimal number. None when a
/// non-digit occurs; otherwise the value, saturated at 4 - enough to decide
/// membership in 1..=3, which is all the callers ask.
fn parse_part(t: &Vec<char>, from: usize, to: usize) -> (r: Option<u8>)
    requires
        from <= to <= t@.len(),
    ensures
        ({
            let part = t@.subrange(from as int, to as int);
            (r is Some <==> all_digits(part)) && (r matches Some(v) ==> v as int == (if digits_value(
                part,
            ) > 4 {
                4int
            } else {
                digits_value(part)
            }))
        }),
{
    let mut val: u8 = 0;
    let mut i: usize = from;
    while i < to
        invariant
            from <= i <= to <= t@.len(),
            all_digits(t@.subrange(from as int, i as int)),
            val <= 4,
            val as int == (if digits_value(t@.subrange(from as int, i as int)) > 4 {
                4int
            } else {
                digits_value(t@.subrange(from as int, i as int))
            }),
        decreases to - i,
    {
        let ghost prefix = t@.subrange(from as int, i as int);
        let ghost prefix2 = t@.subrange(from as int, i as int + 1);
        let c = t[i];
        match digit_of_char(c) {
            Some(d) => {
                proof {
                    assert(prefix2.drop_last() =~= prefix);
                    assert(prefix2.last() == t@[i as int]);
                    lemma_digits_value_nonneg(prefix);
                    assert(forall|j: int|
                        0 <= j < prefix2.len() ==> is_digit(#[trigger] prefix2[j]));
                }
                let w = val * 10 + d;
                val = if w > 4 {
                    4
                } else {
                    w
                };
            },
            None => {
                proof {
                    let part = t@.subrange(from as int, to as int);
                    assert(part[i as int - from as int] == t@[i as int]);
                }
                return None;
            },
        }
        i += 1;
    }
    proof {
        assert(t@.subrange(from as int, i as int) =~= t@.subrange(from as int, to as int));
    }
    Some(val)
}

/// Parses free-form move text of the shape `x,y` - two 1-based coordinates
/// separated by a comma, with spaces allowed anywhere - into the zero-based
/// coordinate pair the board takes. The failure classes are kept apart, as
/// `parse_spec` states: a missing coordinate, a non-numeric one, and one
/// outside 1..=3.
pub fn parse_input(input: &str) -> (r: Result<(u8, u8), InputError>)
    ensures
        r == parse_spec(input@),
{
    let n = input.unicode_len();
    // Strip spaces.
    let mut t: Vec<char> = Vec::new();
    let mut i: usize = 0;
    while i < n
        invariant
            i <= n,
            n == input@.len(),
            t@ == strip_spaces(input@.take(i as int)),
        decreases n - i,
    {
        let c = input.get_char(i);
        proof {
            reveal(Seq::filter);
            assert(input@.take(i as int + 1).drop_last() =~= input@.take(i as int));
            assert(input@.take(i as int + 1).last() == input@[i as int]);
        }
        if c != ' ' {
            t.push(c);
        }
        i += 1;
    }
    proof {
        assert(input@.take(n as int) =~= input@);
    }
    // Find the first comma.
    let n_t = t.len();
    let mut k: usize = 0;
    while k < n_t && t[k] != ','
        invariant
            k <= n_t,
            n_t == t@.len(),
            forall|j: int| 0 <= j < k ==> t@[j] != ',',
        decreases n_t - k,
    {
        k += 1;
    }
    proof {
        lemma_first_comma_at(t@, k as int);
    }
    // Split at the comma; both sides must be there.
    if k == n_t || k == 0 || k + 1 == n_t {
        return Err(InputError::MissingCoordinate);
    }
    // Each side must be a number, 1-based and on the grid.
    let left = parse_part(&t, 0, k);
    let right = parse_part(&t, k + 1, n_t);
    match (left, right) {
        (Some(xv), Some(yv)) => {
            proof {
                lemma_digits_value_nonneg(t@.subrange(0, k as int));
                lemma_digits_value_nonneg(t@.subrange(k as int + 1, n_t as int));
            }
            if 1 <= xv && xv <= 3 && 1 <= yv && yv <= 3 {
                Ok((xv - 1, yv - 1))
            } else {
                Err(InputError::OutOfRange)
            }
        },
        _ => Err(InputError::NonNumericCoordinate),
    }
}

} // verus!
