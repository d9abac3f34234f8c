use vstd::prelude::*;
use vstd::string::StrSliceExecFns;
use vstd::string::StringExecFns;

use crate::error::VenvError;
use crate::text::{split_chars, split_on, views};

verus! {

pub open spec fn is_digit(c: char) -> bool {
    '0' <= c && c <= '9'
}

/// A non-empty run of decimal digits.
pub open spec fn is_number(s: Seq<char>) -> bool {
    s.len() > 0 && forall|i: int| 0 <= i < s.len() ==> is_digit(#[trigger] s[i])
}

pub open spec fn digit_value(c: char) -> nat {
    (c as int - '0' as int) as nat
}

/// The value of a run of decimal digits, most significant first.
pub open spec fn number_value(s: Seq<char>) -> nat
    decreases s.len(),
{
    if s.len() == 0 {
        0
    } else {
        number_value(s.drop_last()) * 10 + digit_value(s.last())
    }
}

pub open spec fn digit_char(d: nat) -> char {
    seq!['0', '1', '2', '3', '4', '5', '6', '7', '8', '9'][d as int]
}

/// The decimal notation of `n`, without leading zeros.
pub open spec fn decimal(n: nat) -> Seq<char>
    decreases n,
{
    if n < 10 {
        seq![digit_char(n)]
    } else {
        decimal(n / 10).push(digit_char(n % 10))
    }
}

/// The dot-separated components of a version string.
pub open spec fn components(s: Seq<char>) -> Seq<Seq<char>> {
    split_on(s, '.')
}

/// Two or more dot-separated non-negative integers.
pub open spec fn is_valid_version(s: Seq<char>) -> bool {
    let parts = components(s);
    parts.len() >= 2 && forall|i: int| 0 <= i < parts.len() ==> is_number(#[trigger] parts[i])
}

/// A valid version string whose major and minor numbers fit in 64 bits.
pub open spec fn is_parseable_version(s: Seq<char>) -> bool {
    is_valid_version(s) && number_value(components(s)[0]) <= u64::MAX && number_value(
        components(s)[1],
    ) <= u64::MAX
}

/// A parsed Python version: the major and minor numbers name directories, the
/// full text is recorded in the environment's metadata.
pub struct VersionDescriptor {
    pub major: u64,
    pub minor: u64,
    pub raw: String,
}

impl VersionDescriptor {
    pub open spec fn wf(&self) -> bool {
        &&& is_parseable_version(self.raw@)
        &&& self.major as nat == number_value(components(self.raw@)[0])
        &&& self.minor as nat == number_value(components(self.raw@)[1])
    }

    /// Parses a dotted version such as `3.11.4`. Components after the minor
    /// number are checked and kept in `raw`, but otherwise unused.
    pub fn parse(raw: &str) -> (r: Result<VersionDescriptor, VenvError>)
        ensures
            r is Ok <==> is_parseable_version(raw@),
            r is Err ==> r == Err::<VersionDescriptor, VenvError>(VenvError::InvalidVersionFormat),
            r matches Ok(v) ==> v.wf() && v.raw@ == raw@,
    {
        let parts = split_chars(raw, '.');
        proof {
            assert(views(parts@).len() == parts@.len());
        }
        if parts.len() < 2 {
            return Err(VenvError::InvalidVersionFormat);
        }
        let mut i: usize = 0;
        while i < parts.len()
            invariant
                0 <= i <= parts@.len(),
                views(parts@) == components(raw@),
                forall|j: int| 0 <= j < i ==> is_number(#[trigger] components(raw@)[j]),
            decreases parts@.len() - i,
        {
            if !all_digits(parts[i].as_str()) {
                assert(views(parts@)[i as int] == parts@[i as int]@);
                return Err(VenvError::InvalidVersionFormat);
            }
            assert(views(parts@)[i as int] == parts@[i as int]@);
            i = i + 1;
        }
        assert(views(parts@)[0] == parts@[0]@);
        assert(views(parts@)[1] == parts@[1]@);
        let major = match parse_number(parts[0].as_str()) {
            Some(m) => m,
            None => {
                return Err(VenvError::InvalidVersionFormat);
            },
        };
        let minor = match parse_number(parts[1].as_str()) {
            Some(m) => m,
            None => {
                return Err(VenvError::InvalidVersionFormat);
            },
        };
        Ok(VersionDescriptor { major, minor, raw: String::from_str(raw) })
    }
}

/// Whether `s` is a non-empty run of decimal digits.
fn all_digits(s: &str) -> (r: bool)
    ensures
        r == is_number(s@),
{
    let n = s.unicode_len();
    if n == 0 {
        return false;
    }
    let mut i: usize = 0;
    while i < n
        invariant
            n == s@.len(),
            i <= n,
            forall|j: int| 0 <= j < i ==> is_digit(#[trigger] s@[j]),
        decreases n - i,
    {
        let c = s.get_char(i);
        if !('0' <= c && c <= '9') {
            return false;
        }
        i = i + 1;
    }
    true
}

proof fn lemma_number_value_prefix(s: Seq<char>, k: int)
    requires
        0 <= k <= s.len(),
    ensures
        number_value(s.subrange(0, k)) <= number_value(s),
    decreases s.len() - k,
{
    if k < s.len() {
        lemma_number_value_prefix(s, k + 1);
        assert(s.subrange(0, k + 1).drop_last() =~= s.subrange(0, k));
    } else {
        assert(s.subrange(0, k) =~= s);
    }
}

/// The value of a run of digits, or `None` where it exceeds `u64::MAX`.
fn parse_number(s: &str) -> (r: Option<u64>)
    requires
        is_number(s@),
    ensures
        r is Some <==> number_value(s@) <= u64::MAX,
        r matches Some(v) ==> v as nat == number_value(s@),
{
    let n = s.unicode_len();
    let mut acc: u64 = 0;
    let mut i: usize = 0;
    assert(s@.subrange(0, 0).len() == 0);
    while i < n
        invariant
            n == s@.len(),
            i <= n,
            is_number(s@),
            acc as nat == number_value(s@.subrange(0, i as int)),
        decreases n - i,
    {
        let c = s.get_char(i);
        assert(is_digit(s@[i as int]));
        let d: u64 = (c as u32 - '0' as u32) as u64;
        let ghost pre = s@.subrange(0, i as int);
        let ghost next = s@.subrange(0, i + 1);
        assert(next.drop_last() =~= pre);
        assert(next.last() == c);
        assert(number_value(next) == number_value(pre) * 10 + d);
        if acc > (u64::MAX - d) / 10 {
            assert(acc * 10 + d > u64::MAX) by (nonlinear_arith)
                requires
                    acc > (u64::MAX - d) / 10,
                    d <= 9,
            ;
            proof {
                lemma_number_value_prefix(s@, i + 1);
            }
            return None;
        }
        assert(acc * 10 + d <= u64::MAX) by (nonlinear_arith)
            requires
                acc <= (u64::MAX - d) / 10,
                d <= 9,
        ;
        acc = acc * 10 + d;
        i = i + 1;
    }
    assert(s@.subrange(0, n as int) =~= s@);
    Some(acc)
}

/// The decimal notation of `n`.
pub fn decimal_string(n: u64) -> (r: String)
    ensures
        r@ == decimal(n as nat),
{
    let digits: &str = "0123456789";
    proof {
        reveal_strlit("0123456789");
        assert(digits@ =~= seq!['0', '1', '2', '3', '4', '5', '6', '7', '8', '9']);
    }
    let mut rest: u64 = n;
    let mut acc = String::new();
    let d: usize = (rest % 10) as usize;
    acc = acc.concat(digits.substring_char(d, d + 1));
    assert(acc@ =~= seq![digit_char((n % 10) as nat)]);
    rest = rest / 10;
    while rest > 0
        invariant
            digits@ == seq!['0', '1', '2', '3', '4', '5', '6', '7', '8', '9'],
            rest == 0 ==> acc@ == decimal(n as nat),
            rest > 0 ==> decimal(n as nat) == decimal(rest as nat) + acc@,
        decreases rest,
    {
        let d: usize = (rest % 10) as usize;
        let piece = String::from_str(digits.substring_char(d, d + 1));
        assert(piece@ =~= seq![digit_char((rest % 10) as nat)]);
        let ghost old_acc = acc@;
        acc = piece.concat(acc.as_str());
        proof {
            if rest >= 10 {
                assert(decimal(rest as nat) == decimal((rest / 10) as nat).push(
                    digit_char((rest % 10) as nat),
                ));
                assert(decimal(rest as nat) + old_acc =~= decimal((rest / 10) as nat) + acc@);
            } else {
                assert(decimal(rest as nat) + old_acc =~= acc@);
            }
        }
        rest = rest / 10;
    }
    acc
}

} // verus!
