//! Parsing of command-line arguments into a command.

use vstd::prelude::*;
use vstd::utf8::encode_utf8;

verus! {

/// A command named on the command line: add a record now, show details
/// or a report for a day offset, or print the help text.
#[derive(Clone, Copy, Debug, PartialEq, Eq, Structural)]
pub enum Command {
    Add,
    Details(usize),
    Report(usize),
    Help,
}

/// A command word normalised: ASCII capital letters lowered and every
/// `-` dropped, so `Report`, `--report` and `report` all name the same
/// command; all other bytes pass through unchanged.
pub open spec fn norm_bytes(s: Seq<u8>) -> Seq<u8>
    decreases s.len(),
{
    if s.len() == 0 {
        Seq::empty()
    } else {
        let rest = norm_bytes(s.drop_last());
        let b = s.last();
        if b == 45u8 {  // '-'
            rest
        } else if 65u8 <= b <= 90u8 {  // 'A' ..= 'Z'
            rest.push((b + 32) as u8)
        } else {
            rest.push(b)
        }
    }
}

pub open spec fn is_digit_seq(s: Seq<u8>) -> bool {
    forall|i: int| 0 <= i < s.len() ==> 48u8 <= #[trigger] s[i] <= 57u8
}

/// The number a string of ASCII digits spells in base ten.
pub open spec fn digits_value(s: Seq<u8>) -> int
    decreases s.len(),
{
    if s.len() == 0 {
        0
    } else {
        digits_value(s.drop_last()) * 10 + (s.last() - 48u8)
    }
}

/// How a count argument parses: an optional leading `+`, then at least
/// one ASCII digit and nothing else, spelling a value that fits `usize`;
/// anything else is a failed parse.
pub open spec fn spec_parse_count(s: Seq<u8>) -> Option<int> {
    let digits = if s.len() > 0 && s[0] == 43u8 {  // '+'
        s.drop_first()
    } else {
        s
    };
    if digits.len() > 0 && is_digit_seq(digits) && 0 <= digits_value(digits) <= usize::MAX {
        Option::Some(digits_value(digits))
    } else {
        Option::None
    }
}

/// The UTF-8 bytes of each argument.
pub open spec fn view_bytes(args: Seq<String>) -> Seq<Seq<u8>> {
    args.map_values(|s: String| encode_utf8(s@))
}

/// The day offset of a command line: the second argument's count when it
/// parses, and 0 when the argument is absent or fails to parse.
pub open spec fn spec_offset(args: Seq<Seq<u8>>) -> int {
    if args.len() >= 2 {
        match spec_parse_count(args[1]) {
            Option::Some(v) => v,
            Option::None => 0,
        }
    } else {
        0
    }
}

/// How a whole command line parses: the first argument, normalised,
/// names the command, each word also going by its one-letter shorthand,
/// and the day offset accompanies `details` and `report`.
pub open spec fn spec_parse(args: Seq<Seq<u8>>) -> Option<Command> {
    if args.len() == 0 {
        Option::None
    } else {
        let cmd = norm_bytes(args[0]);
        let off = spec_offset(args) as usize;
        if cmd == seq![97u8, 100u8, 100u8] || cmd == seq![97u8] {  // "add" | "a"
            Option::Some(Command::Add)
        } else if cmd == seq![100u8, 101u8, 116u8, 97u8, 105u8, 108u8, 115u8] || cmd == seq![
            100u8,
        ] {  // "details" | "d"
            Option::Some(Command::Details(off))
        } else if cmd == seq![114u8, 101u8, 112u8, 111u8, 114u8, 116u8] || cmd == seq![114u8] {
            // "report" | "r"
            Option::Some(Command::Report(off))
        } else if cmd == seq![104u8, 101u8, 108u8, 112u8] || cmd == seq![104u8] {  // "help" | "h"
            Option::Some(Command::Help)
        } else {
            Option::None
        }
    }
}

/// Normalising one more byte appends (or drops) exactly that byte.
proof fn lemma_norm_bytes_take_step(s: Seq<u8>, i: int)
    requires
        0 <= i < s.len(),
    ensures
        norm_bytes(s.take(i + 1)) == {
            let rest = norm_bytes(s.take(i));
            let b = s[i];
            if b == 45u8 {
                rest
            } else if 65u8 <= b <= 90u8 {
                rest.push((b + 32) as u8)
            } else {
                rest.push(b)
            }
        },
{
    assert(s.take(i + 1).drop_last() =~= s.take(i));
    assert(s.take(i + 1).last() == s[i]);
}

/// Reading one more digit multiplies the prefix value by ten and adds
/// the digit.
proof fn lemma_digits_value_take_step(s: Seq<u8>, i: int)
    requires
        0 <= i < s.len(),
    ensures
        digits_value(s.take(i + 1)) == digits_value(s.take(i)) * 10 + (s[i] - 48u8),
{
    assert(s.take(i + 1).drop_last() =~= s.take(i));
    assert(s.take(i + 1).last() == s[i]);
}

/// The value of a digit string is no less than the value of any prefix,
/// and no prefix value is negative.
proof fn lemma_digits_value_prefix_bound(s: Seq<u8>, i: int)
    requires
        is_digit_seq(s),
        0 <= i <= s.len(),
    ensures
        0 <= digits_value(s.take(i)) <= digits_value(s),
    decreases s.len() - i,
{
    lemma_digits_value_nonneg(s.take(i));
    if i == s.len() {
        assert(s.take(i) =~= s);
    } else {
        lemma_digits_value_take_step(s, i);
        lemma_digits_value_nonneg(s.take(i));
        lemma_digits_value_prefix_bound(s, i + 1);
    }
}

proof fn lemma_digits_value_nonneg(s: Seq<u8>)
    requires
        is_digit_seq(s),
    ensures
        0 <= digits_value(s),
    decreases s.len(),
{
    if s.len() > 0 {
        assert(is_digit_seq(s.drop_last())) by {
            assert(forall|i: int|
                0 <= i < s.drop_last().len() ==> #[trigger] s.drop_last()[i] == s[i]);
        }
        lemma_digits_value_nonneg(s.drop_last());
    }
}

/// Compares two byte strings for equality.
fn bytes_eq(a: &Vec<u8>, b: &Vec<u8>) -> (r: bool)
    ensures
        r == (a@ == b@),
{
    if a.len() != b.len() {
        return false;
    }
    let mut i: usize = 0;
    while i < a.len()
        invariant
            i <= a@.len(),
            a@.len() == b@.len(),
            forall|j: int| 0 <= j < i ==> a@[j] == b@[j],
        decreases a@.len() - i,
    {
        if a[i] != b[i] {
            return false;
        }
        i = i + 1;
    }
    proof {
        assert(a@ =~= b@);
    }
    true
}

/// Lowers one argument to its normalised command-word bytes.
fn normalize(s: &String) -> (r: Vec<u8>)
    ensures
        r@ == norm_bytes(encode_utf8(s@)),
{
    let bytes: &[u8] = s.as_str().as_bytes();
    let n: usize = bytes.len();
    let mut out: Vec<u8> = Vec::new();
    let mut i: usize = 0;
    while i < n
        invariant
            i <= n,
            n == bytes@.len(),
            bytes@ == encode_utf8(s@),
            out@ == norm_bytes(bytes@.take(i as int)),
        decreases n - i,
    {
        proof {
            lemma_norm_bytes_take_step(bytes@, i as int);
        }
        let b: u8 = bytes[i];
        if b == 45 {
        } else if 65 <= b && b <= 90 {
            out.push(b + 32);
        } else {
            out.push(b);
        }
        i = i + 1;
    }
    proof {
        assert(bytes@.take(n as int) =~= bytes@);
    }
    out
}

/// Parses one count argument the way a decimal `usize` reads: an
/// optional `+`, then digits, rejecting anything else and overflow.
#[verifier::rlimit(30)]
fn parse_count(s: &String) -> (r: Option<usize>)
    ensures
        r == match spec_parse_count(encode_utf8(s@)) {
            Option::Some(v) => Option::Some(v as usize),
            Option::None => Option::<usize>::None,
        },
{
    let bytes: &[u8] = s.as_str().as_bytes();
    let n: usize = bytes.len();
    let start: usize = if n > 0 && bytes[0] == 43 {
        1
    } else {
        0
    };
    let ghost digits = if bytes@.len() > 0 && bytes@[0] == 43u8 {
        bytes@.drop_first()
    } else {
        bytes@
    };
    proof {
        assert(digits =~= bytes@.subrange(start as int, n as int));
    }
    if n == start {
        return Option::None;
    }
    let mut v: usize = 0;
    let mut i: usize = start;
    while i < n
        invariant
            start <= i <= n,
            start <= 1,
            n == bytes@.len(),
            n > start,
            bytes@ == encode_utf8(s@),
            digits == (if bytes@.len() > 0 && bytes@[0] == 43u8 {
                bytes@.drop_first()
            } else {
                bytes@
            }),
            digits == bytes@.subrange(start as int, n as int),
            digits.len() == n - start,
            is_digit_seq(digits.take(i - start)),
            v == digits_value(digits.take(i - start)),
        decreases n - i,
    {
        let b: u8 = bytes[i];
        proof {
            assert(digits[i - start] == bytes@[i as int]);
        }
        if b < 48 || b > 57 {
            proof {
                assert(!is_digit_seq(digits));
            }
            return Option::None;
        }
        let d: usize = (b - 48) as usize;
        proof {
            lemma_digits_value_take_step(digits, i - start);
            assert(is_digit_seq(digits.take(i - start + 1))) by {
                assert(forall|j: int|
                    0 <= j < i - start + 1 ==> #[trigger] digits.take(i - start + 1)[j]
                        == digits[j]);
            }
        }
        let vm: usize = match v.checked_mul(10) {
            Option::Some(x) => x,
            Option::None => {
                proof {
                    lemma_count_overflow(digits, i - start, v as int, d as int);
                }
                return Option::None;
            },
        };
        let va: usize = match vm.checked_add(d) {
            Option::Some(x) => x,
            Option::None => {
                proof {
                    lemma_count_overflow(digits, i - start, v as int, d as int);
                }
                return Option::None;
            },
        };
        v = va;
        i = i + 1;
    }
    proof {
        assert(digits.take(n - start) =~= digits);
    }
    Option::Some(v)
}

/// When the next digit pushes the running value past `usize::MAX`, the
/// whole digit string's value is past it too, so the parse fails.
proof fn lemma_count_overflow(digits: Seq<u8>, k: int, v: int, d: int)
    requires
        0 <= k < digits.len(),
        is_digit_seq(digits.take(k)),
        v == digits_value(digits.take(k)),
        d == digits[k] - 48,
        48 <= digits[k] <= 57,
        v * 10 + d > usize::MAX,
    ensures
        is_digit_seq(digits) ==> digits_value(digits) > usize::MAX,
{
    if is_digit_seq(digits) {
        lemma_digits_value_take_step(digits, k);
        lemma_digits_value_prefix_bound(digits, k + 1);
    }
}

/// Parses the command line: the first argument names the command, case-
/// insensitively and with `-` ignored; `details` and `report` take the
/// second argument as a day offset, defaulting to 0 when it is absent
/// or malformed.
pub fn parse(args: &[String]) -> (r: Option<Command>)
    ensures
        r == spec_parse(view_bytes(args@)),
{
    let ghost view_args = view_bytes(args@);
    if args.len() == 0 {
        return Option::None;
    }
    let cmd: Vec<u8> = normalize(&args[0]);
    let offset: usize = if args.len() >= 2 {
        match parse_count(&args[1]) {
            Option::Some(v) => v,
            Option::None => 0,
        }
    } else {
        0
    };
    proof {
        assert(view_args[0] == encode_utf8(args@[0]@));
        assert(args@.len() >= 2 ==> view_args[1] == encode_utf8(args@[1]@));
        assert(offset == spec_offset(view_args) as usize);
    }
    let w_add: Vec<u8> = vec![97, 100, 100];
    let w_a: Vec<u8> = vec![97];
    let w_details: Vec<u8> = vec![100, 101, 116, 97, 105, 108, 115];
    let w_d: Vec<u8> = vec![100];
    let w_report: Vec<u8> = vec![114, 101, 112, 111, 114, 116];
    let w_r: Vec<u8> = vec![114];
    let w_help: Vec<u8> = vec![104, 101, 108, 112];
    let w_h: Vec<u8> = vec![104];
    let is_add: bool = bytes_eq(&cmd, &w_add) || bytes_eq(&cmd, &w_a);
    let is_details: bool = bytes_eq(&cmd, &w_details) || bytes_eq(&cmd, &w_d);
    let is_report: bool = bytes_eq(&cmd, &w_report) || bytes_eq(&cmd, &w_r);
    let is_help: bool = bytes_eq(&cmd, &w_help) || bytes_eq(&cmd, &w_h);
    proof {
        let word = norm_bytes(view_args[0]);
        assert(cmd@ == word);
        assert(view_args.len() == args@.len());
        assert(w_add@ == seq![97u8, 100u8, 100u8]);
        assert(w_a@ == seq![97u8]);
        assert(w_details@ == seq![100u8, 101u8, 116u8, 97u8, 105u8, 108u8, 115u8]);
        assert(w_d@ == seq![100u8]);
        assert(w_report@ == seq![114u8, 101u8, 112u8, 111u8, 114u8, 116u8]);
        assert(w_r@ == seq![114u8]);
        assert(w_help@ == seq![104u8, 101u8, 108u8, 112u8]);
        assert(w_h@ == seq![104u8]);
        assert(is_add == (word == seq![97u8, 100u8, 100u8] || word == seq![97u8]));
        assert(is_details == (word == seq![100u8, 101u8, 116u8, 97u8, 105u8, 108u8, 115u8]
            || word == seq![100u8]));
        assert(is_report == (word == seq![114u8, 101u8, 112u8, 111u8, 114u8, 116u8] || word
            == seq![114u8]));
        assert(is_help == (word == seq![104u8, 101u8, 108u8, 112u8] || word == seq![104u8]));
    }
    if is_add {
        Option::Some(Command::Add)
    } else if is_details {
        Option::Some(Command::Details(offset))
    } else if is_report {
        Option::Some(Command::Report(offset))
    } else if is_help {
        Option::Some(Command::Help)
    } else {
        Option::None
    }
}

} // verus!
