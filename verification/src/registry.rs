use vstd::prelude::*;
use vstd::string::StrSliceExecFns;
use vstd::string::StringExecFns;
use vstd::arithmetic::div_mod::lemma_fundamental_div_mod;

use crate::errors::Error;

verus! {

/// The well-known directory under which the engine records per-container
/// state.
pub open spec fn runtime_root() -> Seq<char> {
    "/var/run/picotin"@
}

/// The runtime root directory as a path string.
pub fn runtime_root_path() -> (r: &'static str)
    ensures
        r@ == runtime_root(),
{
    "/var/run/picotin"
}

/// The per-container directory: `<runtime root>/<name>`.
pub open spec fn container_dir_text(name: Seq<char>) -> Seq<char> {
    runtime_root() + "/"@ + name
}

/// The file recording a container's init PID: `<runtime root>/<name>/init_pid`.
pub open spec fn init_pid_text(name: Seq<char>) -> Seq<char> {
    container_dir_text(name) + "/init_pid"@
}

/// The file recording a container's link peer:
/// `<runtime root>/<name>/paired_with`.
pub open spec fn paired_with_text(name: Seq<char>) -> Seq<char> {
    container_dir_text(name) + "/paired_with"@
}

/// Builds the per-container directory path.
pub fn container_dir(name: &str) -> (r: String)
    ensures
        r@ == container_dir_text(name@),
{
    let mut r = String::from_str("/var/run/picotin");
    r.append("/");
    r.append(name);
    r
}

/// Builds the path of a container's `init_pid` file.
pub fn init_pid_path(name: &str) -> (r: String)
    ensures
        r@ == init_pid_text(name@),
{
    let mut r = container_dir(name);
    r.append("/init_pid");
    r
}

/// Builds the path of a container's `paired_with` file.
pub fn paired_with_path(name: &str) -> (r: String)
    ensures
        r@ == paired_with_text(name@),
{
    let mut r = container_dir(name);
    r.append("/paired_with");
    r
}

/// What a successful `link` writes into the two `paired_with` files: each
/// side records the other's name.
pub fn pair_contents(lhs: &str, rhs: &str) -> (r: (String, String))
    ensures
        r.0@ == rhs@,
        r.1@ == lhs@,
{
    (String::from_str(rhs), String::from_str(lhs))
}

/// The pairing records after a successful `link(lhs, rhs)`: the registry
/// maps each of the two names to the other.
pub open spec fn pairs_after_link(
    pairs: Map<Seq<char>, Seq<char>>,
    lhs: Seq<char>,
    rhs: Seq<char>,
) -> Map<Seq<char>, Seq<char>> {
    pairs.insert(lhs, rhs).insert(rhs, lhs)
}

/// After a successful `link`, the two `paired_with` records exist and are
/// mutual inverses: the peer recorded for each side names the other side.
pub proof fn lemma_pair_symmetric(
    pairs: Map<Seq<char>, Seq<char>>,
    lhs: Seq<char>,
    rhs: Seq<char>,
)
    ensures
        pairs_after_link(pairs, lhs, rhs).contains_key(lhs),
        pairs_after_link(pairs, lhs, rhs).contains_key(rhs),
        pairs_after_link(pairs, lhs, rhs)[lhs] == rhs || lhs == rhs,
        pairs_after_link(pairs, lhs, rhs)[rhs] == lhs,
        lhs != rhs ==> pairs_after_link(pairs, lhs, rhs)[pairs_after_link(
            pairs,
            lhs,
            rhs,
        )[lhs]] == lhs && pairs_after_link(pairs, lhs, rhs)[pairs_after_link(
            pairs,
            lhs,
            rhs,
        )[rhs]] == rhs,
{
}

/// The set of directories after `ensure_root`: the runtime root is present,
/// and nothing else changes.
pub open spec fn dirs_after_ensure_root(dirs: Set<Seq<char>>) -> Set<Seq<char>> {
    dirs.insert(runtime_root())
}

/// Repeated `ensure_root` is idempotent: running it a second time leaves the
/// set of directories exactly as the first run left it.
pub proof fn lemma_ensure_root_idempotent(dirs: Set<Seq<char>>)
    ensures
        dirs_after_ensure_root(dirs_after_ensure_root(dirs)) == dirs_after_ensure_root(dirs),
{
    assert(dirs_after_ensure_root(dirs_after_ensure_root(dirs)) =~= dirs_after_ensure_root(dirs));
}

/// The observed outcome of one exclusive directory-creation attempt.
#[derive(Clone, Copy, Debug, PartialEq, Eq, Structural)]
pub enum MkdirOutcome {
    /// The directory did not exist and was created.
    Created,
    /// The directory already existed.
    AlreadyExists,
    /// The filesystem rejected the attempt for any other reason.
    OtherError,
}

/// `ensure_root` succeeds exactly when the runtime root was created by this
/// attempt or was already present; any other filesystem failure is an error.
pub fn ensure_root_result(outcome: MkdirOutcome) -> (r: Result<(), Error>)
    ensures
        r is Ok <==> (outcome is Created || outcome is AlreadyExists),
        r is Err <==> outcome is OtherError,
        r is Err ==> r == Err::<(), Error>(Error::IOFailure),
{
    match outcome {
        MkdirOutcome::Created => Ok(()),
        MkdirOutcome::AlreadyExists => Ok(()),
        MkdirOutcome::OtherError => Err(Error::IOFailure),
    }
}

/// What the ID allocator does after one exclusive creation attempt.
#[derive(Clone, Copy, Debug, PartialEq, Eq, Structural)]
pub enum AllocDecision {
    /// The directory was created: the candidate identifier is taken.
    Accept,
    /// Name collision: draw a fresh identifier and try again.
    Retry,
    /// Any other filesystem failure aborts the allocation.
    Fail,
}

/// Allocation retries exactly on a name collision; every other failure
/// aborts, and a successful exclusive creation is accepted.
pub fn alloc_step(outcome: MkdirOutcome) -> (r: AllocDecision)
    ensures
        r is Accept <==> outcome is Created,
        r is Retry <==> outcome is AlreadyExists,
        r is Fail <==> outcome is OtherError,
{
    match outcome {
        MkdirOutcome::Created => AllocDecision::Accept,
        MkdirOutcome::AlreadyExists => AllocDecision::Retry,
        MkdirOutcome::OtherError => AllocDecision::Fail,
    }
}

/// Whether a character is a decimal digit.
pub open spec fn is_dec_digit(c: char) -> bool {
    48 <= c as u32 <= 57
}

/// The numeric value of a decimal digit character.
pub open spec fn digit_val(c: char) -> int {
    c as u32 - 48
}

/// Whether every character of a text is a decimal digit.
pub open spec fn all_dec_digits(s: Seq<char>) -> bool {
    forall|i: int| 0 <= i < s.len() ==> is_dec_digit(#[trigger] s[i])
}

/// The integer value of a digit string, most significant digit first.
pub open spec fn digits_val(s: Seq<char>) -> int
    decreases s.len(),
{
    if s.len() == 0 {
        0
    } else {
        digits_val(s.drop_last()) * 10 + digit_val(s.last())
    }
}

/// The digit part of an `init_pid` text: everything after an optional
/// leading plus sign.
pub open spec fn pid_digits(s: Seq<char>) -> Seq<char> {
    if s.len() > 0 && s[0] == '+' {
        s.drop_first()
    } else {
        s
    }
}

/// Whether a text is a well-formed `init_pid` record: a non-empty run of
/// decimal digits, after an optional leading plus sign, whose value fits in
/// 32 bits.
pub open spec fn valid_pid_text(s: Seq<char>) -> bool {
    pid_digits(s).len() > 0 && all_dec_digits(pid_digits(s)) && digits_val(pid_digits(s))
        <= u32::MAX
}

/// The PID a well-formed `init_pid` text denotes.
pub open spec fn pid_text_val(s: Seq<char>) -> int {
    digits_val(pid_digits(s))
}

proof fn lemma_digits_val_nonneg(s: Seq<char>)
    requires
        all_dec_digits(s),
    ensures
        digits_val(s) >= 0,
    decreases s.len(),
{
    if s.len() > 0 {
        assert(all_dec_digits(s.drop_last())) by {
            assert(forall|i: int|
                0 <= i < s.drop_last().len() ==> s.drop_last()[i] == #[trigger] s[i]);
        }
        lemma_digits_val_nonneg(s.drop_last());
    }
}

/// Appending digits never shrinks the value: the value of a prefix bounds
/// the value of the whole digit string from below.
proof fn lemma_digits_val_prefix_le(s: Seq<char>, k: int)
    requires
        all_dec_digits(s),
        0 <= k <= s.len(),
    ensures
        digits_val(s.take(k)) <= digits_val(s),
    decreases s.len() - k,
{
    if k < s.len() {
        let t = s.take(k + 1);
        assert(t.drop_last() =~= s.take(k));
        assert(all_dec_digits(s.take(k))) by {
            assert(forall|i: int| 0 <= i < k ==> s.take(k)[i] == #[trigger] s[i]);
        }
        lemma_digits_val_nonneg(s.take(k));
        assert(digits_val(t) == digits_val(s.take(k)) * 10 + digit_val(s[k]));
        assert(digits_val(s.take(k)) * 10 >= digits_val(s.take(k))) by (nonlinear_arith)
            requires
                digits_val(s.take(k)) >= 0,
        ;
        assert(digits_val(s.take(k)) <= digits_val(t));
        lemma_digits_val_prefix_le(s, k + 1);
        assert(s.take(s.len() as int) =~= s);
    } else {
        assert(s.take(k) =~= s);
    }
}

/// Parses the text of an `init_pid` file as a decimal 32-bit integer,
/// accepting an optional leading plus sign. Returns `Malformed` exactly on
/// texts that are not well-formed decimal records.
pub fn parse_pid(text: &str) -> (r: Result<u32, Error>)
    ensures
        match r {
            Ok(v) => valid_pid_text(text@) && v == pid_text_val(text@),
            Err(e) => e == Error::Malformed && !valid_pid_text(text@),
        },
{
    let len = text.unicode_len();
    let ghost d = pid_digits(text@);
    let mut start: usize = 0;
    if len > 0 && text.get_char(0) == '+' {
        start = 1;
    }
    proof {
        assert(d.len() == len - start);
        assert(forall|j: int| 0 <= j < d.len() ==> d[j] == text@[j + start]);
    }
    if start >= len {
        return Err(Error::Malformed);
    }
    let mut acc: u32 = 0;
    let mut i: usize = start;
    while i < len
        invariant
            start <= i <= len,
            len == text@.len(),
            start < len,
            d == pid_digits(text@),
            d.len() == len - start,
            forall|j: int| 0 <= j < d.len() ==> d[j] == text@[j + start],
            forall|j: int| 0 <= j < i - start ==> is_dec_digit(#[trigger] d[j]),
            acc == digits_val(d.take(i - start)),
        decreases len - i,
    {
        let c = text.get_char(i);
        let u = c as u32;
        if u < 48 || u > 57 {
            assert(!is_dec_digit(d[i - start]));
            return Err(Error::Malformed);
        }
        let dv = u - 48;
        let ghost k = i - start;
        proof {
            assert(d.take(k + 1).drop_last() =~= d.take(k as int));
            assert(d.take(k + 1).last() == d[k as int]);
            assert(digits_val(d.take(k + 1)) == acc * 10 + dv);
        }
        if acc > (u32::MAX - dv) / 10 {
            proof {
                lemma_fundamental_div_mod((u32::MAX - dv) as int, 10);
                assert(acc * 10 + dv > u32::MAX) by (nonlinear_arith)
                    requires
                        acc > ((u32::MAX - dv) as int) / 10,
                        0 <= dv <= 9,
                        (u32::MAX - dv) as int == 10 * (((u32::MAX - dv) as int) / 10) + (
                        (u32::MAX - dv) as int) % 10,
                        0 <= ((u32::MAX - dv) as int) % 10 < 10,
                ;
                if all_dec_digits(d) {
                    lemma_digits_val_prefix_le(d, k + 1);
                }
            }
            return Err(Error::Malformed);
        }
        proof {
            lemma_fundamental_div_mod((u32::MAX - dv) as int, 10);
            assert(acc * 10 + dv <= u32::MAX) by (nonlinear_arith)
                requires
                    acc <= ((u32::MAX - dv) as int) / 10,
                    0 <= dv <= 9,
                    (u32::MAX - dv) as int == 10 * (((u32::MAX - dv) as int) / 10) + ((u32::MAX
                        - dv) as int) % 10,
                    0 <= ((u32::MAX - dv) as int) % 10 < 10,
            ;
        }
        acc = acc * 10 + dv;
        i = i + 1;
    }
    proof {
        assert(d.take(len - start) =~= d);
        assert(all_dec_digits(d));
    }
    Ok(acc)
}

/// The decimal digit character for a value below ten.
pub open spec fn dec_char(d: int) -> char {
    if d <= 0 {
        '0'
    } else if d == 1 {
        '1'
    } else if d == 2 {
        '2'
    } else if d == 3 {
        '3'
    } else if d == 4 {
        '4'
    } else if d == 5 {
        '5'
    } else if d == 6 {
        '6'
    } else if d == 7 {
        '7'
    } else if d == 8 {
        '8'
    } else {
        '9'
    }
}

/// The decimal rendering of a non-negative integer, without sign or leading
/// zeros.
pub open spec fn dec_str(n: nat) -> Seq<char>
    decreases n,
{
    if n <= 9 {
        seq![dec_char(n as int)]
    } else {
        dec_str(n / 10).push(dec_char((n % 10) as int))
    }
}

fn dec_digit_str(d: u32) -> (r: &'static str)
    requires
        d <= 9,
    ensures
        r@ =~= seq![dec_char(d as int)],
{
    proof {
        reveal_strlit("0");
        reveal_strlit("1");
        reveal_strlit("2");
        reveal_strlit("3");
        reveal_strlit("4");
        reveal_strlit("5");
        reveal_strlit("6");
        reveal_strlit("7");
        reveal_strlit("8");
        reveal_strlit("9");
    }
    if d == 0 {
        "0"
    } else if d == 1 {
        "1"
    } else if d == 2 {
        "2"
    } else if d == 3 {
        "3"
    } else if d == 4 {
        "4"
    } else if d == 5 {
        "5"
    } else if d == 6 {
        "6"
    } else if d == 7 {
        "7"
    } else if d == 8 {
        "8"
    } else {
        "9"
    }
}

/// Renders a PID as the decimal text written into `init_pid`.
pub fn format_pid(pid: u32) -> (r: String)
    ensures
        r@ == dec_str(pid as nat),
    decreases pid,
{
    if pid <= 9 {
        String::from_str(dec_digit_str(pid))
    } else {
        let mut r = format_pid(pid / 10);
        r.append(dec_digit_str(pid % 10));
        proof {
            assert(r@ =~= dec_str((pid / 10) as nat).push(dec_char((pid % 10) as int)));
        }
        r
    }
}

proof fn lemma_dec_str_val(n: nat)
    ensures
        dec_str(n).len() >= 1,
        all_dec_digits(dec_str(n)),
        digits_val(dec_str(n)) == n,
        dec_str(n)[0] != '+',
    decreases n,
{
    if n <= 9 {
        let s = seq![dec_char(n as int)];
        assert(is_dec_digit(dec_char(n as int)));
        assert(digit_val(dec_char(n as int)) == n);
        assert(s.drop_last() =~= Seq::<char>::empty());
        assert(digits_val(Seq::<char>::empty()) == 0);
        assert(s.last() == dec_char(n as int));
        assert(digits_val(s) == digits_val(s.drop_last()) * 10 + digit_val(s.last()));
        assert(digits_val(s) == n);
    } else {
        lemma_dec_str_val(n / 10);
        let a = dec_str(n / 10);
        let c = dec_char((n % 10) as int);
        assert(dec_str(n) == a.push(c));
        assert(a.push(c).drop_last() =~= a);
        assert(a.push(c).last() == c);
        assert(is_dec_digit(c));
        assert(digit_val(c) == n % 10);
        assert(all_dec_digits(a.push(c))) by {
            assert(forall|i: int| 0 <= i < a.len() ==> a.push(c)[i] == #[trigger] a[i]);
        }
        assert(digits_val(dec_str(n)) == digits_val(a) * 10 + digit_val(c));
        lemma_fundamental_div_mod(n as int, 10);
        assert(dec_str(n)[0] == a[0]);
    }
}

/// Writing a PID and reading it back round-trips through decimal text: the
/// rendering of any 32-bit PID is a well-formed `init_pid` record denoting
/// that same PID, and the record of a live PID is a positive integer.
pub proof fn lemma_pid_round_trip(pid: u32)
    ensures
        valid_pid_text(dec_str(pid as nat)),
        pid_text_val(dec_str(pid as nat)) == pid,
        pid > 0 ==> pid_text_val(dec_str(pid as nat)) > 0,
{
    lemma_dec_str_val(pid as nat);
    assert(pid_digits(dec_str(pid as nat)) == dec_str(pid as nat));
}

/// The observed outcome of reading a small text file.
pub enum FileReadOutcome {
    /// The file exists and its contents were read.
    Content(String),
    /// The file or its directory does not exist.
    Missing,
    /// The filesystem rejected the read for any other reason.
    OtherError,
}

/// Interprets the outcome of reading a container's `init_pid` file: a
/// missing file or directory is `NotFound`, any other read failure is
/// `IOFailure`, and contents that are not a decimal integer are `Malformed`.
pub fn read_pid_result(outcome: &FileReadOutcome) -> (r: Result<u32, Error>)
    ensures
        match outcome {
            FileReadOutcome::Content(s) => match r {
                Ok(v) => valid_pid_text(s@) && v == pid_text_val(s@),
                Err(e) => e == Error::Malformed && !valid_pid_text(s@),
            },
            FileReadOutcome::Missing => r == Err::<u32, Error>(Error::NotFound),
            FileReadOutcome::OtherError => r == Err::<u32, Error>(Error::IOFailure),
        },
{
    match outcome {
        FileReadOutcome::Content(s) => parse_pid(s.as_str()),
        FileReadOutcome::Missing => Err(Error::NotFound),
        FileReadOutcome::OtherError => Err(Error::IOFailure),
    }
}

} // verus!
