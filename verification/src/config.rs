//! Configuration.
//!
//! Resolves a raw argument list into either a request to show the version or
//! the help text, or a [`ConversionRequest`]: the input files, the optional
//! output base name, the keep-original flag and the quality. Validation is a
//! single pass that happens before any item is dispatched; every way it can
//! fail is a [`ConfigError`] variant, and the contract of [`parse_args`]
//! says exactly which arguments produce which.
//!
//! Flags are recognized anywhere in the list. The output and quality flags
//! consume the argument after them; the remaining arguments are the input
//! files. The quality is an integer between 1 and 100, with 75 the default.

use vstd::prelude::*;

verus! {

/// A configuration failure; fatal to the whole run, nothing is processed.
#[derive(Clone, Copy, Debug, PartialEq, Eq)]
pub enum ConfigError {
    /// The argument list was empty.
    NoArguments,
    /// The output flag was last, with no name after it.
    MissingOutputName,
    /// The quality flag was last, with no value after it.
    MissingQualityValue,
    /// The quality value was not an unsigned decimal number.
    QualityNotANumber,
    /// The quality value was a number outside 1 ..= 100.
    QualityOutOfRange,
    /// An input file's derived output path would be the input itself, so
    /// converting it would overwrite and then possibly delete the source.
    /// Refused before any item is dispatched.
    OutputCollidesWithSource,
}

/// The resolved configuration of one batch; immutable once constructed.
#[derive(Clone, Debug, PartialEq, Eq)]
pub struct ConversionRequest {
    /// The input files, in the order given.
    pub files: Vec<String>,
    /// The base name for output files, when one was given.
    pub output_base_name: Option<String>,
    /// Whether the source files are kept after conversion.
    pub keep_original: bool,
    /// The encoding quality, validated to lie in 1 ..= 100.
    pub quality: u8,
}

impl ConversionRequest {
    /// The quality was validated.
    pub open spec fn wf(&self) -> bool {
        1 <= self.quality <= 100
    }
}

/// What the argument list asks for.
#[derive(Clone, Debug, PartialEq, Eq)]
pub enum Command {
    /// Print the version and stop.
    ShowVersion,
    /// Print the help text and stop.
    ShowHelp,
    /// Convert the given files.
    Run(ConversionRequest),
}

/// Whether one argument is the given flag, in its short or long form.
pub open spec fn is_match(a: Seq<char>, short: Seq<char>, long: Seq<char>) -> bool {
    a == short || a == long
}

/// The first index of the given flag in the argument list, or `-1`.
pub open spec fn find_flag(args: Seq<String>, short: Seq<char>, long: Seq<char>) -> int
    decreases args.len(),
{
    if args.len() == 0 {
        -1
    } else if is_match(args[0]@, short, long) {
        0
    } else if find_flag(args.drop_first(), short, long) == -1 {
        -1
    } else {
        1 + find_flag(args.drop_first(), short, long)
    }
}

/// Whether the argument list holds the given flag anywhere.
pub open spec fn has_flag(args: Seq<String>, short: Seq<char>, long: Seq<char>) -> bool {
    find_flag(args, short, long) >= 0
}

/// A keep-original flag.
pub open spec fn is_keep_flag(a: Seq<char>) -> bool {
    is_match(a, "-k"@, "--keep-original"@)
}

/// The argument list with every keep-original flag removed.
pub open spec fn non_keep(args: Seq<String>) -> Seq<String> {
    args.filter(|s: String| !is_keep_flag(s@))
}

proof fn lemma_find_flag_at(args: Seq<String>, short: Seq<char>, long: Seq<char>, i: int)
    requires
        0 <= i <= args.len(),
        forall|j: int| 0 <= j < i ==> !is_match(args[j]@, short, long),
        i < args.len() ==> is_match(args[i]@, short, long),
    ensures
        i < args.len() ==> find_flag(args, short, long) == i,
        i == args.len() ==> find_flag(args, short, long) == -1,
    decreases i,
{
    if i > 0 {
        let rest = args.drop_first();
        assert(forall|j: int| 0 <= j < rest.len() ==> rest[j] == args[j + 1]);
        lemma_find_flag_at(rest, short, long, i - 1);
    }
}

fn arg_is(a: &String, lit: &str) -> (r: bool)
    ensures
        r == (a@ == lit@),
{
    let s = String::from_str(lit);
    *a == s
}

fn find_flag_pos(args: &Vec<String>, short: &str, long: &str) -> (r: Option<usize>)
    ensures
        match r {
            Option::Some(p) => p < args@.len() && find_flag(args@, short@, long@) == p,
            Option::None => find_flag(args@, short@, long@) == -1,
        },
{
    let n = args.len();
    let mut i: usize = 0;
    while i < n
        invariant
            i <= n,
            n == args@.len(),
            forall|j: int| 0 <= j < i ==> !is_match(args@[j]@, short@, long@),
        decreases n - i,
    {
        if arg_is(&args[i], short) || arg_is(&args[i], long) {
            proof {
                lemma_find_flag_at(args@, short@, long@, i as int);
            }
            return Some(i);
        }
        i = i + 1;
    }
    proof {
        lemma_find_flag_at(args@, short@, long@, args@.len() as int);
    }
    None
}

fn remove_keep_flags(args: Vec<String>) -> (r: Vec<String>)
    ensures
        r@ == non_keep(args@),
{
    let n = args.len();
    let mut r: Vec<String> = Vec::new();
    let ghost orig = args@;
    proof {
        reveal(Seq::filter);
        assert(orig.subrange(0, 0) =~= Seq::<String>::empty());
        assert(r@ == non_keep(orig.subrange(0, 0)));
    }
    let mut i: usize = 0;
    while i < n
        invariant
            i <= n,
            n == args@.len(),
            args@ == orig,
            r@ == non_keep(orig.subrange(0, i as int)),
        decreases n - i,
    {
        let keep_it = !(arg_is(&args[i], "-k") || arg_is(&args[i], "--keep-original"));
        proof {
            reveal(Seq::filter);
            assert(orig.subrange(0, i + 1).drop_last() =~= orig.subrange(0, i as int));
            assert(orig.subrange(0, i + 1).last() == orig[i as int]);
        }
        if keep_it {
            r.push(args[i].clone());
        }
        i = i + 1;
    }
    proof {
        assert(orig.subrange(0, n as int) =~= orig);
    }
    r
}

/// A decimal digit.
pub open spec fn is_digit(c: char) -> bool {
    48 <= c as u32 <= 57
}

/// The value of one decimal digit.
pub open spec fn digit_val(c: char) -> nat {
    (c as u32 - 48) as nat
}

/// Every character is a decimal digit.
pub open spec fn all_digits(s: Seq<char>) -> bool {
    forall|i: int| 0 <= i < s.len() ==> is_digit(#[trigger] s[i])
}

/// A non-empty string of decimal digits.
pub open spec fn is_dec_number(s: Seq<char>) -> bool {
    s.len() > 0 && all_digits(s)
}

/// The number a digit string denotes.
pub open spec fn dec_value_of(s: Seq<char>) -> nat
    decreases s.len(),
{
    if s.len() == 0 {
        0
    } else {
        dec_value_of(s.drop_last()) * 10 + digit_val(s.last())
    }
}

spec fn pow10(n: nat) -> nat
    decreases n,
{
    if n == 0 {
        1
    } else {
        10 * pow10((n - 1) as nat)
    }
}

proof fn lemma_dec_value_upper(s: Seq<char>)
    requires
        all_digits(s),
    ensures
        dec_value_of(s) < pow10(s.len()),
    decreases s.len(),
{
    if s.len() > 0 {
        assert(forall|i: int| 0 <= i < s.drop_last().len() ==> s.drop_last()[i] == s[i]);
        lemma_dec_value_upper(s.drop_last());
        assert(is_digit(s.last()));
        assert(digit_val(s.last()) <= 9);
    }
}

proof fn lemma_dec_value_lower(s: Seq<char>)
    requires
        all_digits(s),
        s.len() >= 1,
        s[0] as u32 != 48,
    ensures
        dec_value_of(s) >= pow10((s.len() - 1) as nat),
    decreases s.len(),
{
    if s.len() == 1 {
        assert(s.last() == s[0]);
        assert(is_digit(s[0]));
        assert(digit_val(s[0]) >= 1);
    } else {
        let t = s.drop_last();
        assert(forall|i: int| 0 <= i < t.len() ==> t[i] == s[i]);
        lemma_dec_value_lower(t);
    }
}

proof fn lemma_dec_value_skip_zeros(s: Seq<char>, z: int)
    requires
        0 <= z <= s.len(),
        forall|j: int| 0 <= j < z ==> (#[trigger] s[j]) as u32 == 48,
    ensures
        dec_value_of(s) == dec_value_of(s.subrange(z, s.len() as int)),
    decreases s.len(),
{
    if z == 0 {
        assert(s.subrange(0, s.len() as int) =~= s);
    } else if z == s.len() {
        let t = s.drop_last();
        assert(forall|j: int| 0 <= j < t.len() ==> t[j] == s[j]);
        lemma_dec_value_skip_zeros(t, z - 1);
        assert(t.subrange(z - 1, t.len() as int) =~= Seq::<char>::empty());
        assert(s.subrange(z, s.len() as int) =~= Seq::<char>::empty());
        assert(s.last() as u32 == 48);
        assert(digit_val(s.last()) == 0);
    } else {
        let t = s.drop_last();
        assert(forall|j: int| 0 <= j < t.len() ==> t[j] == s[j]);
        lemma_dec_value_skip_zeros(t, z);
        let sub = s.subrange(z, s.len() as int);
        assert(sub.len() > 0);
        assert(sub.drop_last() =~= t.subrange(z, t.len() as int));
        assert(sub.last() == s.last());
    }
}

fn parse_quality(s: &String) -> (r: Result<u8, ConfigError>)
    ensures
        !is_dec_number(s@) ==> r == Err::<u8, ConfigError>(ConfigError::QualityNotANumber),
        is_dec_number(s@) && !(1 <= dec_value_of(s@) <= 100) ==> r == Err::<u8, ConfigError>(
            ConfigError::QualityOutOfRange,
        ),
        is_dec_number(s@) && 1 <= dec_value_of(s@) <= 100 ==> r == Ok::<u8, ConfigError>(
            dec_value_of(s@) as u8,
        ),
{
    let st = s.as_str();
    let n = st.unicode_len();
    if n == 0 {
        return Err(ConfigError::QualityNotANumber);
    }
    let mut i: usize = 0;
    while i < n
        invariant
            i <= n,
            n == st@.len(),
            st@ == s@,
            forall|j: int| 0 <= j < i ==> is_digit(#[trigger] st@[j]),
        decreases n - i,
    {
        let c = st.get_char(i);
        let u = c as u32;
        if u < 48 || u > 57 {
            proof {
                assert(!all_digits(st@)) by {
                    assert(!is_digit(st@[i as int]));
                }
            }
            return Err(ConfigError::QualityNotANumber);
        }
        i = i + 1;
    }
    let mut z: usize = 0;
    while z < n && st.get_char(z) as u32 == 48
        invariant
            z <= n,
            n == st@.len(),
            st@ == s@,
            all_digits(st@),
            forall|j: int| 0 <= j < z ==> (#[trigger] st@[j]) as u32 == 48,
        decreases n - z,
    {
        z = z + 1;
    }
    proof {
        lemma_dec_value_skip_zeros(st@, z as int);
    }
    if n - z > 3 {
        proof {
            let sub = st@.subrange(z as int, n as int);
            assert(forall|j: int| 0 <= j < sub.len() ==> sub[j] == st@[j + z]);
            lemma_dec_value_lower(sub);
            reveal_with_fuel(pow10, 5);
            assert(pow10(3) == 1000);
            lemma_pow10_mono(3, (sub.len() - 1) as nat);
        }
        return Err(ConfigError::QualityOutOfRange);
    }
    let mut val: u32 = 0;
    let mut i2: usize = z;
    while i2 < n
        invariant
            z <= i2 <= n,
            n == st@.len(),
            st@ == s@,
            n - z <= 3,
            all_digits(st@),
            val == dec_value_of(st@.subrange(z as int, i2 as int)),
            dec_value_of(st@) == dec_value_of(st@.subrange(z as int, n as int)),
        decreases n - i2,
    {
        let c = st.get_char(i2);
        let d = (c as u32) - 48;
        proof {
            let pre = st@.subrange(z as int, i2 as int);
            assert(forall|j: int| 0 <= j < pre.len() ==> pre[j] == st@[j + z]);
            lemma_dec_value_upper(pre);
            reveal_with_fuel(pow10, 5);
            assert(pow10(3) == 1000);
            let nxt = st@.subrange(z as int, i2 + 1);
            assert(nxt.drop_last() =~= pre);
            assert(nxt.last() == st@[i2 as int]);
        }
        val = val * 10 + d;
        i2 = i2 + 1;
    }
    proof {
        assert(st@.subrange(z as int, n as int) == st@.subrange(z as int, st@.len() as int));
    }
    if val < 1 || val > 100 {
        return Err(ConfigError::QualityOutOfRange);
    }
    Ok(val as u8)
}

proof fn lemma_pow10_mono(a: nat, b: nat)
    requires
        a <= b,
    ensures
        pow10(a) <= pow10(b),
    decreases b,
{
    if a < b {
        lemma_pow10_mono(a, (b - 1) as nat);
    }
}

/// Everything [`parse_args`] decides, stage by stage, as the source list is
/// whittled down: an empty list is refused; a version or help flag anywhere
/// wins; then the output flag and its name are taken out, then every
/// keep-original flag, then the quality flag and its validated value; what
/// remains is the input file list.
pub open spec fn post_parse_args(args: Seq<String>, r: Result<Command, ConfigError>) -> bool {
    if args.len() == 0 {
        r == Err::<Command, ConfigError>(ConfigError::NoArguments)
    } else if has_flag(args, "-v"@, "--version"@) {
        r == Ok::<Command, ConfigError>(Command::ShowVersion)
    } else if has_flag(args, "-h"@, "--help"@) {
        r == Ok::<Command, ConfigError>(Command::ShowHelp)
    } else {
        let p = find_flag(args, "-o"@, "--output"@);
        if p >= 0 && p + 1 >= args.len() {
            r == Err::<Command, ConfigError>(ConfigError::MissingOutputName)
        } else {
            let base: Option<Seq<char>> = if p >= 0 {
                Option::Some(args[p + 1]@)
            } else {
                Option::None
            };
            let args1 = if p >= 0 {
                args.remove(p + 1).remove(p)
            } else {
                args
            };
            let keep = has_flag(args1, "-k"@, "--keep-original"@);
            let args2 = non_keep(args1);
            let q = find_flag(args2, "-q"@, "--quality"@);
            if q >= 0 && q + 1 >= args2.len() {
                r == Err::<Command, ConfigError>(ConfigError::MissingQualityValue)
            } else if q >= 0 && !is_dec_number(args2[q + 1]@) {
                r == Err::<Command, ConfigError>(ConfigError::QualityNotANumber)
            } else if q >= 0 && !(1 <= dec_value_of(args2[q + 1]@) <= 100) {
                r == Err::<Command, ConfigError>(ConfigError::QualityOutOfRange)
            } else {
                let quality: int = if q >= 0 {
                    dec_value_of(args2[q + 1]@) as int
                } else {
                    75
                };
                let files = if q >= 0 {
                    args2.remove(q + 1).remove(q)
                } else {
                    args2
                };
                r matches Ok(Command::Run(req)) && req.files@ == files
                    && crate::naming::base_view(req.output_base_name) == base
                    && req.keep_original == keep && req.quality == quality
            }
        }
    }
}

/// Resolves the argument list (the program name already stripped) into a
/// command, or the configuration error that aborts the run. The whole
/// decision is pinned down by [`post_parse_args`]; a run request always
/// carries a validated quality.
pub fn parse_args(args: Vec<String>) -> (r: Result<Command, ConfigError>)
    ensures
        post_parse_args(args@, r),
        r matches Ok(Command::Run(req)) ==> req.wf(),
{
    if args.len() == 0 {
        return Err(ConfigError::NoArguments);
    }
    if find_flag_pos(&args, "-v", "--version").is_some() {
        return Ok(Command::ShowVersion);
    }
    if find_flag_pos(&args, "-h", "--help").is_some() {
        return Ok(Command::ShowHelp);
    }
    let mut args = args;
    let output: Option<String>;
    match find_flag_pos(&args, "-o", "--output") {
        Option::Some(p) => {
            if p + 1 >= args.len() {
                return Err(ConfigError::MissingOutputName);
            }
            let val = args.remove(p + 1);
            args.remove(p);
            output = Some(val);
        },
        Option::None => {
            output = None;
        },
    }
    let keep_original = find_flag_pos(&args, "-k", "--keep-original").is_some();
    let mut args = remove_keep_flags(args);
    let quality: u8;
    match find_flag_pos(&args, "-q", "--quality") {
        Option::Some(q) => {
            if q + 1 >= args.len() {
                return Err(ConfigError::MissingQualityValue);
            }
            quality = match parse_quality(&args[q + 1]) {
                Ok(v) => v,
                Err(e) => {
                    return Err(e);
                },
            };
            args.remove(q + 1);
            args.remove(q);
        },
        Option::None => {
            quality = 75;
        },
    }
    Ok(
        Command::Run(
            ConversionRequest {
                files: args,
                output_base_name: output,
                keep_original,
                quality,
            },
        ),
    )
}

} // verus!
