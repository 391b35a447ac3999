//! Validation and parsing of the command-line arguments: a file name, a
//! decimal size in bytes, and an optional flag that suppresses the overwrite
//! confirmation.

use vstd::arithmetic::div_mod::{lemma_fundamental_div_mod, lemma_mod_bound};
use vstd::prelude::*;

verus! {

/// A decimal digit, `'0'` through `'9'`.
pub open spec fn is_decimal_digit(c: char) -> bool {
    '0' <= c && c <= '9'
}

/// The numeric value of a decimal digit.
pub open spec fn digit_value(c: char) -> int {
    c as int - '0' as int
}

/// Every character of `s` is a decimal digit.
pub open spec fn all_digits(s: Seq<char>) -> bool {
    forall|i: int| 0 <= i < s.len() ==> is_decimal_digit(#[trigger] s[i])
}

/// `s` denotes a positive number: digits only, at least one of them nonzero.
/// The empty string and strings made of zeros alone do not qualify.
pub open spec fn numeric_positive(s: Seq<char>) -> bool {
    all_digits(s) && exists|i: int| 0 <= i < s.len() && #[trigger] s[i] != '0'
}

/// The value of `s` read as a base-10 numeral.
pub open spec fn decimal_value(s: Seq<char>) -> int
    decreases s.len(),
{
    if s.len() == 0 {
        0
    } else {
        decimal_value(s.drop_last()) * 10 + digit_value(s.last())
    }
}

/// A numeral of digits alone denotes a number that is not negative.
proof fn lemma_decimal_value_nonneg(s: Seq<char>)
    requires
        all_digits(s),
    ensures
        decimal_value(s) >= 0,
    decreases s.len(),
{
    if s.len() > 0 {
        assert forall|i: int| 0 <= i < s.drop_last().len() implies is_decimal_digit(
            #[trigger] s.drop_last()[i],
        ) by {
            assert(s.drop_last()[i] == s[i]);
        }
        lemma_decimal_value_nonneg(s.drop_last());
    }
}

/// Extending a numeral on the right never lowers its value: the value of a
/// prefix is at most the value of the whole.
proof fn lemma_decimal_value_prefix_le(s: Seq<char>, i: int)
    requires
        all_digits(s),
        0 <= i <= s.len(),
    ensures
        decimal_value(s.subrange(0, i)) <= decimal_value(s),
    decreases s.len() - i,
{
    if i == s.len() {
        assert(s.subrange(0, i) =~= s);
    } else {
        let t = s.subrange(0, i + 1);
        assert(t.drop_last() =~= s.subrange(0, i));
        assert(t.last() == s[i]);
        assert forall|j: int| 0 <= j < s.subrange(0, i).len() implies is_decimal_digit(
            #[trigger] s.subrange(0, i)[j],
        ) by {
            assert(s.subrange(0, i)[j] == s[j]);
        }
        lemma_decimal_value_nonneg(s.subrange(0, i));
        assert(decimal_value(t) == decimal_value(s.subrange(0, i)) * 10 + digit_value(s[i]));
        lemma_decimal_value_prefix_le(s, i + 1);
    }
}

/// Whether `string` is a positive decimal numeral, the shape required of the
/// size argument.
pub fn is_numeric_positive(string: &str) -> (r: bool)
    ensures
        r == numeric_positive(string@),
{
    let len = string.unicode_len();
    let mut i: usize = 0;
    let mut found_nonzero = false;
    while i < len
        invariant
            i <= len,
            len == string@.len(),
            forall|j: int| 0 <= j < i ==> is_decimal_digit(#[trigger] string@[j]),
            found_nonzero == exists|j: int| 0 <= j < i && #[trigger] string@[j] != '0',
        decreases len - i,
    {
        let c = string.get_char(i);
        if c < '0' || c > '9' {
            assert(!is_decimal_digit(string@[i as int]));
            return false;
        }
        if c != '0' {
            found_nonzero = true;
        }
        i += 1;
    }
    found_nonzero
}

/// Reads a string of decimal digits as a number. Returns `None` when the
/// string is empty, holds a character that is no digit, or denotes a value
/// too big for the machine's word.
pub fn parse_decimal(s: &str) -> (r: Option<usize>)
    ensures
        r is Some <==> s@.len() > 0 && all_digits(s@) && decimal_value(s@) <= usize::MAX,
        r is Some ==> r->0 == decimal_value(s@),
{
    let len = s.unicode_len();
    if len == 0 {
        return None;
    }
    let mut acc: usize = 0;
    let mut i: usize = 0;
    while i < len
        invariant
            0 < len,
            len == s@.len(),
            i <= len,
            forall|j: int| 0 <= j < i ==> is_decimal_digit(#[trigger] s@[j]),
            acc == decimal_value(s@.subrange(0, i as int)),
        decreases len - i,
    {
        let c = s.get_char(i);
        if c < '0' || c > '9' {
            assert(!is_decimal_digit(s@[i as int]));
            return None;
        }
        let d: usize = (c as u32 - '0' as u32) as usize;
        proof {
            let t = s@.subrange(0, i + 1);
            assert(t.drop_last() =~= s@.subrange(0, i as int));
            assert(t.last() == s@[i as int]);
            assert(decimal_value(t) == acc * 10 + d);
        }
        if acc > (usize::MAX - d) / 10 {
            proof {
                let x = (usize::MAX - d) as int;
                lemma_fundamental_div_mod(x, 10);
                lemma_mod_bound(x, 10);
                assert(acc * 10 + d > usize::MAX);
                if all_digits(s@) {
                    assert forall|j: int| 0 <= j < s@.subrange(0, i + 1).len()
                        implies is_decimal_digit(#[trigger] s@.subrange(0, i + 1)[j]) by {
                        assert(s@.subrange(0, i + 1)[j] == s@[j]);
                    }
                    lemma_decimal_value_prefix_le(s@, i + 1);
                }
            }
            return None;
        }
        proof {
            let x = (usize::MAX - d) as int;
            lemma_fundamental_div_mod(x, 10);
            lemma_mod_bound(x, 10);
            assert(acc * 10 + d <= usize::MAX);
        }
        acc = acc * 10 + d;
        i += 1;
    }
    assert(s@.subrange(0, len as int) =~= s@);
    Some(acc)
}

/// Compares two strings character by character.
pub fn str_eq(a: &str, b: &str) -> (r: bool)
    ensures
        r == (a@ == b@),
{
    let alen = a.unicode_len();
    let blen = b.unicode_len();
    if alen != blen {
        return false;
    }
    let mut i: usize = 0;
    while i < alen
        invariant
            i <= alen,
            alen == a@.len(),
            alen == b@.len(),
            forall|j: int| 0 <= j < i ==> a@[j] == b@[j],
        decreases alen - i,
    {
        if a.get_char(i) != b.get_char(i) {
            return false;
        }
        i += 1;
    }
    assert(a@ =~= b@);
    true
}

/// The reason a set of arguments was turned down.
#[derive(Clone, Copy, Debug, PartialEq, Eq)]
pub enum ArgError {
    /// The arguments do not fit `name size` or `-o name size`, or the size is
    /// not a positive decimal numeral.
    BadFormat,
    /// The size is a well-formed numeral but too big for the machine's word.
    SizeTooBig,
}

/// What a well-formed set of arguments asks for.
#[derive(Debug)]
pub struct FileConfig {
    /// Name of the file to create.
    pub name: String,
    /// Number of random bytes the file is to hold.
    pub size: usize,
    /// Overwrite an existing file without asking.
    pub overwrite: bool,
}

/// The name argument: the one after the program name, or the one after the
/// overwrite flag when four arguments are given.
pub open spec fn spec_name_arg(args: Seq<String>) -> Seq<char> {
    if args.len() == 3 {
        args[1]@
    } else {
        args[2]@
    }
}

/// The size argument: the last one.
pub open spec fn spec_size_arg(args: Seq<String>) -> Seq<char> {
    if args.len() == 3 {
        args[2]@
    } else {
        args[3]@
    }
}

/// The arguments fit the scheme `program name size` or
/// `program -o name size`, with a positive decimal size.
pub open spec fn args_well_formed(args: Seq<String>) -> bool {
    &&& (args.len() == 3 || (args.len() == 4 && args[1]@ == "-o"@))
    &&& numeric_positive(spec_size_arg(args))
}

/// Decides whether the program arguments describe a file to create, and with
/// what name, size and overwrite behaviour.
pub fn check_arguments_for_file_config(args: &Vec<String>) -> (r: Result<
    FileConfig,
    ArgError,
>)
    ensures
        r is Ok <==> args_well_formed(args@) && decimal_value(spec_size_arg(args@))
            <= usize::MAX,
        r matches Ok(conf) ==> {
            &&& conf.name@ == spec_name_arg(args@)
            &&& conf.size == decimal_value(spec_size_arg(args@))
            &&& conf.overwrite == (args@.len() == 4)
        },
        r matches Err(e) ==> (e == ArgError::SizeTooBig <==> args_well_formed(args@)),
{
    let len = args.len();
    if len != 3 && len != 4 {
        return Err(ArgError::BadFormat);
    }
    if len == 4 && !str_eq(args[1].as_str(), "-o") {
        return Err(ArgError::BadFormat);
    }
    let name = if len == 3 {
        &args[1]
    } else {
        &args[2]
    };
    let size_str = if len == 3 {
        &args[2]
    } else {
        &args[3]
    };
    if !is_numeric_positive(size_str.as_str()) {
        return Err(ArgError::BadFormat);
    }
    match parse_decimal(size_str.as_str()) {
        Some(size) => Ok(
            FileConfig { name: name.clone(), size, overwrite: len == 4 },
        ),
        None => Err(ArgError::SizeTooBig),
    }
}

} // verus!
