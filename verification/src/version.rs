//! Protocol versions, written `major.minor`.

use vstd::pervasive::unreached;
use vstd::prelude::*;
use vstd::string::*;

verus! {

/// The oldest and the newest protocol version that a session can speak.
pub const SUPPORTED_PROTOCOL_VERSIONS: (&'static str, &'static str) = ("0.14", "0.14");

/// Why a text is no version.
#[derive(Debug, Clone, Copy, PartialEq, Eq, Structural)]
pub enum VersionError {
    /// It is not two parts around one dot.
    Format,
    /// The part before the dot is no number.
    Major,
    /// The part behind the dot is no number.
    Minor,
}

pub open spec fn is_digit(c: char) -> bool {
    '0' <= c <= '9'
}

/// The number that a digit stands for.
pub open spec fn digit_value(c: char) -> nat {
    (c as int - '0' as int) as nat
}

/// The number that a row of digits stands for.
pub open spec fn decimal_value(s: Seq<char>) -> nat
    decreases s.len(),
{
    if s.len() == 0 {
        0
    } else {
        10 * decimal_value(s.drop_last()) + digit_value(s.last())
    }
}

/// The number that a row of nothing but digits stands for, where a `u32` can hold it.
pub open spec fn digits_number(s: Seq<char>) -> Option<u32> {
    if s.len() > 0 && (forall|i: int| 0 <= i < s.len() ==> is_digit(#[trigger] s[i]))
        && decimal_value(s) <= u32::MAX {
        Some(decimal_value(s) as u32)
    } else {
        None
    }
}

/// The number that `s` writes: digits, with or without a plus sign before them.
pub open spec fn number_of(s: Seq<char>) -> Option<u32> {
    if s.len() > 0 && s[0] == '+' {
        digits_number(s.skip(1))
    } else {
        digits_number(s)
    }
}

/// Whether the only dot of `s` stands at `i`.
pub open spec fn only_dot(s: Seq<char>, i: int) -> bool {
    &&& 0 <= i < s.len()
    &&& s[i] == '.'
    &&& forall|j: int| 0 <= j < s.len() && j != i ==> s[j] != '.'
}

/// The version that `s` writes, or why it writes none.
pub open spec fn version_of(s: Seq<char>) -> Result<(u32, u32), VersionError> {
    if exists|i: int| only_dot(s, i) {
        let dot = choose|i: int| only_dot(s, i);
        match (number_of(s.take(dot)), number_of(s.skip(dot + 1))) {
            (None, _) => Err(VersionError::Major),
            (_, None) => Err(VersionError::Minor),
            (Some(major), Some(minor)) => Ok((major, minor)),
        }
    } else {
        Err(VersionError::Format)
    }
}

/// Whether version `a` is older than version `b`.
pub open spec fn older(a: (u32, u32), b: (u32, u32)) -> bool {
    a.0 < b.0 || (a.0 == b.0 && a.1 < b.1)
}

/// Whether a session can speak version `v`.
pub open spec fn supported(v: (u32, u32)) -> bool {
    &&& !older(v, version_of(SUPPORTED_PROTOCOL_VERSIONS.0@)->Ok_0)
    &&& !older(version_of(SUPPORTED_PROTOCOL_VERSIONS.1@)->Ok_0, v)
}

proof fn lemma_only_dot_unique(s: Seq<char>, i: int)
    requires
        only_dot(s, i),
    ensures
        version_of(s) == match (number_of(s.take(i)), number_of(s.skip(i + 1))) {
            (None, _) => Err::<(u32, u32), VersionError>(VersionError::Major),
            (_, None) => Err(VersionError::Minor),
            (Some(major), Some(minor)) => Ok((major, minor)),
        },
{
    let dot = choose|i: int| only_dot(s, i);
    assert(dot == i);
}

proof fn lemma_decimal_value_grows(s: Seq<char>, n: int)
    requires
        0 <= n <= s.len(),
    ensures
        decimal_value(s.take(n)) <= decimal_value(s),
    decreases s.len(),
{
    if n == s.len() {
        assert(s.take(n) =~= s);
    } else {
        lemma_decimal_value_grows(s.drop_last(), n);
        assert(s.drop_last().take(n) =~= s.take(n));
    }
}

/// A version is written with digits, plus signs and a dot alone.
pub proof fn lemma_version_characters(s: Seq<char>, i: int)
    requires
        version_of(s) is Ok,
        0 <= i < s.len(),
    ensures
        is_digit(s[i]) || s[i] == '.' || s[i] == '+',
{
    let dot = choose|i: int| only_dot(s, i);
    let (part, at) = if i < dot {
        (s.take(dot), i)
    } else {
        (s.skip(dot + 1), i - dot - 1)
    };
    if i != dot {
        assert(part[at] == s[i]);
        if part[0] == '+' {
            if at > 0 {
                assert(part.skip(1)[at - 1] == part[at]);
            }
        }
    }
}

/// The characters of `s`.
fn chars_of(s: &str) -> (res: Vec<char>)
    ensures
        res@ == s@,
{
    let mut res: Vec<char> = Vec::new();
    for c in it: s.chars()
        invariant
            res@ =~= s@.take(it.index() as int),
            it.seq() == s@,
    {
        res.push(c);
    }
    assert(s@.take(s@.len() as int) =~= s@);
    res
}

/// The number that the digits from `from` up to `to` stand for.
fn parse_digits(chars: &Vec<char>, from: usize, to: usize) -> (res: Option<u32>)
    requires
        from <= to <= chars@.len(),
    ensures
        res == digits_number(chars@.subrange(from as int, to as int)),
{
    let ghost digits = chars@.subrange(from as int, to as int);
    if from == to {
        return None;
    }
    let mut value: u64 = 0;
    let mut i: usize = from;
    assert(digits.take(0) =~= Seq::<char>::empty());
    while i < to
        invariant
            from <= i <= to <= chars@.len(),
            digits == chars@.subrange(from as int, to as int),
            value == decimal_value(digits.take(i - from)),
            value <= u32::MAX,
            forall|j: int| 0 <= j < i - from ==> is_digit(#[trigger] digits[j]),
        decreases to - i,
    {
        let c: char = chars[i];
        let ghost k = i - from;
        assert(digits[k] == c);
        if c < '0' || '9' < c {
            assert(!is_digit(digits[k]));
            return None;
        }
        proof {
            assert(digits.take(k + 1).drop_last() =~= digits.take(k));
            assert(digits.take(k + 1).last() == c);
            lemma_decimal_value_grows(digits, k + 1);
        }
        value = value * 10 + (c as u64 - '0' as u64);
        if value > u32::MAX as u64 {
            return None;
        }
        i += 1;
    }
    assert(digits.take(digits.len() as int) =~= digits);
    Some(value as u32)
}

/// The number that the characters from `from` up to `to` write.
fn parse_number(chars: &Vec<char>, from: usize, to: usize) -> (res: Option<u32>)
    requires
        from <= to <= chars@.len(),
    ensures
        res == number_of(chars@.subrange(from as int, to as int)),
{
    if from < to && chars[from] == '+' {
        assert(chars@.subrange(from as int, to as int).skip(1) =~= chars@.subrange(
            from + 1,
            to as int,
        ));
        parse_digits(chars, from + 1, to)
    } else {
        parse_digits(chars, from, to)
    }
}

/// Reads a version, or says why `s` is none.
pub fn try_parse_version(s: &str) -> (res: Result<(u32, u32), VersionError>)
    ensures
        res == version_of(s@),
{
    let chars = chars_of(s);
    let mut dot: usize = 0;
    while dot < chars.len() && chars[dot] != '.'
        invariant
            dot <= chars@.len(),
            forall|j: int| 0 <= j < dot ==> chars@[j] != '.',
        decreases chars@.len() - dot,
    {
        dot += 1;
    }
    if dot == chars.len() {
        return Err(VersionError::Format);
    }
    let mut i: usize = dot + 1;
    while i < chars.len()
        invariant
            dot < i <= chars@.len(),
            chars@ == s@,
            chars@[dot as int] == '.',
            forall|j: int| 0 <= j < i && j != dot ==> chars@[j] != '.',
        decreases chars@.len() - i,
    {
        if chars[i] == '.' {
            assert(forall|k: int| !only_dot(s@, k));
            return Err(VersionError::Format);
        }
        i += 1;
    }
    proof {
        lemma_only_dot_unique(s@, dot as int);
        assert(s@.take(dot as int) =~= chars@.subrange(0, dot as int));
        assert(s@.skip(dot + 1) =~= chars@.subrange(dot + 1, chars@.len() as int));
    }
    match parse_number(&chars, 0, dot) {
        None => Err(VersionError::Major),
        Some(major) => match parse_number(&chars, dot + 1, chars.len()) {
            None => Err(VersionError::Minor),
            Some(minor) => Ok((major, minor)),
        },
    }
}

/// Reads a version that is known to be one.
pub fn parse_version(s: &str) -> (version: (u32, u32))
    requires
        version_of(s@) is Ok,
    ensures
        version_of(s@) == Ok::<(u32, u32), VersionError>(version),
{
    match try_parse_version(s) {
        Ok(version) => version,
        Err(_) => unreached(),
    }
}

/// Whether version `a` is older than version `b`.
pub fn is_older(a: (u32, u32), b: (u32, u32)) -> (res: bool)
    ensures
        res == older(a, b),
{
    a.0 < b.0 || (a.0 == b.0 && a.1 < b.1)
}

impl VersionError {
    /// What `message` says of `version`.
    pub open spec fn text(self, version: Seq<char>) -> Seq<char> {
        match self {
            VersionError::Format => "invalid version string '"@ + version
                + "': expected 'major.minor' format"@,
            VersionError::Major => "invalid major version in '"@ + version + "'"@,
            VersionError::Minor => "invalid minor version in '"@ + version + "'"@,
        }
    }

    /// Says what is wrong with `version`.
    pub fn message(&self, version: &str) -> (res: String)
        ensures
            res@ == self.text(version@),
    {
        match self {
            VersionError::Format => "invalid version string '".to_owned().concat(version).concat(
                "': expected 'major.minor' format",
            ),
            VersionError::Major => "invalid major version in '".to_owned().concat(version).concat(
                "'",
            ),
            VersionError::Minor => "invalid minor version in '".to_owned().concat(version).concat(
                "'",
            ),
        }
    }
}

/// The digits that write `n`.
pub open spec fn decimal(n: nat) -> Seq<char>
    decreases n,
{
    let digit = ('0' as u32 + n % 10) as char;
    if n < 10 {
        seq![digit]
    } else {
        decimal(n / 10).push(digit)
    }
}

/// How version `v` is written.
pub open spec fn version_text(v: (u32, u32)) -> Seq<char> {
    decimal(v.0 as nat) + "."@ + decimal(v.1 as nat)
}

proof fn lemma_decimal(n: nat)
    ensures
        decimal(n).len() > 0,
        forall|i: int| 0 <= i < decimal(n).len() ==> is_digit(#[trigger] decimal(n)[i]),
        decimal_value(decimal(n)) == n,
    decreases n,
{
    let digit = ('0' as u32 + n % 10) as char;
    assert(digit_value(digit) == n % 10);
    if n < 10 {
        assert(decimal(n).drop_last() =~= Seq::<char>::empty());
        reveal_with_fuel(decimal_value, 2);
    } else {
        lemma_decimal(n / 10);
        assert(decimal(n).drop_last() =~= decimal(n / 10));
    }
}

/// Every version has a text, and reading that text gives the version back.
pub proof fn law_version_text_reads_back(v: (u32, u32))
    ensures
        version_of(version_text(v)) == Ok::<(u32, u32), VersionError>(v),
{
    let major = decimal(v.0 as nat);
    let minor = decimal(v.1 as nat);
    lemma_decimal(v.0 as nat);
    lemma_decimal(v.1 as nat);
    reveal_strlit(".");
    let s = version_text(v);
    let dot = major.len() as int;
    assert(s.take(dot) =~= major);
    assert(s.skip(dot + 1) =~= minor);
    assert forall|j: int| 0 <= j < s.len() && j != dot implies s[j] != '.' by {
        if j < dot {
            assert(is_digit(major[j]));
        } else {
            assert(is_digit(minor[j - dot - 1]));
        }
    }
    lemma_only_dot_unique(s, dot);
    assert(is_digit(major[0]));
    assert(is_digit(minor[0]));
}

/// Both ends of the range of protocol versions are versions, and the range holds
/// `0.14` and nothing else.
pub proof fn law_supported_range()
    ensures
        version_of(SUPPORTED_PROTOCOL_VERSIONS.0@) == Ok::<(u32, u32), VersionError>((0, 14)),
        version_of(SUPPORTED_PROTOCOL_VERSIONS.1@) == Ok::<(u32, u32), VersionError>((0, 14)),
        forall|v: (u32, u32)| supported(v) <==> v == (0u32, 14u32),
{
    reveal_strlit("0.14");
    reveal_strlit(".");
    reveal_with_fuel(decimal, 3);
    assert(version_text((0, 14)) =~= "0.14"@);
    law_version_text_reads_back((0, 14));
}

/// The digits are those from `0` to `9`, and no other character is one. A digit behind a row
/// of digits makes ten times their number and its own.
pub proof fn law_digits(s: Seq<char>, c: char)
    ensures
        is_digit(c) <==> 48 <= c as int <= 57,
        decimal_value(Seq::empty()) == 0,
        is_digit(c) ==> decimal_value(s.push(c)) == 10 * decimal_value(s) + (c as int - 48),
{
    assert(s.push(c).drop_last() =~= s);
}

/// A row of digits writes its number where 32 bits can hold that, and else none. A plus sign
/// before it changes nothing.
pub proof fn law_digits_write_their_number(s: Seq<char>)
    requires
        s.len() > 0,
        forall|i: int| 0 <= i < s.len() ==> 48 <= (#[trigger] s[i]) as int <= 57,
    ensures
        decimal_value(s) <= 0xffff_ffff ==> number_of(s) is Some && number_of(s)->0
            == decimal_value(s),
        decimal_value(s) > 0xffff_ffff ==> number_of(s) is None,
        number_of(seq!['+'] + s) == number_of(s),
{
    assert((seq!['+'] + s).skip(1) =~= s);
    assert(is_digit(s[0]));
}

/// A text that holds anything but digits, other than a plus sign at its start, writes no
/// number; nor does one without any digit.
pub proof fn law_other_characters_write_no_number(s: Seq<char>, i: int)
    requires
        s.len() == 0 || s == seq!['+'] || (0 <= i < s.len() && !(48 <= s[i] as int <= 57) && !(i
            == 0 && s[0] == '+')),
    ensures
        number_of(s) is None,
{
    if s.len() > 0 && s != seq!['+'] {
        assert(!is_digit(s[i]));
        if s[0] == '+' {
            assert(s.skip(1)[i - 1] == s[i]);
        }
    }
}

/// A version is two numbers with a dot between them, the major one first. Where the part
/// before the dot is no number that is what is wrong, and else the part behind it.
pub proof fn law_version_is_two_numbers(major: Seq<char>, minor: Seq<char>)
    requires
        !major.contains('.'),
        !minor.contains('.'),
    ensures
        match (number_of(major), number_of(minor)) {
            (Some(a), Some(b)) => version_of(major + seq!['.'] + minor) == Ok::<
                (u32, u32),
                VersionError,
            >((a, b)),
            (None, _) => version_of(major + seq!['.'] + minor) == Err::<(u32, u32), VersionError>(
                VersionError::Major,
            ),
            (Some(_), None) => version_of(major + seq!['.'] + minor) == Err::<
                (u32, u32),
                VersionError,
            >(VersionError::Minor),
        },
{
    let s = major + seq!['.'] + minor;
    let dot = major.len() as int;
    assert(s.take(dot) =~= major);
    assert(s.skip(dot + 1) =~= minor);
    assert forall|j: int| 0 <= j < s.len() && j != dot implies s[j] != '.' by {
        if j < dot {
            assert(major.contains(major[j]));
        } else {
            assert(minor.contains(minor[j - dot - 1]));
        }
    }
    lemma_only_dot_unique(s, dot);
}

/// A text without a dot, or with two, is no version whatever else it holds.
pub proof fn law_version_has_one_dot(s: Seq<char>, i: int, j: int)
    requires
        !s.contains('.') || (0 <= i < j < s.len() && s[i] == '.' && s[j] == '.'),
    ensures
        version_of(s) == Err::<(u32, u32), VersionError>(VersionError::Format),
{
    assert forall|k: int| !only_dot(s, k) by {
        if only_dot(s, k) {
            assert(s.contains(s[k]));
        }
    }
}

/// Versions stand in one order: the major number decides, and between equal ones the minor.
/// Of two different versions exactly one is older.
pub proof fn law_versions_are_ordered(a: (u32, u32), b: (u32, u32), c: (u32, u32))
    ensures
        a.0 < b.0 ==> older(a, b),
        a.0 == b.0 ==> (older(a, b) <==> a.1 < b.1),
        older(a, b) || older(b, a) <==> a != b,
        !(older(a, b) && older(b, a)),
        older(a, b) && older(b, c) ==> older(a, c),
{
}

/// What is wrong with a version is said of that very version.
pub proof fn law_version_messages(version: Seq<char>)
    ensures
        VersionError::Format.text(version) == "invalid version string '"@ + version
            + "': expected 'major.minor' format"@,
        VersionError::Major.text(version) == "invalid major version in '"@ + version + "'"@,
        VersionError::Minor.text(version) == "invalid minor version in '"@ + version + "'"@,
{
}

} // verus!
