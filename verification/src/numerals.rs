//! Numbers as types: what they are called, and which types and impls make
//! up a system of them.

use vstd::prelude::*;
use vstd::string::StrSliceExecFns;

verus! {

pub type Num = i64;

/// A test on numbers: for the even ones, or for the odd ones.
#[derive(Clone, Copy, Debug, PartialEq, Eq, Structural)]
pub enum NumP {
    Even,
    Odd,
}

/// A word that names no test on numbers.
#[derive(Clone, Copy, Debug, PartialEq, Eq, Structural)]
pub struct NumPError;

impl NumPError {
    pub fn message(&self) -> (m: &'static str)
        ensures
            m@ == "expected `even` or `odd`"@,
    {
        "expected `even` or `odd`"
    }
}

impl NumP {
    /// Whether the test holds of `n`.
    pub open spec fn holds(self, n: Num) -> bool {
        match self {
            NumP::Even => n % 2 == 0,
            NumP::Odd => n % 2 != 0,
        }
    }

    /// The test as a function.
    pub fn to_lambda(self) -> (test: impl Fn(Num) -> bool)
        ensures
            forall|n: Num| call_requires(test, (n,)),
            forall|n: Num, b: bool| call_ensures(test, (n,), b) ==> b == self.holds(n),
    {
        move |n: Num| -> (b: bool)
            ensures
                b == self.holds(n),
            {
                match self {
                    NumP::Even => n % 2 == 0,
                    NumP::Odd => n % 2 != 0,
                }
            }
    }

    /// The test that a word names: `even` or `odd`, and no other.
    pub fn parse(kind: &str) -> (p: Result<NumP, NumPError>)
        ensures
            kind@ == "even"@ ==> p == Ok::<NumP, NumPError>(NumP::Even),
            kind@ == "odd"@ ==> p == Ok::<NumP, NumPError>(NumP::Odd),
            kind@ != "even"@ && kind@ != "odd"@ ==> p is Err,
    {
        proof {
            reveal_strlit("even");
            reveal_strlit("odd");
            assert("even"@.len() == 4 && "odd"@.len() == 3);
        }
        if same(kind, "even") {
            Ok(NumP::Even)
        } else if same(kind, "odd") {
            Ok(NumP::Odd)
        } else {
            Err(NumPError)
        }
    }
}

/// The test that one of the words `even` and `odd` names.
fn parity_of(word: &str) -> (p: NumP)
    requires
        word@ == "even"@ || word@ == "odd"@,
    ensures
        p == (if word@ == "even"@ {
            NumP::Even
        } else {
            NumP::Odd
        }),
{
    if same(word, "even") {
        NumP::Even
    } else {
        NumP::Odd
    }
}

/// Whether two strings hold the same characters.
fn same(a: &str, b: &str) -> (eq: bool)
    ensures
        eq == (a@ == b@),
{
    let n = a.unicode_len();
    if n != b.unicode_len() {
        return false;
    }
    let mut k: usize = 0;
    while k < n
        invariant
            k <= n,
            n == a@.len(),
            n == b@.len(),
            forall|j: int| 0 <= j < k ==> a@[j] == b@[j],
        decreases n - k,
    {
        if a.get_char(k) != b.get_char(k) {
            return false;
        }
        k += 1;
    }
    assert(a@ =~= b@);
    true
}

/// The English words for a number, as `rust_numerals` writes them.
pub uninterp spec fn cardinal_words(number: Num) -> Seq<char>;

/// The upper case of a character, which may take several characters.
pub uninterp spec fn uppercase_of(c: char) -> Seq<char>;

/// The lower case of a character, which may take several characters.
pub uninterp spec fn lowercase_of(c: char) -> Seq<char>;

/// `rust_numerals::number_to_cardinal`, which writes a number out in
/// English words. It negates a negative number, so the least one is left out.
#[verifier::external_body]
fn number_to_cardinal(number: Num) -> (words: String)
    requires
        number > i64::MIN,
    ensures
        words@ == cardinal_words(number),
{
    rust_numerals::number_to_cardinal(number)
}

/// `char::to_uppercase`: the characters that the upper case of `c` takes.
#[verifier::external_body]
fn to_uppercase(c: char) -> (upper: Vec<char>)
    ensures
        upper@ == uppercase_of(c),
{
    c.to_uppercase().collect()
}

/// `char::to_lowercase`: the characters that the lower case of `c` takes.
#[verifier::external_body]
fn to_lowercase(c: char) -> (lower: Vec<char>)
    ensures
        lower@ == lowercase_of(c),
{
    c.to_lowercase().collect()
}

/// `String::from_iter` on characters: the string that holds them in order.
#[verifier::external_body]
fn string_of(chars: &Vec<char>) -> (s: String)
    ensures
        s@ == chars@,
{
    String::from_iter(chars.iter())
}

/// Whether a character parts two words.
pub open spec fn parts(c: char) -> bool {
    c == ' ' || c == '-'
}

/// The words run together, each word with its first letter in upper case
/// and the others in lower case. Words are parted by blanks and hyphens;
/// `start` says whether a word begins with the first character.
pub open spec fn camel(words: Seq<char>, start: bool) -> Seq<char>
    decreases words.len(),
{
    if words.len() == 0 {
        Seq::empty()
    } else if parts(words[0]) {
        camel(words.skip(1), true)
    } else if start {
        uppercase_of(words[0]) + camel(words.skip(1), false)
    } else {
        lowercase_of(words[0]) + camel(words.skip(1), false)
    }
}

/// The name of a type, made from the words that describe it.
pub fn camel_case(words: &str) -> (name: String)
    ensures
        name@ == camel(words@, true),
{
    let n = words.unicode_len();
    let mut out: Vec<char> = Vec::new();
    let mut start = true;
    let mut k: usize = 0;
    assert(words@.skip(0) =~= words@);
    while k < n
        invariant
            k <= n,
            n == words@.len(),
            out@ + camel(words@.skip(k as int), start) == camel(words@, true),
        decreases n - k,
    {
        let c = words.get_char(k);
        let ghost rest = words@.skip(k as int);
        proof {
            assert(rest[0] == c);
            assert(rest.skip(1) =~= words@.skip(k as int + 1));
        }
        if c == ' ' || c == '-' {
            start = true;
        } else {
            let mapped = if start {
                to_uppercase(c)
            } else {
                to_lowercase(c)
            };
            let ghost before = out@;
            let mut j: usize = 0;
            while j < mapped.len()
                invariant
                    j <= mapped@.len(),
                    out@ == before + mapped@.take(j as int),
                decreases mapped.len() - j,
            {
                out.push(mapped[j]);
                j += 1;
                assert(out@ =~= before + mapped@.take(j as int));
            }
            proof {
                assert(mapped@.take(j as int) =~= mapped@);
                assert((before + mapped@) + camel(rest.skip(1), false) =~= before + (mapped@
                    + camel(rest.skip(1), false)));
            }
            start = false;
        }
        k += 1;
    }
    assert(out@ + Seq::<char>::empty() =~= out@);
    string_of(&out)
}

/// The name of the type that stands for a number.
pub fn cardinal(i: Num) -> (name: String)
    requires
        i > i64::MIN,
    ensures
        name@ == camel(cardinal_words(i), true),
{
    let words = number_to_cardinal(i);
    camel_case(words.as_str())
}

/// A token of the input of a macro, as far as the macros here read it.
#[derive(Debug)]
pub enum Token {
    Ident(String),
    /// An integer literal, in base ten.
    LitInt(Num),
    Comma,
    /// Any other token.
    Other,
}

/// What the input of a macro was expected to go on with.
#[derive(Clone, Copy, Debug, PartialEq, Eq, Structural)]
pub enum Expected {
    Ident,
    LitInt,
    Comma,
    /// One of the words `even` and `odd`.
    Parity,
    /// Nothing more.
    End,
}

/// Input that a macro does not take: at token `at`, something else was expected.
#[derive(Clone, Copy, Debug, PartialEq, Eq, Structural)]
pub struct ParseError {
    pub at: usize,
    pub expected: Expected,
}

impl Token {
    /// Whether the token is what was expected.
    pub open spec fn fits(self, expected: Expected) -> bool {
        match expected {
            Expected::Ident => self is Ident,
            Expected::LitInt => self is LitInt,
            Expected::Comma => self is Comma,
            Expected::Parity => self matches Token::Ident(word) && (word@ == "even"@ || word@
                == "odd"@),
            Expected::End => false,
        }
    }

    /// The test that the token names, if it names one.
    pub open spec fn parity(self) -> NumP {
        if self matches Token::Ident(word) && word@ == "even"@ {
            NumP::Even
        } else {
            NumP::Odd
        }
    }
}

/// Whether the input is made of what the pattern expects, token by token,
/// and of nothing more.
pub open spec fn matches_pattern(input: Seq<Token>, pattern: Seq<Expected>) -> bool {
    &&& input.len() == pattern.len()
    &&& forall|k: int| 0 <= k < pattern.len() ==> (#[trigger] input[k]).fits(pattern[k])
}

/// Whether the input first departs from the pattern at token `at`.
pub open spec fn departs_at(input: Seq<Token>, pattern: Seq<Expected>, at: int) -> bool {
    &&& 0 <= at <= pattern.len()
    &&& at <= input.len()
    &&& forall|k: int| 0 <= k < at ==> (#[trigger] input[k]).fits(pattern[k])
    &&& if at < pattern.len() {
        at == input.len() || !input[at].fits(pattern[at])
    } else {
        at < input.len()
    }
}

/// What was expected where the input departs from the pattern.
pub open spec fn expected_at(pattern: Seq<Expected>, at: int) -> Expected {
    if 0 <= at < pattern.len() {
        pattern[at]
    } else {
        Expected::End
    }
}

/// Holds the input against the pattern: where it first departs from it, if
/// it does.
fn check_pattern(input: &Vec<Token>, pattern: &Vec<Expected>) -> (r: Result<(), ParseError>)
    ensures
        r is Ok <==> matches_pattern(input@, pattern@),
        r matches Err(e) ==> departs_at(input@, pattern@, e.at as int) && e.expected == expected_at(
            pattern@,
            e.at as int,
        ),
{
    proof {
        reveal_strlit("even");
        reveal_strlit("odd");
    }
    let mut k: usize = 0;
    while k < pattern.len()
        invariant
            k <= pattern@.len(),
            k <= input@.len(),
            forall|j: int| 0 <= j < k ==> (#[trigger] input@[j]).fits(pattern@[j]),
        decreases pattern.len() - k,
    {
        if k >= input.len() {
            return Err(ParseError { at: k, expected: pattern[k] });
        }
        let fits = match (&input[k], pattern[k]) {
            (Token::Ident(_), Expected::Ident) => true,
            (Token::LitInt(_), Expected::LitInt) => true,
            (Token::Comma, Expected::Comma) => true,
            (Token::Ident(word), Expected::Parity) => same(word.as_str(), "even") || same(
                word.as_str(),
                "odd",
            ),
            _ => false,
        };
        if !fits {
            return Err(ParseError { at: k, expected: pattern[k] });
        }
        k += 1;
    }
    if k < input.len() {
        return Err(ParseError { at: k, expected: Expected::End });
    }
    Ok(())
}

/// The input of the macro that defines a system of numbers: its maximum.
#[derive(Clone, Copy, Debug, PartialEq, Eq, Structural)]
pub struct NumericalSystem {
    pub max: Num,
}

impl NumericalSystem {
    pub open spec fn pattern() -> Seq<Expected> {
        seq![Expected::LitInt]
    }

    /// Reads the input of the macro: one integer literal.
    pub fn parse(input: &Vec<Token>) -> (r: Result<NumericalSystem, ParseError>)
        ensures
            r is Ok <==> matches_pattern(input@, Self::pattern()),
            r matches Ok(system) ==> input@[0] == Token::LitInt(system.max),
            r matches Err(e) ==> departs_at(input@, Self::pattern(), e.at as int) && e.expected
                == expected_at(Self::pattern(), e.at as int),
    {
        let mut pattern: Vec<Expected> = Vec::new();
        pattern.push(Expected::LitInt);
        assert(pattern@ =~= Self::pattern());
        match check_pattern(input, &pattern) {
            Err(e) => Err(e),
            Ok(()) => {
                assert(input@[0].fits(pattern@[0]));
                match &input[0] {
                    Token::LitInt(max) => Ok(NumericalSystem { max: *max }),
                    _ => Err(ParseError { at: 0, expected: Expected::LitInt }),
                }
            },
        }
    }
}

/// The traits that a system of numbers declares.
#[derive(Clone, Copy, Debug, PartialEq, Eq, Structural)]
pub enum NumTrait {
    Num,
    IsEven,
    IsOdd,
    IsZero,
    NonZero,
    NumEq,
    LessOrEqual,
}

/// An impl that a system of numbers holds. Numbers stand for their types.
#[derive(Clone, Copy, Debug, PartialEq, Eq, Structural)]
pub enum NumImpl {
    /// `of` is a number.
    Num { of: Num },
    /// `of` equals itself.
    NumEq { of: Num },
    NonZero { of: Num },
    IsEven { of: Num },
    IsOdd { of: Num },
    /// Zero is zero.
    IsZero,
    /// `of` is at most `bound`.
    LessOrEqual { of: Num, bound: Num },
    /// `lhs - rhs` is `output`.
    Sub { lhs: Num, rhs: Num, output: Num },
    /// `lhs + rhs` is `output`.
    Add { lhs: Num, rhs: Num, output: Num },
}

/// What a system of numbers is made of, in the order of declaration.
#[derive(Debug)]
pub struct NumericSystem {
    pub num_traits: Vec<NumTrait>,
    /// The numbers that get a type.
    pub struct_defs: Vec<Num>,
    /// What holds of each number by itself.
    pub reflexive_impls: Vec<NumImpl>,
    /// How the numbers compare, add and subtract.
    pub binary_impls: Vec<NumImpl>,
}

pub open spec fn num_traits() -> Seq<NumTrait> {
    seq![
        NumTrait::Num,
        NumTrait::IsEven,
        NumTrait::IsOdd,
        NumTrait::IsZero,
        NumTrait::NonZero,
        NumTrait::NumEq,
        NumTrait::LessOrEqual,
    ]
}

/// The numbers from zero to below `n`.
pub open spec fn numbers(n: int) -> Seq<Num> {
    Seq::new(
        if n < 0 {
            0
        } else {
            n as nat
        },
        |i: int| i as Num,
    )
}

/// What holds of number `i` by itself: it is a number, it equals itself, it
/// is not zero unless it is, and it is even or odd.
pub open spec fn reflexive_of(i: Num) -> Seq<NumImpl> {
    seq![NumImpl::Num { of: i }, NumImpl::NumEq { of: i }] + (if 0 < i {
        seq![NumImpl::NonZero { of: i }]
    } else {
        Seq::empty()
    }) + seq![
        if i % 2 == 0 {
            NumImpl::IsEven { of: i }
        } else {
            NumImpl::IsOdd { of: i }
        },
    ]
}

/// What holds by themselves of the numbers from zero to below `n`.
pub open spec fn reflexive_below(n: int) -> Seq<NumImpl>
    decreases n,
{
    if n <= 0 {
        Seq::empty()
    } else {
        reflexive_below(n - 1) + reflexive_of((n - 1) as Num)
    }
}

/// For the numbers `j` from zero to below `n`: `j` is at most `i`, and what
/// `i - j` is.
pub open spec fn differences(i: Num, n: int) -> Seq<NumImpl>
    decreases n,
{
    if n <= 0 {
        Seq::empty()
    } else {
        differences(i, n - 1) + seq![
            NumImpl::LessOrEqual { of: (n - 1) as Num, bound: i },
            NumImpl::Sub { lhs: i, rhs: (n - 1) as Num, output: (i - (n - 1)) as Num },
        ]
    }
}

/// For the numbers `j` from zero to below `n`: what `i + j` is.
pub open spec fn sums(i: Num, n: int) -> Seq<NumImpl>
    decreases n,
{
    if n <= 0 {
        Seq::empty()
    } else {
        sums(i, n - 1).push(
            NumImpl::Add { lhs: i, rhs: (n - 1) as Num, output: (i + (n - 1)) as Num },
        )
    }
}

/// How number `i` compares with, and what is left of it after taking away,
/// each number up to itself; and what it adds up to with each number below
/// `max`.
pub open spec fn binary_of(i: Num, max: Num) -> Seq<NumImpl> {
    differences(i, i + 1) + sums(i, max as int)
}

pub open spec fn binary_below(n: int, max: Num) -> Seq<NumImpl>
    decreases n,
{
    if n <= 0 {
        Seq::empty()
    } else {
        binary_below(n - 1, max) + binary_of((n - 1) as Num, max)
    }
}

/// The system of the numbers up to `max`: types for the numbers up to twice
/// `max`, and sums and differences of the numbers up to `max`. Negative
/// numbers get no type, whatever the lower bound asks for.
pub fn numerical_system(_min: Num, max: Num) -> (system: NumericSystem)
    requires
        i64::MIN <= 2 * max < i64::MAX,
    ensures
        system.num_traits@ == num_traits(),
        system.struct_defs@ == numbers(2 * max + 1),
        system.reflexive_impls@ == reflexive_below(2 * max + 1).push(NumImpl::IsZero),
        system.binary_impls@ == binary_below(max + 1, max),
{
    let min: Num = 0;
    let mut traits: Vec<NumTrait> = Vec::new();
    traits.push(NumTrait::Num);
    traits.push(NumTrait::IsEven);
    traits.push(NumTrait::IsOdd);
    traits.push(NumTrait::IsZero);
    traits.push(NumTrait::NonZero);
    traits.push(NumTrait::NumEq);
    traits.push(NumTrait::LessOrEqual);
    assert(traits@ =~= num_traits());
    let mut struct_defs: Vec<Num> = Vec::new();
    let mut reflexive_impls: Vec<NumImpl> = Vec::new();
    let mut binary_impls: Vec<NumImpl> = Vec::new();
    // A type and its own impls for every number up to twice the maximum.
    let mut i: Num = 2 * min;
    assert(struct_defs@ =~= numbers(0));
    while i <= 2 * max
        invariant
            0 <= i,
            i == 0 || i <= 2 * max + 1,
            i64::MIN <= 2 * max < i64::MAX,
            struct_defs@ == numbers(i as int),
            reflexive_impls@ == reflexive_below(i as int),
        decreases 2 * max + 1 - i,
    {
        let ghost before = reflexive_impls@;
        struct_defs.push(i);
        reflexive_impls.push(NumImpl::Num { of: i });
        reflexive_impls.push(NumImpl::NumEq { of: i });
        if 0 < i {
            reflexive_impls.push(NumImpl::NonZero { of: i });
        }
        if i % 2 == 0 {
            reflexive_impls.push(NumImpl::IsEven { of: i });
        } else {
            reflexive_impls.push(NumImpl::IsOdd { of: i });
        }
        proof {
            assert(reflexive_impls@ =~= before + reflexive_of(i));
            assert(struct_defs@ =~= numbers(i + 1));
        }
        i += 1;
    }
    proof {
        if 2 * max < 0 {
            assert(i == 0);
            assert(numbers(2 * max + 1) =~= numbers(0));
            assert(reflexive_below(2 * max + 1) =~= reflexive_below(0));
        }
    }
    // Sums and differences for every number up to the maximum.
    let mut i: Num = min;
    while i <= max
        invariant
            min == 0,
            0 <= i,
            i == 0 || i <= max + 1,
            i64::MIN <= 2 * max < i64::MAX,
            binary_impls@ == binary_below(i as int, max),
        decreases max + 1 - i,
    {
        let ghost before = binary_impls@;
        let mut j: Num = 0;
        assert(binary_impls@ =~= before + differences(i, 0));
        while j <= i
            invariant
                0 <= j <= i + 1,
                0 <= i <= max,
                i64::MIN <= 2 * max < i64::MAX,
                binary_impls@ == before + differences(i, j as int),
            decreases i + 1 - j,
        {
            binary_impls.push(NumImpl::LessOrEqual { of: j, bound: i });
            binary_impls.push(NumImpl::Sub { lhs: i, rhs: j, output: i - j });
            proof {
                assert(binary_impls@ =~= before + differences(i, j + 1));
            }
            j += 1;
        }
        let ghost halfway = binary_impls@;
        let mut j: Num = min;
        assert(binary_impls@ =~= halfway + sums(i, 0));
        while j < max
            invariant
                0 <= j <= max,
                0 <= i <= max,
                i64::MIN <= 2 * max < i64::MAX,
                binary_impls@ == halfway + sums(i, j as int),
            decreases max - j,
        {
            binary_impls.push(NumImpl::Add { lhs: i, rhs: j, output: j + i });
            proof {
                assert(binary_impls@ =~= halfway + sums(i, j + 1));
            }
            j += 1;
        }
        proof {
            assert(binary_impls@ =~= before + binary_of(i, max));
        }
        i += 1;
    }
    proof {
        if max < 0 {
            assert(i == 0);
            assert(binary_below(max + 1, max) =~= binary_below(0, max));
        }
    }
    reflexive_impls.push(NumImpl::IsZero);
    NumericSystem { num_traits: traits, struct_defs, reflexive_impls, binary_impls }
}

/// The system of the numbers up to `max`, which has to be positive.
pub fn define_numeric_system(max: Num) -> (system: NumericSystem)
    requires
        0 < max,
        2 * max < i64::MAX,
    ensures
        system.num_traits@ == num_traits(),
        system.struct_defs@ == numbers(2 * max + 1),
        system.reflexive_impls@ == reflexive_below(2 * max + 1).push(NumImpl::IsZero),
        system.binary_impls@ == binary_below(max + 1, max),
{
    numerical_system(-max, max)
}

/// For which pairs of numbers a macro is to be called.
#[derive(Debug)]
pub struct AllNumbers {
    /// The name of the macro.
    pub macro_ident: String,
    /// The bound below which the first numbers lie.
    pub first: Num,
    /// The bound below which the second numbers lie.
    pub second: Num,
    /// The test that the first numbers pass.
    pub firstp: NumP,
    /// The test that the second numbers pass.
    pub secondp: NumP,
}

impl AllNumbers {
    pub open spec fn pattern() -> Seq<Expected> {
        seq![
            Expected::Ident,
            Expected::Comma,
            Expected::LitInt,
            Expected::Comma,
            Expected::Parity,
            Expected::Comma,
            Expected::LitInt,
            Expected::Comma,
            Expected::Parity,
        ]
    }

    /// Whether this is what the input says: the name of a macro, then twice
    /// a bound and a test, all parted by commas.
    pub open spec fn read_from(self, input: Seq<Token>) -> bool {
        &&& input[0] matches Token::Ident(name) && self.macro_ident@ == name@
        &&& input[2] == Token::LitInt(self.first)
        &&& input[4].parity() == self.firstp
        &&& input[6] == Token::LitInt(self.second)
        &&& input[8].parity() == self.secondp
    }

    /// Reads the input of the macro that calls another macro for pairs
    /// of numbers.
    pub fn parse(input: &Vec<Token>) -> (r: Result<AllNumbers, ParseError>)
        ensures
            r is Ok <==> matches_pattern(input@, Self::pattern()),
            r matches Ok(cfg) ==> cfg.read_from(input@),
            r matches Err(e) ==> departs_at(input@, Self::pattern(), e.at as int) && e.expected
                == expected_at(Self::pattern(), e.at as int),
    {
        let mut pattern: Vec<Expected> = Vec::new();
        pattern.push(Expected::Ident);
        pattern.push(Expected::Comma);
        pattern.push(Expected::LitInt);
        pattern.push(Expected::Comma);
        pattern.push(Expected::Parity);
        pattern.push(Expected::Comma);
        pattern.push(Expected::LitInt);
        pattern.push(Expected::Comma);
        pattern.push(Expected::Parity);
        assert(pattern@ =~= Self::pattern());
        match check_pattern(input, &pattern) {
            Err(e) => Err(e),
            Ok(()) => {
                proof {
                    reveal_strlit("even");
                    reveal_strlit("odd");
                    assert("even"@.len() == 4 && "odd"@.len() == 3);
                    assert(input@[0].fits(pattern@[0]));
                    assert(input@[2].fits(pattern@[2]));
                    assert(input@[4].fits(pattern@[4]));
                    assert(input@[6].fits(pattern@[6]));
                    assert(input@[8].fits(pattern@[8]));
                }
                match (&input[0], &input[2], &input[4], &input[6], &input[8]) {
                    (
                        Token::Ident(name),
                        Token::LitInt(first),
                        Token::Ident(firstp),
                        Token::LitInt(second),
                        Token::Ident(secondp),
                    ) => Ok(
                        AllNumbers {
                            macro_ident: name.clone(),
                            first: *first,
                            second: *second,
                            firstp: parity_of(firstp.as_str()),
                            secondp: parity_of(secondp.as_str()),
                        },
                    ),
                    _ => Err(ParseError { at: 0, expected: Expected::Ident }),
                }
            },
        }
    }
}

/// The pairs of `i` with each number from zero to below `n` that passes `p`.
pub open spec fn pairs_with(i: Num, n: int, p: NumP) -> Seq<(Num, Num)>
    decreases n,
{
    if n <= 0 {
        Seq::empty()
    } else if p.holds((n - 1) as Num) {
        pairs_with(i, n - 1, p).push((i, (n - 1) as Num))
    } else {
        pairs_with(i, n - 1, p)
    }
}

/// The pairs of a number from zero to below `n` that passes `firstp` with a
/// number from zero to below `second` that passes `secondp`: the first
/// numbers in rising order, and for each of them the second ones.
pub open spec fn pairs_below(n: int, second: Num, firstp: NumP, secondp: NumP) -> Seq<(Num, Num)>
    decreases n,
{
    if n <= 0 {
        Seq::empty()
    } else if firstp.holds((n - 1) as Num) {
        pairs_below(n - 1, second, firstp, secondp) + pairs_with(
            (n - 1) as Num,
            second as int,
            secondp,
        )
    } else {
        pairs_below(n - 1, second, firstp, secondp)
    }
}

/// The pairs of numbers for which the macro is to be called, in order.
pub fn for_numbers_p(cfg: &AllNumbers) -> (invocations: Vec<(Num, Num)>)
    ensures
        invocations@ == pairs_below(cfg.first as int, cfg.second, cfg.firstp, cfg.secondp),
{
    let mut invocations: Vec<(Num, Num)> = Vec::new();
    let i_p = cfg.firstp.to_lambda();
    let j_p = cfg.secondp.to_lambda();
    let mut i: Num = 0;
    while i < cfg.first
        invariant
            0 <= i,
            i == 0 || i <= cfg.first,
            forall|n: Num| call_requires(i_p, (n,)),
            forall|n: Num, b: bool| call_ensures(i_p, (n,), b) ==> b == cfg.firstp.holds(n),
            forall|n: Num| call_requires(j_p, (n,)),
            forall|n: Num, b: bool| call_ensures(j_p, (n,), b) ==> b == cfg.secondp.holds(n),
            invocations@ == pairs_below(i as int, cfg.second, cfg.firstp, cfg.secondp),
        decreases cfg.first - i,
    {
        if i_p(i) {
            let ghost before = invocations@;
            let mut j: Num = 0;
            assert(invocations@ =~= before + pairs_with(i, 0, cfg.secondp));
            while j < cfg.second
                invariant
                    0 <= j,
                    j == 0 || j <= cfg.second,
                    forall|n: Num| call_requires(j_p, (n,)),
                    forall|n: Num, b: bool|
                        call_ensures(j_p, (n,), b) ==> b == cfg.secondp.holds(n),
                    invocations@ == before + pairs_with(i, j as int, cfg.secondp),
                decreases cfg.second - j,
            {
                if j_p(j) {
                    invocations.push((i, j));
                }
                proof {
                    assert(invocations@ =~= before + pairs_with(i, j + 1, cfg.secondp));
                }
                j += 1;
            }
            proof {
                if cfg.second < 0 {
                    assert(j == 0);
                    assert(pairs_with(i, cfg.second as int, cfg.secondp) =~= pairs_with(
                        i,
                        0,
                        cfg.secondp,
                    ));
                }
            }
        }
        i += 1;
    }
    proof {
        if cfg.first < 0 {
            assert(i == 0);
            assert(pairs_below(cfg.first as int, cfg.second, cfg.firstp, cfg.secondp)
                =~= pairs_below(0, cfg.second, cfg.firstp, cfg.secondp));
        }
    }
    invocations
}

} // verus!
