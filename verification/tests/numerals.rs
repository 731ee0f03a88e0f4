use argus::numerals::{
    camel_case, cardinal, define_numeric_system, for_numbers_p, numerical_system, AllNumbers,
    Expected, NumImpl, NumP, NumPError, NumTrait, NumericalSystem, ParseError, Token,
};

#[test]
fn tests_tell_even_from_odd() {
    let even = NumP::Even.to_lambda();
    let odd = NumP::Odd.to_lambda();
    for n in [-4, -2, 0, 2, 10] {
        assert!(even(n) && !odd(n));
    }
    for n in [-3, -1, 1, 7, i64::MAX, i64::MIN + 1] {
        assert!(odd(n) && !even(n));
    }
}

#[test]
fn only_even_and_odd_name_a_test() {
    assert_eq!(NumP::parse("even"), Ok(NumP::Even));
    assert_eq!(NumP::parse("odd"), Ok(NumP::Odd));
    for word in ["", "Even", "eve", "evenn", "odd ", "prime"] {
        assert_eq!(NumP::parse(word), Err(NumPError));
    }
    assert_eq!(NumPError.message(), "expected `even` or `odd`");
}

#[test]
fn words_run_together_in_camel_case() {
    assert_eq!(camel_case("zero"), "Zero");
    assert_eq!(camel_case("twenty-one"), "TwentyOne");
    assert_eq!(camel_case("one hundred and five"), "OneHundredAndFive");
    assert_eq!(camel_case("mIXed  CASE--words "), "MixedCaseWords");
    assert_eq!(camel_case(""), "");
    assert_eq!(camel_case(" - "), "");
    // An upper case of two letters.
    assert_eq!(camel_case("ßa"), "SSa");
}

#[test]
fn numbers_are_named_by_their_words() {
    assert_eq!(cardinal(0), "Zero");
    assert_eq!(cardinal(7), "Seven");
    assert_eq!(cardinal(12), "Twelve");
    assert_eq!(cardinal(45), "FortyFive");
    assert_eq!(cardinal(120), "OneHundredAndTwenty");
    assert_eq!(cardinal(-3), "MinusThree");
}

#[test]
fn the_system_of_one() {
    let system = define_numeric_system(1);
    assert_eq!(
        system.num_traits,
        vec![
            NumTrait::Num,
            NumTrait::IsEven,
            NumTrait::IsOdd,
            NumTrait::IsZero,
            NumTrait::NonZero,
            NumTrait::NumEq,
            NumTrait::LessOrEqual,
        ]
    );
    assert_eq!(system.struct_defs, vec![0, 1, 2]);
    assert_eq!(
        system.reflexive_impls,
        vec![
            NumImpl::Num { of: 0 },
            NumImpl::NumEq { of: 0 },
            NumImpl::IsEven { of: 0 },
            NumImpl::Num { of: 1 },
            NumImpl::NumEq { of: 1 },
            NumImpl::NonZero { of: 1 },
            NumImpl::IsOdd { of: 1 },
            NumImpl::Num { of: 2 },
            NumImpl::NumEq { of: 2 },
            NumImpl::NonZero { of: 2 },
            NumImpl::IsEven { of: 2 },
            NumImpl::IsZero,
        ]
    );
    assert_eq!(
        system.binary_impls,
        vec![
            NumImpl::LessOrEqual { of: 0, bound: 0 },
            NumImpl::Sub { lhs: 0, rhs: 0, output: 0 },
            NumImpl::Add { lhs: 0, rhs: 0, output: 0 },
            NumImpl::LessOrEqual { of: 0, bound: 1 },
            NumImpl::Sub { lhs: 1, rhs: 0, output: 1 },
            NumImpl::LessOrEqual { of: 1, bound: 1 },
            NumImpl::Sub { lhs: 1, rhs: 1, output: 0 },
            NumImpl::Add { lhs: 1, rhs: 0, output: 1 },
        ]
    );
}

#[test]
fn the_system_grows_with_the_maximum() {
    let system = numerical_system(-3, 3);
    assert_eq!(system.struct_defs, vec![0, 1, 2, 3, 4, 5, 6]);
    assert_eq!(system.reflexive_impls.len(), 3 + 4 * 6 + 1);
    // For each number up to the maximum: two impls for each number up to
    // itself, and a sum with each number below the maximum.
    assert_eq!(system.binary_impls.len(), 2 * (1 + 2 + 3 + 4) + 4 * 3);
    assert!(system.binary_impls.contains(&NumImpl::Add { lhs: 3, rhs: 2, output: 5 }));
    assert!(!system.binary_impls.contains(&NumImpl::Add { lhs: 3, rhs: 3, output: 6 }));
    assert!(system.binary_impls.contains(&NumImpl::Sub { lhs: 3, rhs: 3, output: 0 }));
    assert_eq!(*system.binary_impls.last().unwrap(), NumImpl::Add { lhs: 3, rhs: 2, output: 5 });
}

#[test]
fn the_lower_bound_is_not_looked_at() {
    let a = numerical_system(0, 2);
    let b = numerical_system(-7, 2);
    assert_eq!(a.struct_defs, b.struct_defs);
    assert_eq!(a.reflexive_impls, b.reflexive_impls);
    assert_eq!(a.binary_impls, b.binary_impls);
}

#[test]
fn the_system_of_zero_and_below() {
    let system = numerical_system(0, 0);
    assert_eq!(system.struct_defs, vec![0]);
    assert_eq!(
        system.reflexive_impls,
        vec![NumImpl::Num { of: 0 }, NumImpl::NumEq { of: 0 }, NumImpl::IsEven { of: 0 }, NumImpl::IsZero]
    );
    assert_eq!(
        system.binary_impls,
        vec![NumImpl::LessOrEqual { of: 0, bound: 0 }, NumImpl::Sub { lhs: 0, rhs: 0, output: 0 }]
    );
    let system = numerical_system(0, -2);
    assert!(system.struct_defs.is_empty());
    assert_eq!(system.reflexive_impls, vec![NumImpl::IsZero]);
    assert!(system.binary_impls.is_empty());
}

fn pairs(first: i64, firstp: NumP, second: i64, secondp: NumP) -> Vec<(i64, i64)> {
    for_numbers_p(&AllNumbers {
        macro_ident: String::from("impl_pair"),
        first,
        second,
        firstp,
        secondp,
    })
}

#[test]
fn pairs_are_listed_by_their_first_number() {
    assert_eq!(
        pairs(4, NumP::Even, 5, NumP::Odd),
        vec![(0, 1), (0, 3), (2, 1), (2, 3)]
    );
    assert_eq!(pairs(3, NumP::Odd, 3, NumP::Even), vec![(1, 0), (1, 2)]);
    assert_eq!(pairs(1, NumP::Odd, 9, NumP::Even), Vec::new());
    assert_eq!(pairs(0, NumP::Even, 9, NumP::Even), Vec::new());
    assert_eq!(pairs(-2, NumP::Even, 9, NumP::Even), Vec::new());
    assert_eq!(pairs(2, NumP::Even, -1, NumP::Even), Vec::new());
}

fn ident(word: &str) -> Token {
    Token::Ident(String::from(word))
}

fn input_of_pairs() -> Vec<Token> {
    vec![
        ident("impl_pair"),
        Token::Comma,
        Token::LitInt(4),
        Token::Comma,
        ident("even"),
        Token::Comma,
        Token::LitInt(5),
        Token::Comma,
        ident("odd"),
    ]
}

#[test]
fn the_input_of_pairs_is_read() {
    let cfg = AllNumbers::parse(&input_of_pairs()).unwrap();
    assert_eq!(cfg.macro_ident, "impl_pair");
    assert_eq!((cfg.first, cfg.firstp), (4, NumP::Even));
    assert_eq!((cfg.second, cfg.secondp), (5, NumP::Odd));
    assert_eq!(for_numbers_p(&cfg), vec![(0, 1), (0, 3), (2, 1), (2, 3)]);
}

#[test]
fn input_that_departs_from_the_pattern_is_told() {
    let expected = [
        Expected::Ident,
        Expected::Comma,
        Expected::LitInt,
        Expected::Comma,
        Expected::Parity,
        Expected::Comma,
        Expected::LitInt,
        Expected::Comma,
        Expected::Parity,
    ];
    for at in 0..9 {
        // The input ends too early.
        let mut input = input_of_pairs();
        input.truncate(at);
        assert_eq!(
            AllNumbers::parse(&input).unwrap_err(),
            ParseError { at, expected: expected[at] }
        );
        // The input goes on with something that does not fit.
        let mut input = input_of_pairs();
        input[at] = Token::Other;
        assert_eq!(
            AllNumbers::parse(&input).unwrap_err(),
            ParseError { at, expected: expected[at] }
        );
    }
    let mut input = input_of_pairs();
    input[4] = ident("prime");
    assert_eq!(
        AllNumbers::parse(&input).unwrap_err(),
        ParseError { at: 4, expected: Expected::Parity }
    );
    let mut input = input_of_pairs();
    input.push(Token::Comma);
    assert_eq!(
        AllNumbers::parse(&input).unwrap_err(),
        ParseError { at: 9, expected: Expected::End }
    );
}

#[test]
fn the_input_of_a_system_is_one_number() {
    assert_eq!(NumericalSystem::parse(&vec![Token::LitInt(3)]), Ok(NumericalSystem { max: 3 }));
    assert_eq!(
        NumericalSystem::parse(&Vec::new()),
        Err(ParseError { at: 0, expected: Expected::LitInt })
    );
    assert_eq!(
        NumericalSystem::parse(&vec![ident("three")]),
        Err(ParseError { at: 0, expected: Expected::LitInt })
    );
    assert_eq!(
        NumericalSystem::parse(&vec![Token::LitInt(3), Token::Comma]),
        Err(ParseError { at: 1, expected: Expected::End })
    );
}
