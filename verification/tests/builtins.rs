use seventy::builtins::char::alphabetic as alphabetic_char;
use seventy::builtins::char::alphanumeric as alphanumeric_char;
use seventy::builtins::char::ascii as ascii_char;
use seventy::builtins::char::lowercase as lowercase_char;
use seventy::builtins::char::uppercase as uppercase_char;
use seventy::builtins::clamp::clamp;
use seventy::builtins::clamp::clamp_max;
use seventy::builtins::clamp::clamp_min;
use seventy::builtins::collection::among;
use seventy::builtins::collection::length as collection_length;
use seventy::builtins::collection::sort;
use seventy::builtins::compare::eq;
use seventy::builtins::compare::ge;
use seventy::builtins::compare::gt;
use seventy::builtins::compare::le;
use seventy::builtins::compare::lt;
use seventy::builtins::compare::ne;
use seventy::builtins::compare::within;
use seventy::builtins::credit_card::credit_card_number;
use seventy::builtins::credit_card::credit_card_number_then;
use seventy::builtins::credit_card::CreditCardIssuer;
use seventy::builtins::debug::invalid;
use seventy::builtins::email::email;
use seventy::builtins::op_assign::assign;
use seventy::builtins::op_logical::either;
use seventy::builtins::op_logical::not;
use seventy::builtins::option::some;
use seventy::builtins::option::some_then;
use seventy::builtins::option::unwrap_then;
use seventy::builtins::predicate::satisfies;
use seventy::builtins::predicate::satisfies_then;
use seventy::builtins::string::alphabetic;
use seventy::builtins::string::alphanumeric;
use seventy::builtins::string::ascii;
use seventy::builtins::string::every_char_is;
use seventy::builtins::string::has_match;
use seventy::builtins::string::is_in;
use seventy::builtins::string::length;
use seventy::builtins::string::lowercase;
use seventy::builtins::string::not_empty;
use seventy::builtins::string::regex;
use seventy::builtins::string::trim;
use seventy::builtins::string::trim_left;
use seventy::builtins::string::trim_right;
use seventy::builtins::string::try_regex;
use seventy::builtins::string::uppercase;
use seventy::builtins::string::CharClass;
use seventy::builtins::url::url;
use seventy::traits::Sanitizer;
use seventy::traits::Validator;

fn sanitized<T, S: Sanitizer<T>>(sanitizer: &S, target: T) -> T {
    let mut target = target;
    sanitizer.sanitize(&mut target);
    target
}

fn text(value: &str) -> String {
    value.to_string()
}

#[test]
fn char_validators() {
    assert!(alphabetic_char.validate(&'c'));
    assert!(!alphabetic_char.validate(&'0'));
    assert!(alphanumeric_char.validate(&'0'));
    assert!(alphanumeric_char.validate(&'c'));
    assert!(!alphanumeric_char.validate(&'$'));
    assert!(ascii_char.validate(&'$'));
    assert!(ascii_char.validate(&'\u{7f}'));
    assert!(!ascii_char.validate(&'\u{80}'));
    assert!(!ascii_char.validate(&'\u{7070}'));
    assert!(lowercase_char.validate(&'c'));
    assert!(!lowercase_char.validate(&'X'));
    assert!(uppercase_char.validate(&'C'));
    assert!(!uppercase_char.validate(&'x'));
}

#[test]
fn clamp_restricts_to_both_bounds() {
    let movement = clamp { min: -10, max: 10 };
    assert_eq!(sanitized(&movement, -20), -10);
    assert_eq!(sanitized(&movement, -10), -10);
    assert_eq!(sanitized(&movement, 0), 0);
    assert_eq!(sanitized(&movement, 10), 10);
    assert_eq!(sanitized(&movement, 20), 10);
}

#[test]
fn clamp_with_crossed_bounds_applies_the_lower_first() {
    let crossed = clamp { min: 10, max: 0 };
    assert_eq!(sanitized(&crossed, 5), 0);
    assert_eq!(sanitized(&crossed, 20), 0);
    assert_eq!(sanitized(&crossed, -5), 0);
}

#[test]
fn clamp_min_and_max_restrict_one_side() {
    assert_eq!(sanitized(&clamp_min(0), -1), 0);
    assert_eq!(sanitized(&clamp_min(0), 0), 0);
    assert_eq!(sanitized(&clamp_min(0), 1), 1);
    assert_eq!(sanitized(&clamp_max(100u8), 101), 100);
    assert_eq!(sanitized(&clamp_max(100u8), 100), 100);
    assert_eq!(sanitized(&clamp_max(100u8), 70), 70);
}

#[test]
fn among_checks_membership() {
    let spf = among([8u8, 15, 30, 40, 50, 100]);
    assert!(spf.validate(&50));
    assert!(spf.validate(&8));
    assert!(spf.validate(&100));
    assert!(!spf.validate(&55));
    let nothing: among<[u8; 0]> = among([]);
    assert!(!nothing.validate(&0));
}

#[test]
fn sort_orders_vectors_and_arrays() {
    assert_eq!(sanitized(&sort, vec!['b', 'c', 'a']), vec!['a', 'b', 'c']);
    assert_eq!(sanitized(&sort, vec![3, 1, 2, 1]), vec![1, 1, 2, 3]);
    assert_eq!(sanitized(&sort, [3, 1, 2]), [1, 2, 3]);
    assert_eq!(sanitized(&sort, Vec::<u8>::new()), Vec::<u8>::new());
}

#[test]
fn collection_length_forwards_the_length() {
    let at_most_five = collection_length(le(5usize));
    assert!(at_most_five.validate(&vec!['a', 'b', 'c', 'd', 'e']));
    assert!(!at_most_five.validate(&vec!['a', 'b', 'c', 'd', 'e', 'f']));
    assert!(at_most_five.validate(&['a', 'b']));
    assert!(!at_most_five.validate(&[0u8; 6]));
}

#[test]
fn comparisons() {
    assert!(lt(100).validate(&99));
    assert!(!lt(100).validate(&100));
    assert!(!lt(100).validate(&101));
    assert!(le(70).validate(&68));
    assert!(le(70).validate(&70));
    assert!(!le(70).validate(&71));
    assert!(gt(0).validate(&5));
    assert!(!gt(0).validate(&0));
    assert!(!gt(0).validate(&-5));
    assert!(ge(13u8).validate(&70));
    assert!(ge(13u8).validate(&13));
    assert!(!ge(13u8).validate(&11));
    assert!(eq(70u8).validate(&70));
    assert!(!eq(70u8).validate(&60));
    assert!(ne(0u32).validate(&70));
    assert!(!ne(0u32).validate(&0));
}

#[test]
fn within_checks_both_ends() {
    let loan = within(5000u32..=100000);
    assert!(!loan.validate(&70));
    assert!(loan.validate(&5000));
    assert!(loan.validate(&70000));
    assert!(loan.validate(&100000));
    assert!(!loan.validate(&100070));
    let half_open = within(1..10);
    assert!(!half_open.validate(&0));
    assert!(half_open.validate(&1));
    assert!(half_open.validate(&9));
    assert!(!half_open.validate(&10));
}

#[test]
fn credit_card_numbers() {
    let mastercard = text("5265187007972395");
    let amex = text("377947337532813");
    let invalid_number = text("7070707070707070");
    assert!(credit_card_number.validate(&mastercard));
    assert!(credit_card_number.validate(&amex));
    assert!(!credit_card_number.validate(&invalid_number));
    assert!(!credit_card_number.validate(&text("")));
    assert!(!credit_card_number.validate(&text("5265 1870 0797 2395")));
    assert!(!credit_card_number.validate(&text("5265187007972396")));

    let accepted = credit_card_number_then(among([
        CreditCardIssuer::Amex,
        CreditCardIssuer::Discover,
    ]));
    assert!(accepted.validate(&amex));
    assert!(!accepted.validate(&mastercard));
    assert!(!accepted.validate(&invalid_number));

    assert!(credit_card_number_then(eq(CreditCardIssuer::MasterCard)).validate(&mastercard));
    assert!(credit_card_number_then(eq(CreditCardIssuer::Visa)).validate(&text("4111111111111111")));
}

#[test]
fn invalid_rejects_everything() {
    assert!(!invalid.validate(&0));
    assert!(!invalid.validate(&text("anything")));
    assert!(!invalid.validate(&()));
}

#[test]
fn email_addresses() {
    assert!(email.validate(&text("seventy70@example.com")));
    assert!(!email.validate(&text("seventy70@@example.com")));
    assert!(email.validate(&text("a@b.com")));
    assert!(!email.validate(&text("not-an-email")));
    assert!(!email.validate(&text("")));
}

#[test]
fn assign_overwrites() {
    assert_eq!(sanitized(&assign(5), 3), 5);
    assert_eq!(sanitized(&assign(text("five")), text("three")), "five");
}

#[test]
fn logical_operators() {
    assert!(not(alphabetic_char).validate(&'0'));
    assert!(!not(alphabetic_char).validate(&'x'));
    let one_or_two = either(eq(1), eq(2));
    assert!(one_or_two.validate(&1));
    assert!(one_or_two.validate(&2));
    assert!(!one_or_two.validate(&3));
}

#[test]
fn option_validators() {
    assert!(some.validate(&Some(text("Seventy is a cool crate."))));
    assert!(!some.validate(&None::<String>));

    assert_eq!(
        sanitized(&some_then(trim), Some(text("   John   "))),
        Some(text("John"))
    );
    assert_eq!(sanitized(&some_then(trim), None), None);
    assert!(some_then(alphabetic).validate(&Some(text("John"))));
    assert!(some_then(alphabetic).validate(&None));
    assert!(!some_then(alphabetic).validate(&Some(text("J0hn"))));

    let feedback = unwrap_then(within(1u8..=10));
    assert!(feedback.validate(&Some(7)));
    assert!(!feedback.validate(&Some(11)));
    assert!(!feedback.validate(&None));
}

#[test]
fn predicates() {
    assert!(satisfies(char::is_ascii_digit).validate(&'0'));
    assert!(!satisfies(char::is_ascii_digit).validate(&'X'));

    let spaced = satisfies_then(char::is_ascii_whitespace, assign(' '));
    assert_eq!(sanitized(&spaced, 'c'), 'c');
    assert_eq!(sanitized(&spaced, ' '), ' ');
    assert_eq!(sanitized(&spaced, '\n'), ' ');

    let upper_ascii = satisfies_then(char::is_ascii_alphabetic, uppercase_char);
    assert!(upper_ascii.validate(&'A'));
    assert!('\u{0180}'.is_lowercase());
    assert!(upper_ascii.validate(&'\u{0180}'));
    assert!(!upper_ascii.validate(&'a'));
}

#[test]
fn trims() {
    assert_eq!(sanitized(&trim, text("   username   ")), "username");
    assert_eq!(sanitized(&trim_left, text("   username   ")), "username   ");
    assert_eq!(sanitized(&trim_right, text("   username   ")), "   username");
    assert_eq!(sanitized(&trim, text("\t\n user name \u{2003}")), "user name");
    assert_eq!(sanitized(&trim, text("   ")), "");
    assert_eq!(sanitized(&trim, text("")), "");
    assert_eq!(sanitized(&trim, text("username")), "username");
}

#[test]
fn case_sanitizers() {
    assert_eq!(
        sanitized(&lowercase, text("What is the SeVeNTy crate?!")),
        "what is the seventy crate?!"
    );
    assert_eq!(sanitized(&uppercase, text("70sV-Nty70")), "70SV-NTY70");
    assert_eq!(sanitized(&uppercase, text("stra\u{df}e")), "STRASSE");
}

#[test]
fn string_validators() {
    assert!(alphabetic.validate(&text("Michael")));
    assert!(!alphabetic.validate(&text("Mich4el")));
    assert!(alphabetic.validate(&text("")));
    assert!(alphanumeric.validate(&text("Seventy70")));
    assert!(alphanumeric.validate(&text("70")));
    assert!(!alphanumeric.validate(&text("Seventy#70!")));
    assert!(ascii.validate(&text("Seventy#70!")));
    assert!(!ascii.validate(&text("Seventy\u{7070}#70!")));
    assert!(lowercase.validate(&text("whisper")));
    assert!(!lowercase.validate(&text("Whisper")));
    assert!(uppercase.validate(&text("SHOUT")));
    assert!(!uppercase.validate(&text("Shout")));
    assert!(not_empty.validate(&text("Hello, World!")));
    assert!(!not_empty.validate(&text("")));
}

#[test]
fn every_char_is_checks_each_character() {
    assert!(every_char_is(CharClass::Alphabetic, "abc"));
    assert!(!every_char_is(CharClass::Alphabetic, "ab1"));
    assert!(!every_char_is(CharClass::Alphabetic, "1ab"));
    assert!(every_char_is(CharClass::Alphanumeric, "ab1"));
    assert!(every_char_is(CharClass::Lowercase, ""));
    assert!(!every_char_is(CharClass::Uppercase, "ABc"));
    assert!(is_in(CharClass::Uppercase, 'A'));
    assert!(!is_in(CharClass::Lowercase, 'A'));
}

#[test]
fn string_length_counts_bytes_or_chars() {
    let text_box = length::chars(le(15usize));
    assert!(text_box.validate(&text("Hello, World!")));
    assert!(!text_box.validate(&text("Hello, World! I am hungry.")));
    let word = text("stra\u{df}e");
    assert!(length::chars(eq(6usize)).validate(&word));
    assert!(length::bytes(eq(7usize)).validate(&word));
    assert!(!length::bytes(eq(6usize)).validate(&word));
}

#[test]
fn regex_matches_anywhere() {
    let company = regex(r"^[A-Z]([a-zA-Z0-9]|[- @\.#&!])*$");
    assert!(company.validate(&text("Seven Tea Inc.")));
    assert!(!company.validate(&text("Seven \u{1F375} Inc.")));
    let digits = regex("[0-9]+");
    assert!(digits.validate(&text("room 70")));
    assert!(!digits.validate(&text("room")));
}

#[test]
fn try_regex_refuses_what_does_not_compile() {
    assert!(try_regex("foo(bar").is_none());
    let word = try_regex("^foo$").unwrap();
    assert!(word.validate(&text("foo")));
    assert!(!word.validate(&text("food")));
}

#[test]
fn has_match_reads_the_outcome_of_a_search() {
    assert!(has_match(Some(true)));
    assert!(!has_match(Some(false)));
    assert!(!has_match(None));
}

#[test]
fn urls() {
    assert!(url.validate(&text("https://github.com/michaelni678/seventy")));
    assert!(!url.validate(&text("http://[:::1]")));
    assert!(!url.validate(&text("not a url")));
}

#[test]
fn bundles_run_in_order() {
    assert_eq!(sanitized(&(), 5), 5);
    assert_eq!(sanitized(&(assign(1), clamp_min(3)), 7), 3);
    assert_eq!(sanitized(&(clamp_min(3), assign(1)), 7), 1);
    assert_eq!(sanitized(&(((), trim), uppercase), text("  abc ")), "ABC");
    assert!(().validate(&5));
    assert!((gt(1), lt(5)).validate(&3));
    assert!(!(gt(1), lt(5)).validate(&5));
    assert!(!(gt(1), lt(5)).validate(&1));
    assert!(!(((), invalid), gt(1)).validate(&3));
}

#[test]
fn vectors_of_steps_run_in_order() {
    let steps: Vec<Box<dyn Sanitizer<String>>> =
        vec![Box::new(trim), Box::new(uppercase), Box::new(assign(text("  set  ")))];
    assert_eq!(sanitized(&steps, text("  abc ")), "  set  ");
    let steps: Vec<Box<dyn Sanitizer<String>>> =
        vec![Box::new(assign(text("  set  "))), Box::new(trim), Box::new(uppercase)];
    assert_eq!(sanitized(&steps, text("  abc ")), "SET");
    assert_eq!(sanitized(&Vec::<trim>::new(), text("  abc ")), "  abc ");
    assert_eq!(sanitized(&vec![clamp_min(3), clamp_min(5), clamp_min(4)], 1), 5);

    let checks: Vec<Box<dyn Validator<String>>> = vec![
        Box::new(alphanumeric),
        Box::new(length::chars(within(5usize..=20))),
        Box::new(not(uppercase)),
    ];
    assert!(checks.validate(&text("username")));
    assert!(!checks.validate(&text("user")));
    assert!(!checks.validate(&text("u$ername")));
    assert!(!checks.validate(&text("USERNAME")));
    assert!(Vec::<invalid>::new().validate(&0));
    assert!(!vec![invalid].validate(&0));
}

#[test]
fn clamp_and_comparisons_take_floats() {
    let movement = clamp { min: -1.0f32, max: 1.0 };
    assert_eq!(sanitized(&movement, -2.0), -1.0);
    assert_eq!(sanitized(&movement, -1.0), -1.0);
    assert_eq!(sanitized(&movement, 0.0), 0.0);
    assert_eq!(sanitized(&movement, 1.0), 1.0);
    assert_eq!(sanitized(&movement, 2.0), 1.0);
    assert_eq!(sanitized(&clamp_min(0.0f32), -1.0), 0.0);
    assert_eq!(sanitized(&clamp_min(0.0f32), 1.0), 1.0);

    assert!(lt(100.0f32).validate(&99.9));
    assert!(!lt(100.0f32).validate(&100.0));
    assert!(!lt(100.0f32).validate(&100.1));
    assert!(le(70.0f32).validate(&68.3));
    assert!(le(70.0f32).validate(&70.0));
    assert!(!le(70.0f32).validate(&70.9));
    assert!(!lt(1.0f64).validate(&f64::NAN));
    assert!(!ge(1.0f64).validate(&f64::NAN));
}
