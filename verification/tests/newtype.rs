use std::ops::RangeInclusive;

use seventy::builtins::collection::sort;
use seventy::builtins::compare::ge;
use seventy::builtins::compare::within;
use seventy::builtins::email::email;
use seventy::builtins::string::alphanumeric;
use seventy::builtins::string::length;
use seventy::builtins::string::trim;
use seventy::builtins::string::uppercase;
use seventy::refined::Plain;
use seventy::refined::Recipe;
use seventy::refined::Refined;
use seventy::traits::bypass_round_trip;
use seventy::traits::Bypassable;
use seventy::traits::Newtype;
use seventy::traits::Sanitizable;
use seventy::traits::Validatable;

struct UsernameRecipe;

impl Recipe for UsernameRecipe {
    type Inner = String;
    type Sanitizers = trim;
    type Validators = (alphanumeric, length<within<RangeInclusive<usize>>>);

    fn sanitizers() -> Self::Sanitizers {
        trim
    }

    fn validators() -> Self::Validators {
        (alphanumeric, length::chars(within(5..=20)))
    }
}

type Username = Refined<UsernameRecipe>;

struct ShoutRecipe;

impl Recipe for ShoutRecipe {
    type Inner = String;
    type Sanitizers = uppercase;
    type Validators = uppercase;

    fn sanitizers() -> Self::Sanitizers {
        uppercase
    }

    fn validators() -> Self::Validators {
        uppercase
    }
}

struct LongRecipe;

impl Recipe for LongRecipe {
    type Inner = String;
    type Sanitizers = trim;
    type Validators = length<ge<usize>>;

    fn sanitizers() -> Self::Sanitizers {
        trim
    }

    fn validators() -> Self::Validators {
        length::chars(ge(10))
    }
}

struct SortedRecipe;

impl Recipe for SortedRecipe {
    type Inner = Vec<i32>;
    type Sanitizers = sort;
    type Validators = ();

    fn sanitizers() -> Self::Sanitizers {
        sort
    }

    fn validators() -> Self::Validators {}
}

struct EmailRecipe;

impl Recipe for EmailRecipe {
    type Inner = String;
    type Sanitizers = trim;
    type Validators = email;

    fn sanitizers() -> Self::Sanitizers {
        trim
    }

    fn validators() -> Self::Validators {
        email
    }
}

#[test]
fn validation_sees_the_sanitized_value() {
    let shout = Refined::<ShoutRecipe>::try_new("shout".to_string()).unwrap();
    assert_eq!(shout.into_inner(), "SHOUT");
    assert!(Refined::<ShoutRecipe>::unsanitized_new("shout".to_string()).is_err());
}

#[test]
fn rejection_returns_the_sanitized_value() {
    assert_eq!(
        Refined::<LongRecipe>::try_new("  ab  ".to_string()).err(),
        Some("ab".to_string())
    );
    assert_eq!(
        Refined::<LongRecipe>::try_new("  abcdefghij  ".to_string())
            .unwrap()
            .into_inner(),
        "abcdefghij"
    );
}

#[test]
fn unchecked_new_round_trips() {
    let raw = "   not a username!   ".to_string();
    assert_eq!(Username::unchecked_new(raw.clone()).into_inner(), raw);
    assert_eq!(bypass_round_trip::<Username>(raw.clone()), raw);
    assert_eq!(bypass_round_trip::<Refined<SortedRecipe>>(vec![3, 1, 2]), vec![3, 1, 2]);
    assert_eq!(bypass_round_trip::<Refined<Plain<u8>>>(70), 70);
}

#[test]
fn sorted_collection_example() {
    let sorted = Refined::<SortedRecipe>::try_new(vec![3, 1, 2]).unwrap();
    assert_eq!(sorted.borrow_inner(), &vec![1, 2, 3]);
    assert_eq!(sorted.into_inner(), vec![1, 2, 3]);
}

#[test]
fn email_example() {
    assert_eq!(
        Refined::<EmailRecipe>::try_new("  a@b.com  ".to_string())
            .unwrap()
            .into_inner(),
        "a@b.com"
    );
    assert_eq!(
        Refined::<EmailRecipe>::try_new("not-an-email".to_string()).err(),
        Some("not-an-email".to_string())
    );
}

#[test]
fn username_example() {
    assert!(Username::try_new("   u$ername   ".to_string()).is_err());
    assert!(Username::try_new("u$ername".to_string()).is_err());
    assert!(Username::try_new("   user   ".to_string()).is_err());
    assert!(Username::try_new("user".to_string()).is_err());
    assert_eq!(
        Username::try_new("   username   ".to_string()).unwrap().into_inner(),
        "username"
    );
    assert_eq!(
        Username::try_new("username".to_string()).unwrap().into_inner(),
        "username"
    );
}

#[test]
fn bypasses_skip_what_they_say() {
    let username = Username::unchecked_new("   username!   ".to_string());
    assert_eq!(username.borrow_inner(), "   username!   ");

    let username = Username::unsanitized_new("username".to_string()).unwrap();
    assert_eq!(username.borrow_inner(), "username");
    assert_eq!(
        Username::unsanitized_new("   username   ".to_string()).err(),
        Some("   username   ".to_string())
    );

    let username = Username::unvalidated_new("   username!   ".to_string());
    assert_eq!(username.borrow_inner(), "username!");
}

#[test]
fn borrow_inner_mut_reaches_the_wrapped_value() {
    let mut username = Username::try_new("username".to_string()).unwrap();
    assert!(Username::validate(username.borrow_inner()));

    username.borrow_inner_mut().push_str("\u{00BF}");

    assert_eq!(username.borrow_inner(), "username\u{00BF}");
    assert!(!Username::validate(username.borrow_inner()));
}

#[test]
fn sanitize_and_validate_run_one_pipeline_each() {
    let mut name = "  name  ".to_string();
    Username::sanitize(&mut name);
    assert_eq!(name, "name");
    assert!(!Username::validate(&name));
    assert!(Username::validate(&"username".to_string()));
    assert!(!Username::validate(&"  username  ".to_string()));
}

#[test]
fn plain_recipe_changes_and_rejects_nothing() {
    let value = Refined::<Plain<String>>::try_new("  as it is  ".to_string()).unwrap();
    assert_eq!(value.into_inner(), "  as it is  ");
    assert!(Refined::<Plain<i32>>::validate(&-1));
}
