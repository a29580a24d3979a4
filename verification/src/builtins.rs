//! Built-in sanitizers and validators.
//!
//! The built-ins are named in snake case: they are written inside attributes,
//! where they read like nested attributes, and cannot collide with the
//! newtypes, which are named in camel case.
pub mod bundle;
pub mod char;
pub mod clamp;
pub mod collection;
pub mod compare;
pub mod credit_card;
pub mod debug;
pub mod email;
pub mod op_assign;
pub mod op_logical;
pub mod option;
pub mod predicate;
pub mod string;
pub mod url;
