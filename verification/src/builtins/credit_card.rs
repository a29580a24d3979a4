//! Credit card built-ins.
use vstd::prelude::*;
use card_validate::Type;
use card_validate::Validate;
use crate::traits::Validator;

verus! {

/// Who issued a credit card.
#[derive(Clone, Copy, PartialEq, Eq, Structural, Debug)]
pub enum CreditCardIssuer {
    VisaElectron,
    Maestro,
    Forbrugsforeningen,
    Dankort,
    Visa,
    MIR,
    MasterCard,
    Amex,
    DinersClub,
    Discover,
    UnionPay,
    JCB,
}

/// The issuer of the card with this number, as `card_validate::Validate::from`
/// finds it; nothing where it rejects the number.
pub uninterp spec fn card_issuer(number: Seq<char>) -> Option<CreditCardIssuer>;

/// `card_validate::Validate::from`: the card type of a number whose format,
/// length and checksum it accepts, and nothing for a number that it rejects.
/// The outcome depends on the number alone.
#[verifier::external_body]
pub(crate) fn issuer_of(number: &str) -> (issuer: Option<CreditCardIssuer>)
    ensures
        issuer == card_issuer(number@),
{
    match Validate::from(number).map(|card| card.card_type) {
        Ok(Type::VisaElectron) => Some(CreditCardIssuer::VisaElectron),
        Ok(Type::Maestro) => Some(CreditCardIssuer::Maestro),
        Ok(Type::Forbrugsforeningen) => Some(CreditCardIssuer::Forbrugsforeningen),
        Ok(Type::Dankort) => Some(CreditCardIssuer::Dankort),
        Ok(Type::Visa) => Some(CreditCardIssuer::Visa),
        Ok(Type::MIR) => Some(CreditCardIssuer::MIR),
        Ok(Type::MasterCard) => Some(CreditCardIssuer::MasterCard),
        Ok(Type::Amex) => Some(CreditCardIssuer::Amex),
        Ok(Type::DinersClub) => Some(CreditCardIssuer::DinersClub),
        Ok(Type::Discover) => Some(CreditCardIssuer::Discover),
        Ok(Type::UnionPay) => Some(CreditCardIssuer::UnionPay),
        Ok(Type::JCB) => Some(CreditCardIssuer::JCB),
        _ => None,
    }
}

/// [`Validator`] checks if valid credit card number.
pub struct credit_card_number;

impl Validator<String> for credit_card_number {
    open spec fn usable(&self) -> bool {
        true
    }

    open spec fn accepts(&self, target: String) -> bool {
        card_issuer(target@) is Some
    }

    fn validate(&self, target: &String) -> (valid: bool) {
        issuer_of(target.as_str()).is_some()
    }
}

/// [`Validator`] checks if valid credit card number and forwards issuer to
/// inner validator.
pub struct credit_card_number_then<V>(pub V);

impl<V: Validator<CreditCardIssuer>> Validator<String> for credit_card_number_then<V> {
    open spec fn usable(&self) -> bool {
        self.0.usable()
    }

    open spec fn accepts(&self, target: String) -> bool {
        match card_issuer(target@) {
            Some(issuer) => self.0.accepts(issuer),
            None => false,
        }
    }

    fn validate(&self, target: &String) -> (valid: bool) {
        match issuer_of(target.as_str()) {
            Some(issuer) => self.0.validate(&issuer),
            None => false,
        }
    }
}

} // verus!
