use vstd::prelude::*;
use vstd::string::StringExecFns;

use crate::decimal::{i32_to_decimal, spec_decimal_int, spec_decimal_nat, u64_to_decimal};
use crate::text::{is_substring, lemma_substring_between};

verus! {

/// The check digit embossed on a card, or the number printed on a check.
/// Any value is legal: no validation is performed.
pub struct CheckNumber(pub u32);

/// A card number kept in its display form, digits and spaces; no checksum
/// is verified.
pub struct CardNumber(pub String);

/// A physical card: its embossed check digit paired with its number.
pub struct CreditCard(pub CheckNumber, pub CardNumber);

/// The closed set of ways a payment can be made. Exactly one variant is
/// active, and its payload always matches its tag.
pub enum PaymentMethod {
    Cash,
    Check(CheckNumber),
    Card(CreditCard),
}

/// An amount of money in cents. Negative values are representable and are
/// not rejected.
pub struct PaymentAmountInCent(pub i32);

/// The closed set of supported currencies.
pub enum Currency {
    Eur,
    Usd,
    Cad,
    Gbp,
}

/// A payment: an amount, the currency it is in, and the method it was
/// made with. Immutable once constructed.
pub struct Payment {
    pub amount_in_cent: PaymentAmountInCent,
    pub currency: Currency,
    pub method: PaymentMethod,
}

/// The name under which a currency appears in a payment description.
pub open spec fn spec_currency_name(c: Currency) -> Seq<char> {
    match c {
        Currency::Eur => "Eur"@,
        Currency::Usd => "Usd"@,
        Currency::Cad => "Cad"@,
        Currency::Gbp => "Gbp"@,
    }
}

/// The clause a payment description devotes to the method: "cash", the
/// check's number, or the card's number with its check number.
pub open spec fn spec_method_clause(m: PaymentMethod) -> Seq<char> {
    match m {
        PaymentMethod::Cash => "cash"@,
        PaymentMethod::Check(n) => "a check with number "@ + spec_decimal_nat(n.0 as nat),
        PaymentMethod::Card(cc) => "a credit card "@ + cc.1.0@ + " with check number "@
            + spec_decimal_nat(cc.0.0 as nat),
    }
}

/// The whole description of a payment: the amount in cents, the currency's
/// name, and the method clause.
pub open spec fn spec_payment_info(p: Payment) -> Seq<char> {
    "An amount of "@ + spec_decimal_int(p.amount_in_cent.0 as int)
        + " in cents, was paid in "@ + spec_currency_name(p.currency) + " using "@
        + spec_method_clause(p.method)
}

/// The capability of describing oneself as a line of text.
pub trait PrintDetails {
    /// What the description is, as a sequence of characters.
    spec fn spec_info(&self) -> Seq<char>;

    /// Produces the description; the result is exactly `spec_info`.
    fn payment_info(&self) -> (r: String)
        ensures
            r@ == self.spec_info(),
    ;
}

fn currency_str(c: &Currency) -> (r: &'static str)
    ensures
        r@ == spec_currency_name(*c),
{
    match c {
        Currency::Eur => "Eur",
        Currency::Usd => "Usd",
        Currency::Cad => "Cad",
        Currency::Gbp => "Gbp",
    }
}

fn method_clause(m: &PaymentMethod) -> (r: String)
    ensures
        r@ == spec_method_clause(*m),
{
    match m {
        PaymentMethod::Cash => "cash".to_owned(),
        PaymentMethod::Check(n) => {
            let mut s = "a check with number ".to_owned();
            let digits = u64_to_decimal(n.0 as u64);
            s.append(digits.as_str());
            s
        },
        PaymentMethod::Card(cc) => {
            let mut s = "a credit card ".to_owned();
            s.append(cc.1.0.as_str());
            s.append(" with check number ");
            let digits = u64_to_decimal(cc.0.0 as u64);
            s.append(digits.as_str());
            s
        },
    }
}

impl PrintDetails for Payment {
    open spec fn spec_info(&self) -> Seq<char> {
        spec_payment_info(*self)
    }

    fn payment_info(&self) -> (r: String) {
        let mut s = "An amount of ".to_owned();
        let amount = i32_to_decimal(self.amount_in_cent.0);
        s.append(amount.as_str());
        s.append(" in cents, was paid in ");
        s.append(currency_str(&self.currency));
        s.append(" using ");
        let clause = method_clause(&self.method);
        s.append(clause.as_str());
        s
    }
}

/// Describing a payment is pure: the description is a function of the
/// payment value alone, so two equal payments describe identically.
pub proof fn lemma_payment_info_pure(p1: Payment, p2: Payment)
    requires
        p1 == p2,
    ensures
        spec_payment_info(p1) == spec_payment_info(p2),
{
}

/// Every payment description carries the wording its method requires:
/// "cash" for cash; for a check, its clause and the check number's decimal
/// form; for a card, its clause together with the card number and the
/// check number's decimal form.
pub proof fn lemma_payment_info_mentions_method(p: Payment)
    ensures
        p.method is Cash ==> is_substring("cash"@, spec_payment_info(p)),
        p.method matches PaymentMethod::Check(n) ==> is_substring(
            "a check with number "@,
            spec_payment_info(p),
        ) && is_substring(spec_decimal_nat(n.0 as nat), spec_payment_info(p)),
        p.method matches PaymentMethod::Card(cc) ==> is_substring(
            "a credit card "@,
            spec_payment_info(p),
        ) && is_substring(cc.1.0@, spec_payment_info(p)) && is_substring(
            " with check number "@,
            spec_payment_info(p),
        ) && is_substring(spec_decimal_nat(cc.0.0 as nat), spec_payment_info(p)),
{
    let info = spec_payment_info(p);
    let head = "An amount of "@ + spec_decimal_int(p.amount_in_cent.0 as int)
        + " in cents, was paid in "@ + spec_currency_name(p.currency) + " using "@;
    match p.method {
        PaymentMethod::Cash => {
            assert(info =~= head + "cash"@ + Seq::<char>::empty());
            lemma_substring_between(head, "cash"@, Seq::<char>::empty(), info);
        },
        PaymentMethod::Check(n) => {
            let digits = spec_decimal_nat(n.0 as nat);
            assert(info =~= head + "a check with number "@ + digits);
            lemma_substring_between(head, "a check with number "@, digits, info);
            assert(info =~= (head + "a check with number "@) + digits + Seq::<char>::empty());
            lemma_substring_between(
                head + "a check with number "@,
                digits,
                Seq::<char>::empty(),
                info,
            );
        },
        PaymentMethod::Card(cc) => {
            let card = cc.1.0@;
            let digits = spec_decimal_nat(cc.0.0 as nat);
            assert(info =~= head + "a credit card "@ + (card + " with check number "@ + digits));
            lemma_substring_between(
                head,
                "a credit card "@,
                card + " with check number "@ + digits,
                info,
            );
            assert(info =~= (head + "a credit card "@) + card + (" with check number "@ + digits));
            lemma_substring_between(
                head + "a credit card "@,
                card,
                " with check number "@ + digits,
                info,
            );
            assert(info =~= (head + "a credit card "@ + card) + " with check number "@ + digits);
            lemma_substring_between(
                head + "a credit card "@ + card,
                " with check number "@,
                digits,
                info,
            );
            assert(info =~= (head + "a credit card "@ + card + " with check number "@) + digits
                + Seq::<char>::empty());
            lemma_substring_between(
                head + "a credit card "@ + card + " with check number "@,
                digits,
                Seq::<char>::empty(),
                info,
            );
        },
    }
}

} // verus!
