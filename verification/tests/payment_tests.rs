use rust_features::payment::{
    CardNumber, CheckNumber, CreditCard, Currency, Payment, PaymentAmountInCent, PaymentMethod,
    PrintDetails,
};

fn card_payment() -> Payment {
    Payment {
        amount_in_cent: PaymentAmountInCent(1000),
        currency: Currency::Usd,
        method: PaymentMethod::Card(CreditCard(
            CheckNumber(88866),
            CardNumber("1234 5678 9012 3456".to_string()),
        )),
    }
}

#[test]
fn test_card_payment_description() {
    let info = card_payment().payment_info();
    assert_eq!(
        info,
        "An amount of 1000 in cents, was paid in Usd using \
         a credit card 1234 5678 9012 3456 with check number 88866"
    );
    assert!(info.contains("1000"));
    assert!(info.contains("Usd"));
    assert!(info.contains("1234 5678 9012 3456"));
    assert!(info.contains("88866"));
}

#[test]
fn test_check_payment_description() {
    let payment = Payment {
        amount_in_cent: PaymentAmountInCent(800),
        currency: Currency::Cad,
        method: PaymentMethod::Check(CheckNumber(123456)),
    };
    let info = payment.payment_info();
    assert_eq!(
        info,
        "An amount of 800 in cents, was paid in Cad using a check with number 123456"
    );
    assert!(info.contains("800"));
    assert!(info.contains("Cad"));
    assert!(info.contains("123456"));
}

#[test]
fn test_cash_payment_description() {
    let payment = Payment {
        amount_in_cent: PaymentAmountInCent(250),
        currency: Currency::Eur,
        method: PaymentMethod::Cash,
    };
    let info = payment.payment_info();
    assert_eq!(info, "An amount of 250 in cents, was paid in Eur using cash");
    assert!(info.contains("cash"));
}

#[test]
fn test_gbp_cash_payment_description() {
    let payment = Payment {
        amount_in_cent: PaymentAmountInCent(0),
        currency: Currency::Gbp,
        method: PaymentMethod::Cash,
    };
    assert_eq!(
        payment.payment_info(),
        "An amount of 0 in cents, was paid in Gbp using cash"
    );
}

#[test]
fn test_negative_amount_description() {
    let payment = Payment {
        amount_in_cent: PaymentAmountInCent(-50),
        currency: Currency::Eur,
        method: PaymentMethod::Cash,
    };
    assert_eq!(
        payment.payment_info(),
        "An amount of -50 in cents, was paid in Eur using cash"
    );
}

#[test]
fn test_payment_info_is_pure() {
    let first = card_payment().payment_info();
    let second = card_payment().payment_info();
    assert_eq!(first, second);
}
