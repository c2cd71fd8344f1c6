//! Conversion between assets of differing decimal precision at a price.

use vstd::prelude::*;
use crate::decimal::{div_scaled, lemma_pow10_positive, pow10, scaled_quotient, DecimalError};

verus! {

/// The converted amount: `from_amount` (with `from_decimals` places) is worth
/// `from_amount * from_price` in the quote currency (the price having
/// `from_price_decimals` places); divided by the feed's value (with
/// `feed_decimals` places) and expressed with `to_decimals` places, then
/// truncated toward zero.
pub open spec fn converted_amount(
    from_amount: u64,
    from_decimals: u8,
    from_price: u64,
    from_price_decimals: u8,
    feed_value: u64,
    feed_decimals: u8,
    to_decimals: u8,
) -> int {
    scaled_quotient(
        from_amount * from_price,
        feed_value as int,
        (feed_decimals + to_decimals) as nat,
        (from_decimals + from_price_decimals) as nat,
    )
}

/// The outcome of a conversion: the converted amount when it fits in a
/// `u64`; a zero feed value cannot be divided by.
pub open spec fn conversion(
    from_amount: u64,
    from_decimals: u8,
    from_price: u64,
    from_price_decimals: u8,
    feed_value: u64,
    feed_decimals: u8,
    to_decimals: u8,
) -> Result<u64, DecimalError> {
    let v = converted_amount(
        from_amount,
        from_decimals,
        from_price,
        from_price_decimals,
        feed_value,
        feed_decimals,
        to_decimals,
    );
    if feed_value == 0 {
        Err(DecimalError::DivideByZeroOrOverflow)
    } else if v <= u64::MAX {
        Ok(v as u64)
    } else {
        Err(DecimalError::ConversionError)
    }
}

/// Converts `from_amount` (with `from_decimals` places) at `from_price` (with
/// `from_price_decimals` places, per unit of the source asset) against a feed
/// value (with `feed_decimals` places, per unit of the target asset) into an
/// amount of the target asset with `to_decimals` places:
/// `amount * price / feed * 10^to_decimals`, computed exactly and truncated
/// toward zero. Fails only on a zero feed value, or when the result does not
/// fit in a `u64`.
pub fn convert_mint(
    from_amount: u64,
    from_decimals: u8,
    from_price: u64,
    from_price_decimals: u8,
    feed_value: u64,
    feed_decimals: u8,
    to_decimals: u8,
) -> (r: Result<u64, DecimalError>)
    ensures
        r == conversion(
            from_amount,
            from_decimals,
            from_price,
            from_price_decimals,
            feed_value,
            feed_decimals,
            to_decimals,
        ),
{
    if feed_value == 0 {
        return Err(DecimalError::DivideByZeroOrOverflow);
    }
    if from_amount == 0 || from_price == 0 {
        proof {
            lemma_zero_is_absorbing(
                from_amount,
                from_decimals,
                from_price,
                from_price_decimals,
                feed_value,
                feed_decimals,
                to_decimals,
            );
        }
        return Ok(0);
    }
    proof {
        assert(from_amount * from_price <= u64::MAX * u64::MAX) by (nonlinear_arith)
            requires
                from_amount <= u64::MAX,
                from_price <= u64::MAX,
        ;
    }
    let usd_amount = from_amount as u128 * from_price as u128;
    let up = feed_decimals as u16 + to_decimals as u16;
    let down = from_decimals as u16 + from_price_decimals as u16;
    match div_scaled(usd_amount, feed_value, up, down) {
        Some(v) => Ok(v),
        None => Err(DecimalError::ConversionError),
    }
}

proof fn lemma_zero_is_absorbing(
    from_amount: u64,
    from_decimals: u8,
    from_price: u64,
    from_price_decimals: u8,
    feed_value: u64,
    feed_decimals: u8,
    to_decimals: u8,
)
    requires
        feed_value > 0,
        from_amount == 0 || from_price == 0,
    ensures
        converted_amount(
            from_amount,
            from_decimals,
            from_price,
            from_price_decimals,
            feed_value,
            feed_decimals,
            to_decimals,
        ) == 0,
{
    let down = (from_decimals + from_price_decimals) as nat;
    let up = (feed_decimals + to_decimals) as nat;
    lemma_pow10_positive(down);
    let d = feed_value * pow10(down);
    assert(d > 0) by (nonlinear_arith)
        requires
            d == feed_value * pow10(down),
            feed_value >= 1,
            pow10(down) >= 1,
    ;
    assert(from_amount * from_price == 0) by (nonlinear_arith)
        requires
            from_amount == 0 || from_price == 0,
    ;
    assert(0 * pow10(up) == 0);
    assert(0int / d == 0) by (nonlinear_arith)
        requires
            d > 0,
    ;
}

/// Converting nothing, or at a price of zero, gives zero, whatever the scales,
/// as long as the feed's value is not zero.
pub proof fn lemma_zero_amount_converts_to_zero(
    from_amount: u64,
    from_decimals: u8,
    from_price: u64,
    from_price_decimals: u8,
    feed_value: u64,
    feed_decimals: u8,
    to_decimals: u8,
)
    requires
        feed_value > 0,
    ensures
        conversion(
            0,
            from_decimals,
            from_price,
            from_price_decimals,
            feed_value,
            feed_decimals,
            to_decimals,
        ) == Ok::<u64, DecimalError>(0),
        conversion(
            from_amount,
            from_decimals,
            0,
            from_price_decimals,
            feed_value,
            feed_decimals,
            to_decimals,
        ) == Ok::<u64, DecimalError>(0),
{
    lemma_zero_is_absorbing(
        0,
        from_decimals,
        from_price,
        from_price_decimals,
        feed_value,
        feed_decimals,
        to_decimals,
    );
    lemma_zero_is_absorbing(
        from_amount,
        from_decimals,
        0,
        from_price_decimals,
        feed_value,
        feed_decimals,
        to_decimals,
    );
}

/// A converted amount is the exact amount truncated: never more than the
/// exact amount, and less than one unit below it.
pub proof fn lemma_conversion_truncates(
    from_amount: u64,
    from_decimals: u8,
    from_price: u64,
    from_price_decimals: u8,
    feed_value: u64,
    feed_decimals: u8,
    to_decimals: u8,
)
    requires
        feed_value > 0,
    ensures
        ({
            let n = from_amount * from_price * pow10((feed_decimals + to_decimals) as nat);
            let d = feed_value * pow10((from_decimals + from_price_decimals) as nat);
            let t = converted_amount(
                from_amount,
                from_decimals,
                from_price,
                from_price_decimals,
                feed_value,
                feed_decimals,
                to_decimals,
            );
            &&& d > 0
            &&& t >= 0
            &&& t * d <= n < (t + 1) * d
        }),
{
    let up = (feed_decimals + to_decimals) as nat;
    let down = (from_decimals + from_price_decimals) as nat;
    let n = from_amount * from_price * pow10(up);
    let d = feed_value * pow10(down);
    lemma_pow10_positive(up);
    lemma_pow10_positive(down);
    assert(d > 0) by (nonlinear_arith)
        requires
            d == feed_value * pow10(down),
            pow10(down) >= 1,
            feed_value >= 1,
    ;
    assert(n >= 0) by (nonlinear_arith)
        requires
            n == from_amount * from_price * pow10(up),
            from_amount >= 0,
            from_price >= 0,
            pow10(up) >= 1,
    ;
    let t = n / d;
    assert(t >= 0 && t * d <= n < (t + 1) * d) by (nonlinear_arith)
        requires
            n >= 0,
            d > 0,
            t == n / d,
    ;
}

} // verus!
