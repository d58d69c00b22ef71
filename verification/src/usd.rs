//! Dollar values of prices.

#[allow(unused_imports)]
use crate::model::{quotient_toward_zero, usdc, xlm};
use crate::storage::Storage;
use vstd::arithmetic::power::{lemma_pow0, lemma_pow1, lemma_pow_adds, lemma_pow_increases, pow};
use vstd::prelude::*;

verus! {

/// Ten to the power of `exponent`.
fn power_of_ten(exponent: u32) -> (power: i128)
    requires
        pow(10, exponent as nat) <= i128::MAX,
    ensures
        power == pow(10, exponent as nat),
        power > 0,
{
    let mut power: i128 = 1;
    let mut i: u32 = 0;
    proof {
        lemma_pow0(10);
    }
    while i < exponent
        invariant
            i <= exponent,
            0 < power == pow(10, i as nat),
            pow(10, exponent as nat) <= i128::MAX,
        decreases exponent - i,
    {
        proof {
            lemma_pow_adds(10, i as nat, 1);
            lemma_pow1(10);
            lemma_pow_increases(10, (i + 1) as nat, exponent as nat);
            assert(pow(10, (i + 1) as nat) == power * 10);
        }
        power = power * 10;
        i += 1;
    }
    power
}

/// Whether ten to the power of `exponent` fits in 128 bits.
fn power_of_ten_fits(exponent: u32) -> (r: bool)
    ensures
        r == (pow(10, exponent as nat) <= i128::MAX),
{
    let mut power: i128 = 1;
    let mut i: u32 = 0;
    proof {
        lemma_pow0(10);
    }
    while i < exponent
        invariant
            i <= exponent,
            0 < power == pow(10, i as nat),
        decreases exponent - i,
    {
        proof {
            lemma_pow_adds(10, i as nat, 1);
            lemma_pow1(10);
            lemma_pow_increases(10, (i + 1) as nat, exponent as nat);
            assert(pow(10, (i + 1) as nat) == power * 10);
        }
        if power > i128::MAX / 10 {
            return false;
        }
        power = power * 10;
        i += 1;
    }
    true
}

/// Whether the numbers that the dollar value of `price` is made of fit in 128 bits.
pub fn usd_price_fits(storage: &Storage, asset: &String, price: i128, decimals: u32) -> (r: bool)
    ensures
        r == storage@.usd_price_fits(asset@, price, decimals),
{
    let xlm_symbol: String = "XLM".to_owned();
    if *asset == xlm_symbol {
        return true;
    }
    let usdc_symbol: String = "USDC".to_owned();
    if storage.get_latest_price(&usdc_symbol).is_some() && *asset == usdc_symbol {
        return power_of_ten_fits(decimals);
    }
    match storage.get_latest_price(&xlm_symbol) {
        Some(rate) => price.checked_mul(rate.price).is_some() && power_of_ten_fits(rate.decimals),
        None => true,
    }
}

/// The dollar value of `price` for `asset`, where it can be told.
pub fn calculate_usd_price(storage: &Storage, asset: &String, price: i128, decimals: u32) -> (value:
    Option<i128>)
    requires
        storage@.usd_price_fits(asset@, price, decimals),
    ensures
        match storage@.usd_price(asset@, price, decimals) {
            Some(v) => value is Some && value->0 == v,
            None => value is None,
        },
{
    let xlm_symbol: String = "XLM".to_owned();
    if *asset == xlm_symbol {
        return Some(price);
    }
    let usdc_symbol: String = "USDC".to_owned();
    if storage.get_latest_price(&usdc_symbol).is_some() && *asset == usdc_symbol {
        return Some(power_of_ten(decimals));
    }
    match storage.get_latest_price(&xlm_symbol) {
        Some(rate) => {
            let scale: i128 = power_of_ten(rate.decimals);
            let product: i128 = price * rate.price;
            proof {
                let q = quotient_toward_zero(product as int, scale as int);
                vstd::arithmetic::div_mod::lemma_div_pos_is_pos(
                    if product >= 0 {
                        product as int
                    } else {
                        -product as int
                    },
                    scale as int,
                );
                vstd::arithmetic::div_mod::lemma_div_is_ordered_by_denominator(
                    if product >= 0 {
                        product as int
                    } else {
                        -product as int
                    },
                    1,
                    scale as int,
                );
                assert(i128::MIN <= q <= i128::MAX);
            }
            product.checked_div(scale)
        },
        None => None,
    }
}

} // verus!
