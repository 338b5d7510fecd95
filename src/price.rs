use vstd::arithmetic::div_mod::{lemma_fundamental_div_mod, lemma_mod_bound};
use vstd::prelude::*;

verus! {

/// The exchange ratio `price_precision : precision` between the offered and
/// the requested asset. Both sides are strictly positive in a usable offer.
#[derive(Debug, Clone, Copy, PartialEq, Eq, Structural)]
pub struct PartialPriceData {
    pub price_precision: u64,
    pub precision: u64,
}

impl PartialPriceData {
    pub open spec fn valid(&self) -> bool {
        self.price_precision > 0 && self.precision > 0
    }
}

/// Offered amount owed for `asked` units of the requested asset (truncating).
pub open spec fn quote_value(asked: int, price: PartialPriceData) -> int {
    asked * price.price_precision / (price.precision as int)
}

/// Requested amount that `offered` units of the offered asset are worth (truncating).
pub open spec fn reverse_quote_value(offered: int, price: PartialPriceData) -> int {
    offered * price.precision / (price.price_precision as int)
}

/// Whether `quote` of `asked` fits its product in 64 bits.
pub open spec fn quote_fits(asked: int, price: PartialPriceData) -> bool {
    asked * price.price_precision <= u64::MAX
}

/// Whether `reverse_quote` of `offered` fits its product in 64 bits.
pub open spec fn reverse_quote_fits(offered: int, price: PartialPriceData) -> bool {
    offered * price.precision <= u64::MAX
}

/// Quoting and then reverse-quoting never gives the asker more than they
/// started with; it gives back exactly the starting amount when the
/// product `amount * price_precision` is a multiple of `precision`.
/// Both steps are then free of overflow.
pub proof fn lemma_reverse_quote_never_favors_asker(amount: u64, price: PartialPriceData)
    requires
        price.valid(),
        amount < 0x1_0000_0000,
        quote_fits(amount as int, price),
    ensures
        reverse_quote_fits(quote_value(amount as int, price), price),
        reverse_quote_value(quote_value(amount as int, price), price) <= amount,
        reverse_quote_value(quote_value(amount as int, price), price) == amount
            <==> (amount * price.price_precision) % (price.precision as int) == 0,
{
    let a = amount as int;
    let pp = price.price_precision as int;
    let pr = price.precision as int;
    let prod = a * pp;
    let q = prod / pr;
    assert(0 <= prod) by (nonlinear_arith)
        requires a >= 0, pp > 0, prod == a * pp;
    lemma_fundamental_div_mod(prod, pr);
    lemma_mod_bound(prod, pr);
    assert(q >= 0) by (nonlinear_arith)
        requires pr > 0, prod >= 0, q == prod / pr;
    let back = q * pr;
    assert(back <= prod);
    let r = back / pp;
    lemma_fundamental_div_mod(back, pp);
    lemma_mod_bound(back, pp);
    assert(back >= 0) by (nonlinear_arith)
        requires q >= 0, pr > 0, back == q * pr;
    assert(r <= a) by (nonlinear_arith)
        requires r * pp <= back, back <= a * pp, pp > 0;
    if prod % pr == 0 {
        assert(back == a * pp);
        assert(r == a) by (nonlinear_arith)
            requires pp * r + back % pp == back, back == a * pp, 0 <= back % pp < pp, pp > 0;
    } else {
        assert(back < a * pp);
        assert(r < a) by (nonlinear_arith)
            requires r * pp <= back, back < a * pp, pp > 0, pp * r + back % pp == back,
                0 <= back % pp;
    }
}

} // verus!
