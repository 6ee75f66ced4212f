//! One comodity's price: a current value held between two fixed bounds.

use vstd::prelude::*;

verus! {

/// The price of one comodity on the market.
#[derive(Copy, Clone, Debug, PartialEq, Eq, Structural)]
pub struct ComodityPrice {
    pub min: u32,
    pub max: u32,
    pub price: u32,
}

/// The price after a rise of `amount`: the sum, held at `max`.
pub open spec fn raised(price: int, amount: int, max: int) -> int {
    if price + amount <= max {
        price + amount
    } else {
        max
    }
}

/// The price after a fall of `amount`: the difference, held at `min`.
pub open spec fn lowered(price: int, amount: int, min: int) -> int {
    if price - amount >= min {
        price - amount
    } else {
        min
    }
}

impl ComodityPrice {
    /// The current price lies between the bounds.
    pub open spec fn wf(self) -> bool {
        self.min <= self.price <= self.max
    }

    /// A price that starts at the lower bound.
    pub fn new(min: u32, max: u32) -> (p: ComodityPrice)
        ensures
            p == (ComodityPrice { min, max, price: min }),
            min <= max ==> p.wf(),
    {
        ComodityPrice { min, max, price: min }
    }

    /// This price after a rise of `amount`. The bounds stay.
    pub open spec fn inflated(self, amount: int) -> ComodityPrice {
        ComodityPrice {
            min: self.min,
            max: self.max,
            price: raised(self.price as int, amount, self.max as int) as u32,
        }
    }

    /// This price after a fall of `amount`. The bounds stay.
    pub open spec fn deflated(self, amount: int) -> ComodityPrice {
        ComodityPrice {
            min: self.min,
            max: self.max,
            price: lowered(self.price as int, amount, self.min as int) as u32,
        }
    }

    /// Raises the price by `amount`, stopping at the upper bound. A sum that
    /// does not fit the integer counts as reaching the bound.
    pub fn inflate(&mut self, amount: u32)
        ensures
            *final(self) == old(self).inflated(amount as int),
            final(self).price == raised(
                old(self).price as int,
                amount as int,
                old(self).max as int,
            ),
            old(self).wf() ==> final(self).wf() && final(self).price >= old(self).price,
    {
        let result: u32 = match self.price.checked_add(amount) {
            Some(r) => if r <= self.max { r } else { self.max },
            None => self.max,
        };
        self.price = result;
    }

    /// Lowers the price by `amount`, stopping at the lower bound. A
    /// difference below zero counts as reaching the bound.
    pub fn deflate(&mut self, amount: u32)
        ensures
            *final(self) == old(self).deflated(amount as int),
            final(self).price == lowered(
                old(self).price as int,
                amount as int,
                old(self).min as int,
            ),
            old(self).wf() ==> final(self).wf() && final(self).price <= old(self).price,
    {
        let result: u32 = match self.price.checked_sub(amount) {
            Some(r) => if r >= self.min { r } else { self.min },
            None => self.min,
        };
        self.price = result;
    }
}

impl Default for ComodityPrice {
    /// The price of what is not traded: bounds and price at zero.
    fn default() -> (p: ComodityPrice)
        ensures
            p == (ComodityPrice { min: 0, max: 0, price: 0 }),
    {
        ComodityPrice { min: 0, max: 0, price: 0 }
    }
}

} // verus!
