use vstd::prelude::*;
use vstd::utf8::encode_utf8;

verus! {

/// Largest length, in bytes, of a product name.
pub const MAX_PRODUCT_NAME_BYTES: usize = 300;

/// A product name is non-empty and at most `MAX_PRODUCT_NAME_BYTES` bytes of UTF-8.
pub open spec fn valid_product_name(s: Seq<char>) -> bool {
    &&& s.len() > 0
    &&& encode_utf8(s).len() <= MAX_PRODUCT_NAME_BYTES
}

struct ProductName(String);

impl ProductName {
    #[verifier::type_invariant]
    spec fn inv(&self) -> bool {
        valid_product_name(self.0@)
    }

    fn new(name: String) -> (r: ProductName)
        requires
            valid_product_name(name@),
        ensures
            r.0@ == name@,
    {
        ProductName(name)
    }

    fn value(&self) -> (r: &String)
        ensures
            r@ == self.0@,
            valid_product_name(r@),
    {
        proof {
            use_type_invariant(self);
        }
        &self.0
    }
}

struct Quantity(u32);

impl Quantity {
    #[verifier::type_invariant]
    spec fn inv(&self) -> bool {
        self.0 > 0
    }

    fn new(quantity: u32) -> (r: Quantity)
        requires
            quantity > 0,
        ensures
            r.0 == quantity,
    {
        Quantity(quantity)
    }

    fn value(&self) -> (r: &u32)
        ensures
            *r == self.0,
            *r > 0,
    {
        proof {
            use_type_invariant(self);
        }
        &self.0
    }
}

struct UnitPrice(u32);

impl UnitPrice {
    #[verifier::type_invariant]
    spec fn inv(&self) -> bool {
        self.0 > 0
    }

    fn new(price: u32) -> (r: UnitPrice)
        requires
            price > 0,
        ensures
            r.0 == price,
    {
        UnitPrice(price)
    }

    fn value(&self) -> (r: &u32)
        ensures
            *r == self.0,
            *r > 0,
    {
        proof {
            use_type_invariant(self);
        }
        &self.0
    }
}

/// An order line: a product, how many units of it, and the price of one unit in cents.
pub struct Order {
    product_name: ProductName,
    quantity: Quantity,
    unit_price: UnitPrice,
}

impl Order {
    /// The product name of the order.
    pub closed spec fn spec_product_name(&self) -> Seq<char> {
        self.product_name.0@
    }

    /// The number of units ordered.
    pub closed spec fn spec_quantity(&self) -> u32 {
        self.quantity.0
    }

    /// The price of one unit, in cents.
    pub closed spec fn spec_unit_price(&self) -> u32 {
        self.unit_price.0
    }

    pub fn new(product_name: String, quantity: u32, unit_price: u32) -> (r: Order)
        requires
            valid_product_name(product_name@),
            quantity > 0,
            unit_price > 0,
        ensures
            r.spec_product_name() == product_name@,
            r.spec_quantity() == quantity,
            r.spec_unit_price() == unit_price,
    {
        Order {
            product_name: ProductName::new(product_name),
            quantity: Quantity::new(quantity),
            unit_price: UnitPrice::new(unit_price),
        }
    }

    pub fn product_name(&self) -> (r: &String)
        ensures
            r@ == self.spec_product_name(),
            valid_product_name(r@),
    {
        self.product_name.value()
    }

    pub fn set_product_name(&mut self, product_name: String)
        requires
            valid_product_name(product_name@),
        ensures
            final(self).spec_product_name() == product_name@,
            final(self).spec_quantity() == old(self).spec_quantity(),
            final(self).spec_unit_price() == old(self).spec_unit_price(),
    {
        self.product_name = ProductName::new(product_name);
    }

    pub fn quantity(&self) -> (r: &u32)
        ensures
            *r == self.spec_quantity(),
            *r > 0,
    {
        self.quantity.value()
    }

    pub fn set_quantity(&mut self, quantity: u32)
        requires
            quantity > 0,
        ensures
            final(self).spec_product_name() == old(self).spec_product_name(),
            final(self).spec_quantity() == quantity,
            final(self).spec_unit_price() == old(self).spec_unit_price(),
    {
        self.quantity = Quantity::new(quantity);
    }

    pub fn unit_price(&self) -> (r: &u32)
        ensures
            *r == self.spec_unit_price(),
            *r > 0,
    {
        self.unit_price.value()
    }

    pub fn set_unit_price(&mut self, unit_price: u32)
        requires
            unit_price > 0,
        ensures
            final(self).spec_product_name() == old(self).spec_product_name(),
            final(self).spec_quantity() == old(self).spec_quantity(),
            final(self).spec_unit_price() == unit_price,
    {
        self.unit_price = UnitPrice::new(unit_price);
    }

    /// The price of the whole order, in cents.
    pub fn total(&self) -> (r: u32)
        requires
            self.spec_quantity() * self.spec_unit_price() <= u32::MAX,
        ensures
            r == self.spec_quantity() * self.spec_unit_price(),
            r > 0,
    {
        let q = *self.quantity.value();
        let p = *self.unit_price.value();
        proof {
            assert(q * p > 0) by (nonlinear_arith)
                requires
                    q > 0,
                    p > 0,
            ;
        }
        q * p
    }
}

} // verus!
