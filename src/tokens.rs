//! Token descriptors and the fee-holding controller contract record.

use vstd::prelude::*;

verus! {

/// An ERC-20 token descriptor, known by its name.
pub struct Erc20(String);

impl View for Erc20 {
    type V = Seq<char>;

    closed spec fn view(&self) -> Seq<char> {
        self.0@
    }
}

impl Erc20 {
    pub fn new() -> (r: Self)
        ensures
            r@ == "Hello from ERC-20"@,
    {
        Erc20(String::from_str("Hello from ERC-20"))
    }

    pub fn name(&self) -> (r: &str)
        ensures
            r@ == self@,
    {
        self.0.as_str()
    }
}

/// An ERC-1155 token descriptor, known by its name.
pub struct Erc1155(String);

impl View for Erc1155 {
    type V = Seq<char>;

    closed spec fn view(&self) -> Seq<char> {
        self.0@
    }
}

impl Erc1155 {
    pub fn new() -> (r: Self)
        ensures
            r@ == "Hello from ERC-1155"@,
    {
        Erc1155(String::from_str("Hello from ERC-1155"))
    }

    pub fn name(&self) -> (r: &str)
        ensures
            r@ == self@,
    {
        self.0.as_str()
    }
}

/// The state of the controller contract: the fees it charges.
pub struct ControllerV1Contract {
    fees: u32,
}

impl ControllerV1Contract {
    pub closed spec fn spec_fees(&self) -> u32 {
        self.fees
    }

    pub fn new(fees: u32) -> (r: Self)
        ensures
            r.spec_fees() == fees,
    {
        ControllerV1Contract { fees }
    }

    pub fn get_fees(&self) -> (r: u32)
        ensures
            r == self.spec_fees(),
    {
        self.fees
    }
}

} // verus!
