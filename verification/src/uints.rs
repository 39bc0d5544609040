use vstd::prelude::*;

verus! {

/// A one-bit unsigned integer: a flag holding exactly 0 or 1.
#[derive(Clone, Copy, Debug, PartialEq, Eq, Structural)]
pub struct U1 {
    v: u8,
}

impl View for U1 {
    type V = u8;

    closed spec fn view(&self) -> u8 {
        self.v
    }
}

impl U1 {
    /// Every `U1` ever constructed holds a value below 2.
    #[verifier::type_invariant]
    spec fn inv(self) -> bool {
        self.v < 2
    }

    pub fn new(v: u8) -> (r: Self)
        requires
            v < 2,
        ensures
            r@ == v,
    {
        U1 { v }
    }

    pub fn value(self) -> (r: u8)
        ensures
            r == self@,
            r < 2,
    {
        proof {
            use_type_invariant(self);
        }
        self.v
    }
}

/// A two-bit unsigned integer: holds exactly the values 0 through 3.
#[derive(Clone, Copy, Debug, PartialEq, Eq, Structural)]
pub struct U2 {
    v: u8,
}

impl View for U2 {
    type V = u8;

    closed spec fn view(&self) -> u8 {
        self.v
    }
}

impl U2 {
    /// Every `U2` ever constructed holds a value below 4.
    #[verifier::type_invariant]
    spec fn inv(self) -> bool {
        self.v < 4
    }

    pub fn new(v: u8) -> (r: Self)
        requires
            v < 4,
        ensures
            r@ == v,
    {
        U2 { v }
    }

    pub fn value(self) -> (r: u8)
        ensures
            r == self@,
            r < 4,
    {
        proof {
            use_type_invariant(self);
        }
        self.v
    }
}

/// A four-bit unsigned integer: holds exactly the values 0 through 15.
#[derive(Clone, Copy, Debug, PartialEq, Eq, Structural)]
pub struct U4 {
    v: u8,
}

impl View for U4 {
    type V = u8;

    closed spec fn view(&self) -> u8 {
        self.v
    }
}

impl U4 {
    /// Every `U4` ever constructed holds a value below 16.
    #[verifier::type_invariant]
    spec fn inv(self) -> bool {
        self.v < 16
    }

    pub fn new(v: u8) -> (r: Self)
        requires
            v < 16,
        ensures
            r@ == v,
    {
        U4 { v }
    }

    pub fn value(self) -> (r: u8)
        ensures
            r == self@,
            r < 16,
    {
        proof {
            use_type_invariant(self);
        }
        self.v
    }
}

} // verus!
