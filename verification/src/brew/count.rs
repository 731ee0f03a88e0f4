//! Numbers as types, for counting the ingredients in a cauldron.

use vstd::prelude::*;
use vstd::std_specs::ops::{AddSpecImpl, SubSpecImpl};

verus! {

/// A number.
pub trait Num {
}

/// An even number.
pub trait IsEven {
}

/// An odd number.
pub trait IsOdd {
}

/// The number zero.
pub trait IsZero {
}

/// A number other than zero.
pub trait NonZero {
}

/// A number that equals `T`.
pub trait NumEq<T: Num> {
}

/// A number that is at most `T`.
pub trait LessOrEqual<T: Num> {
}

pub struct Zero;

impl Num for Zero {
}

impl NumEq<Zero> for Zero {
}

impl IsEven for Zero {
}

pub struct One;

impl Num for One {
}

impl NumEq<One> for One {
}

impl NonZero for One {
}

impl IsOdd for One {
}

pub struct Two;

impl Num for Two {
}

impl NumEq<Two> for Two {
}

impl NonZero for Two {
}

impl IsEven for Two {
}

pub struct Three;

impl Num for Three {
}

impl NumEq<Three> for Three {
}

impl NonZero for Three {
}

impl IsOdd for Three {
}

pub struct Four;

impl Num for Four {
}

impl NumEq<Four> for Four {
}

impl NonZero for Four {
}

impl IsEven for Four {
}

pub struct Five;

impl Num for Five {
}

impl NumEq<Five> for Five {
}

impl NonZero for Five {
}

impl IsOdd for Five {
}

pub struct Six;

impl Num for Six {
}

impl NumEq<Six> for Six {
}

impl NonZero for Six {
}

impl IsEven for Six {
}

impl LessOrEqual<Zero> for Zero {
}

impl core::ops::Sub<Zero> for Zero {
    type Output = Zero;

    fn sub(self, _rhs: Zero) -> Zero {
        Zero
    }
}

impl SubSpecImpl<Zero> for Zero {
    open spec fn obeys_sub_spec() -> bool {
        true
    }

    open spec fn sub_req(self, rhs: Zero) -> bool {
        true
    }

    open spec fn sub_spec(self, rhs: Zero) -> Zero {
        Zero
    }
}

impl core::ops::Add<Zero> for Zero {
    type Output = Zero;

    fn add(self, _rhs: Zero) -> Zero {
        Zero
    }
}

impl AddSpecImpl<Zero> for Zero {
    open spec fn obeys_add_spec() -> bool {
        true
    }

    open spec fn add_req(self, rhs: Zero) -> bool {
        true
    }

    open spec fn add_spec(self, rhs: Zero) -> Zero {
        Zero
    }
}

impl core::ops::Add<One> for Zero {
    type Output = One;

    fn add(self, _rhs: One) -> One {
        One
    }
}

impl AddSpecImpl<One> for Zero {
    open spec fn obeys_add_spec() -> bool {
        true
    }

    open spec fn add_req(self, rhs: One) -> bool {
        true
    }

    open spec fn add_spec(self, rhs: One) -> One {
        One
    }
}

impl core::ops::Add<Two> for Zero {
    type Output = Two;

    fn add(self, _rhs: Two) -> Two {
        Two
    }
}

impl AddSpecImpl<Two> for Zero {
    open spec fn obeys_add_spec() -> bool {
        true
    }

    open spec fn add_req(self, rhs: Two) -> bool {
        true
    }

    open spec fn add_spec(self, rhs: Two) -> Two {
        Two
    }
}

impl LessOrEqual<One> for Zero {
}

impl core::ops::Sub<Zero> for One {
    type Output = One;

    fn sub(self, _rhs: Zero) -> One {
        One
    }
}

impl SubSpecImpl<Zero> for One {
    open spec fn obeys_sub_spec() -> bool {
        true
    }

    open spec fn sub_req(self, rhs: Zero) -> bool {
        true
    }

    open spec fn sub_spec(self, rhs: Zero) -> One {
        One
    }
}

impl LessOrEqual<One> for One {
}

impl core::ops::Sub<One> for One {
    type Output = Zero;

    fn sub(self, _rhs: One) -> Zero {
        Zero
    }
}

impl SubSpecImpl<One> for One {
    open spec fn obeys_sub_spec() -> bool {
        true
    }

    open spec fn sub_req(self, rhs: One) -> bool {
        true
    }

    open spec fn sub_spec(self, rhs: One) -> Zero {
        Zero
    }
}

impl core::ops::Add<Zero> for One {
    type Output = One;

    fn add(self, _rhs: Zero) -> One {
        One
    }
}

impl AddSpecImpl<Zero> for One {
    open spec fn obeys_add_spec() -> bool {
        true
    }

    open spec fn add_req(self, rhs: Zero) -> bool {
        true
    }

    open spec fn add_spec(self, rhs: Zero) -> One {
        One
    }
}

impl core::ops::Add<One> for One {
    type Output = Two;

    fn add(self, _rhs: One) -> Two {
        Two
    }
}

impl AddSpecImpl<One> for One {
    open spec fn obeys_add_spec() -> bool {
        true
    }

    open spec fn add_req(self, rhs: One) -> bool {
        true
    }

    open spec fn add_spec(self, rhs: One) -> Two {
        Two
    }
}

impl core::ops::Add<Two> for One {
    type Output = Three;

    fn add(self, _rhs: Two) -> Three {
        Three
    }
}

impl AddSpecImpl<Two> for One {
    open spec fn obeys_add_spec() -> bool {
        true
    }

    open spec fn add_req(self, rhs: Two) -> bool {
        true
    }

    open spec fn add_spec(self, rhs: Two) -> Three {
        Three
    }
}

impl LessOrEqual<Two> for Zero {
}

impl core::ops::Sub<Zero> for Two {
    type Output = Two;

    fn sub(self, _rhs: Zero) -> Two {
        Two
    }
}

impl SubSpecImpl<Zero> for Two {
    open spec fn obeys_sub_spec() -> bool {
        true
    }

    open spec fn sub_req(self, rhs: Zero) -> bool {
        true
    }

    open spec fn sub_spec(self, rhs: Zero) -> Two {
        Two
    }
}

impl LessOrEqual<Two> for One {
}

impl core::ops::Sub<One> for Two {
    type Output = One;

    fn sub(self, _rhs: One) -> One {
        One
    }
}

impl SubSpecImpl<One> for Two {
    open spec fn obeys_sub_spec() -> bool {
        true
    }

    open spec fn sub_req(self, rhs: One) -> bool {
        true
    }

    open spec fn sub_spec(self, rhs: One) -> One {
        One
    }
}

impl LessOrEqual<Two> for Two {
}

impl core::ops::Sub<Two> for Two {
    type Output = Zero;

    fn sub(self, _rhs: Two) -> Zero {
        Zero
    }
}

impl SubSpecImpl<Two> for Two {
    open spec fn obeys_sub_spec() -> bool {
        true
    }

    open spec fn sub_req(self, rhs: Two) -> bool {
        true
    }

    open spec fn sub_spec(self, rhs: Two) -> Zero {
        Zero
    }
}

impl core::ops::Add<Zero> for Two {
    type Output = Two;

    fn add(self, _rhs: Zero) -> Two {
        Two
    }
}

impl AddSpecImpl<Zero> for Two {
    open spec fn obeys_add_spec() -> bool {
        true
    }

    open spec fn add_req(self, rhs: Zero) -> bool {
        true
    }

    open spec fn add_spec(self, rhs: Zero) -> Two {
        Two
    }
}

impl core::ops::Add<One> for Two {
    type Output = Three;

    fn add(self, _rhs: One) -> Three {
        Three
    }
}

impl AddSpecImpl<One> for Two {
    open spec fn obeys_add_spec() -> bool {
        true
    }

    open spec fn add_req(self, rhs: One) -> bool {
        true
    }

    open spec fn add_spec(self, rhs: One) -> Three {
        Three
    }
}

impl core::ops::Add<Two> for Two {
    type Output = Four;

    fn add(self, _rhs: Two) -> Four {
        Four
    }
}

impl AddSpecImpl<Two> for Two {
    open spec fn obeys_add_spec() -> bool {
        true
    }

    open spec fn add_req(self, rhs: Two) -> bool {
        true
    }

    open spec fn add_spec(self, rhs: Two) -> Four {
        Four
    }
}

impl LessOrEqual<Three> for Zero {
}

impl core::ops::Sub<Zero> for Three {
    type Output = Three;

    fn sub(self, _rhs: Zero) -> Three {
        Three
    }
}

impl SubSpecImpl<Zero> for Three {
    open spec fn obeys_sub_spec() -> bool {
        true
    }

    open spec fn sub_req(self, rhs: Zero) -> bool {
        true
    }

    open spec fn sub_spec(self, rhs: Zero) -> Three {
        Three
    }
}

impl LessOrEqual<Three> for One {
}

impl core::ops::Sub<One> for Three {
    type Output = Two;

    fn sub(self, _rhs: One) -> Two {
        Two
    }
}

impl SubSpecImpl<One> for Three {
    open spec fn obeys_sub_spec() -> bool {
        true
    }

    open spec fn sub_req(self, rhs: One) -> bool {
        true
    }

    open spec fn sub_spec(self, rhs: One) -> Two {
        Two
    }
}

impl LessOrEqual<Three> for Two {
}

impl core::ops::Sub<Two> for Three {
    type Output = One;

    fn sub(self, _rhs: Two) -> One {
        One
    }
}

impl SubSpecImpl<Two> for Three {
    open spec fn obeys_sub_spec() -> bool {
        true
    }

    open spec fn sub_req(self, rhs: Two) -> bool {
        true
    }

    open spec fn sub_spec(self, rhs: Two) -> One {
        One
    }
}

impl LessOrEqual<Three> for Three {
}

impl core::ops::Sub<Three> for Three {
    type Output = Zero;

    fn sub(self, _rhs: Three) -> Zero {
        Zero
    }
}

impl SubSpecImpl<Three> for Three {
    open spec fn obeys_sub_spec() -> bool {
        true
    }

    open spec fn sub_req(self, rhs: Three) -> bool {
        true
    }

    open spec fn sub_spec(self, rhs: Three) -> Zero {
        Zero
    }
}

impl core::ops::Add<Zero> for Three {
    type Output = Three;

    fn add(self, _rhs: Zero) -> Three {
        Three
    }
}

impl AddSpecImpl<Zero> for Three {
    open spec fn obeys_add_spec() -> bool {
        true
    }

    open spec fn add_req(self, rhs: Zero) -> bool {
        true
    }

    open spec fn add_spec(self, rhs: Zero) -> Three {
        Three
    }
}

impl core::ops::Add<One> for Three {
    type Output = Four;

    fn add(self, _rhs: One) -> Four {
        Four
    }
}

impl AddSpecImpl<One> for Three {
    open spec fn obeys_add_spec() -> bool {
        true
    }

    open spec fn add_req(self, rhs: One) -> bool {
        true
    }

    open spec fn add_spec(self, rhs: One) -> Four {
        Four
    }
}

impl core::ops::Add<Two> for Three {
    type Output = Five;

    fn add(self, _rhs: Two) -> Five {
        Five
    }
}

impl AddSpecImpl<Two> for Three {
    open spec fn obeys_add_spec() -> bool {
        true
    }

    open spec fn add_req(self, rhs: Two) -> bool {
        true
    }

    open spec fn add_spec(self, rhs: Two) -> Five {
        Five
    }
}

impl IsZero for Zero {
}

} // verus!
