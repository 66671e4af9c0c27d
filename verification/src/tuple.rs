use vstd::prelude::*;
use crate::Validator;

verus! {

/// The failure of a two-position tuple validation: one optional slot per
/// position, present exactly when that position failed.
#[derive(Debug, PartialEq, Clone)]
pub struct TupleError2<A, B>(pub Option<A>, pub Option<B>);

/// The failure of a three-position tuple validation.
#[derive(Debug, PartialEq, Clone)]
pub struct TupleError3<A, B, C>(pub Option<A>, pub Option<B>, pub Option<C>);

impl<V0, V1, T0, T1> Validator<(T0, T1)> for (V0, V1) where
    V0: Validator<T0>,
    V1: Validator<T1>,
{
    type Error = TupleError2<V0::Error, V1::Error>;

    open spec fn spec_valid(&self, value: (T0, T1)) -> bool {
        self.0.spec_valid(value.0) && self.1.spec_valid(value.1)
    }

    open spec fn spec_error(&self, value: (T0, T1), error: TupleError2<V0::Error, V1::Error>) -> bool {
        &&& (error.0 is Some <==> !self.0.spec_valid(value.0))
        &&& (error.1 is Some <==> !self.1.spec_valid(value.1))
        &&& (error.0 matches Some(e) ==> self.0.spec_error(value.0, e))
        &&& (error.1 matches Some(e) ==> self.1.spec_error(value.1, e))
    }

    fn validate(&self, value: &(T0, T1)) -> (r: Result<(), TupleError2<V0::Error, V1::Error>>) {
        let r0 = self.0.validate(&value.0);
        let r1 = self.1.validate(&value.1);
        match (r0, r1) {
            (Ok(()), Ok(())) => Ok(()),
            (e0, e1) => Err(TupleError2(e0.err(), e1.err())),
        }
    }
}

impl<V0, V1, V2, T0, T1, T2> Validator<(T0, T1, T2)> for (V0, V1, V2) where
    V0: Validator<T0>,
    V1: Validator<T1>,
    V2: Validator<T2>,
{
    type Error = TupleError3<V0::Error, V1::Error, V2::Error>;

    open spec fn spec_valid(&self, value: (T0, T1, T2)) -> bool {
        self.0.spec_valid(value.0) && self.1.spec_valid(value.1) && self.2.spec_valid(value.2)
    }

    open spec fn spec_error(
        &self,
        value: (T0, T1, T2),
        error: TupleError3<V0::Error, V1::Error, V2::Error>,
    ) -> bool {
        &&& (error.0 is Some <==> !self.0.spec_valid(value.0))
        &&& (error.1 is Some <==> !self.1.spec_valid(value.1))
        &&& (error.2 is Some <==> !self.2.spec_valid(value.2))
        &&& (error.0 matches Some(e) ==> self.0.spec_error(value.0, e))
        &&& (error.1 matches Some(e) ==> self.1.spec_error(value.1, e))
        &&& (error.2 matches Some(e) ==> self.2.spec_error(value.2, e))
    }

    fn validate(&self, value: &(T0, T1, T2)) -> (r: Result<
        (),
        TupleError3<V0::Error, V1::Error, V2::Error>,
    >) {
        let r0 = self.0.validate(&value.0);
        let r1 = self.1.validate(&value.1);
        let r2 = self.2.validate(&value.2);
        match (r0, r1, r2) {
            (Ok(()), Ok(()), Ok(())) => Ok(()),
            (e0, e1, e2) => Err(TupleError3(e0.err(), e1.err(), e2.err())),
        }
    }
}

/// The failure of a 4-position tuple validation.
#[derive(Debug, PartialEq, Clone)]
pub struct TupleError4<A0, A1, A2, A3>(pub Option<A0>, pub Option<A1>, pub Option<A2>, pub Option<A3>);

impl<V0, V1, V2, V3, T0, T1, T2, T3> Validator<(T0, T1, T2, T3)> for (V0, V1, V2, V3) where
    V0: Validator<T0>,
    V1: Validator<T1>,
    V2: Validator<T2>,
    V3: Validator<T3>,
{
    type Error = TupleError4<V0::Error, V1::Error, V2::Error, V3::Error>;

    open spec fn spec_valid(&self, value: (T0, T1, T2, T3)) -> bool {
        self.0.spec_valid(value.0) && self.1.spec_valid(value.1) && self.2.spec_valid(value.2) && self.3.spec_valid(value.3)
    }

    open spec fn spec_error(
        &self,
        value: (T0, T1, T2, T3),
        error: TupleError4<V0::Error, V1::Error, V2::Error, V3::Error>,
    ) -> bool {
        &&& (error.0 is Some <==> !self.0.spec_valid(value.0))
        &&& (error.1 is Some <==> !self.1.spec_valid(value.1))
        &&& (error.2 is Some <==> !self.2.spec_valid(value.2))
        &&& (error.3 is Some <==> !self.3.spec_valid(value.3))
        &&& (error.0 matches Some(e) ==> self.0.spec_error(value.0, e))
        &&& (error.1 matches Some(e) ==> self.1.spec_error(value.1, e))
        &&& (error.2 matches Some(e) ==> self.2.spec_error(value.2, e))
        &&& (error.3 matches Some(e) ==> self.3.spec_error(value.3, e))
    }

    fn validate(&self, value: &(T0, T1, T2, T3)) -> (r: Result<
        (),
        TupleError4<V0::Error, V1::Error, V2::Error, V3::Error>,
    >) {
        let r0 = self.0.validate(&value.0);
        let r1 = self.1.validate(&value.1);
        let r2 = self.2.validate(&value.2);
        let r3 = self.3.validate(&value.3);
        if r0.is_ok() && r1.is_ok() && r2.is_ok() && r3.is_ok() {
            Ok(())
        } else {
            Err(TupleError4(r0.err(), r1.err(), r2.err(), r3.err()))
        }
    }
}

/// The failure of a 5-position tuple validation.
#[derive(Debug, PartialEq, Clone)]
pub struct TupleError5<A0, A1, A2, A3, A4>(pub Option<A0>, pub Option<A1>, pub Option<A2>, pub Option<A3>, pub Option<A4>);

impl<V0, V1, V2, V3, V4, T0, T1, T2, T3, T4> Validator<(T0, T1, T2, T3, T4)> for (V0, V1, V2, V3, V4) where
    V0: Validator<T0>,
    V1: Validator<T1>,
    V2: Validator<T2>,
    V3: Validator<T3>,
    V4: Validator<T4>,
{
    type Error = TupleError5<V0::Error, V1::Error, V2::Error, V3::Error, V4::Error>;

    open spec fn spec_valid(&self, value: (T0, T1, T2, T3, T4)) -> bool {
        self.0.spec_valid(value.0) && self.1.spec_valid(value.1) && self.2.spec_valid(value.2) && self.3.spec_valid(value.3) && self.4.spec_valid(value.4)
    }

    open spec fn spec_error(
        &self,
        value: (T0, T1, T2, T3, T4),
        error: TupleError5<V0::Error, V1::Error, V2::Error, V3::Error, V4::Error>,
    ) -> bool {
        &&& (error.0 is Some <==> !self.0.spec_valid(value.0))
        &&& (error.1 is Some <==> !self.1.spec_valid(value.1))
        &&& (error.2 is Some <==> !self.2.spec_valid(value.2))
        &&& (error.3 is Some <==> !self.3.spec_valid(value.3))
        &&& (error.4 is Some <==> !self.4.spec_valid(value.4))
        &&& (error.0 matches Some(e) ==> self.0.spec_error(value.0, e))
        &&& (error.1 matches Some(e) ==> self.1.spec_error(value.1, e))
        &&& (error.2 matches Some(e) ==> self.2.spec_error(value.2, e))
        &&& (error.3 matches Some(e) ==> self.3.spec_error(value.3, e))
        &&& (error.4 matches Some(e) ==> self.4.spec_error(value.4, e))
    }

    fn validate(&self, value: &(T0, T1, T2, T3, T4)) -> (r: Result<
        (),
        TupleError5<V0::Error, V1::Error, V2::Error, V3::Error, V4::Error>,
    >) {
        let r0 = self.0.validate(&value.0);
        let r1 = self.1.validate(&value.1);
        let r2 = self.2.validate(&value.2);
        let r3 = self.3.validate(&value.3);
        let r4 = self.4.validate(&value.4);
        if r0.is_ok() && r1.is_ok() && r2.is_ok() && r3.is_ok() && r4.is_ok() {
            Ok(())
        } else {
            Err(TupleError5(r0.err(), r1.err(), r2.err(), r3.err(), r4.err()))
        }
    }
}

/// The failure of a 6-position tuple validation.
#[derive(Debug, PartialEq, Clone)]
pub struct TupleError6<A0, A1, A2, A3, A4, A5>(pub Option<A0>, pub Option<A1>, pub Option<A2>, pub Option<A3>, pub Option<A4>, pub Option<A5>);

impl<V0, V1, V2, V3, V4, V5, T0, T1, T2, T3, T4, T5> Validator<(T0, T1, T2, T3, T4, T5)> for (V0, V1, V2, V3, V4, V5) where
    V0: Validator<T0>,
    V1: Validator<T1>,
    V2: Validator<T2>,
    V3: Validator<T3>,
    V4: Validator<T4>,
    V5: Validator<T5>,
{
    type Error = TupleError6<V0::Error, V1::Error, V2::Error, V3::Error, V4::Error, V5::Error>;

    open spec fn spec_valid(&self, value: (T0, T1, T2, T3, T4, T5)) -> bool {
        self.0.spec_valid(value.0) && self.1.spec_valid(value.1) && self.2.spec_valid(value.2) && self.3.spec_valid(value.3) && self.4.spec_valid(value.4) && self.5.spec_valid(value.5)
    }

    open spec fn spec_error(
        &self,
        value: (T0, T1, T2, T3, T4, T5),
        error: TupleError6<V0::Error, V1::Error, V2::Error, V3::Error, V4::Error, V5::Error>,
    ) -> bool {
        &&& (error.0 is Some <==> !self.0.spec_valid(value.0))
        &&& (error.1 is Some <==> !self.1.spec_valid(value.1))
        &&& (error.2 is Some <==> !self.2.spec_valid(value.2))
        &&& (error.3 is Some <==> !self.3.spec_valid(value.3))
        &&& (error.4 is Some <==> !self.4.spec_valid(value.4))
        &&& (error.5 is Some <==> !self.5.spec_valid(value.5))
        &&& (error.0 matches Some(e) ==> self.0.spec_error(value.0, e))
        &&& (error.1 matches Some(e) ==> self.1.spec_error(value.1, e))
        &&& (error.2 matches Some(e) ==> self.2.spec_error(value.2, e))
        &&& (error.3 matches Some(e) ==> self.3.spec_error(value.3, e))
        &&& (error.4 matches Some(e) ==> self.4.spec_error(value.4, e))
        &&& (error.5 matches Some(e) ==> self.5.spec_error(value.5, e))
    }

    fn validate(&self, value: &(T0, T1, T2, T3, T4, T5)) -> (r: Result<
        (),
        TupleError6<V0::Error, V1::Error, V2::Error, V3::Error, V4::Error, V5::Error>,
    >) {
        let r0 = self.0.validate(&value.0);
        let r1 = self.1.validate(&value.1);
        let r2 = self.2.validate(&value.2);
        let r3 = self.3.validate(&value.3);
        let r4 = self.4.validate(&value.4);
        let r5 = self.5.validate(&value.5);
        if r0.is_ok() && r1.is_ok() && r2.is_ok() && r3.is_ok() && r4.is_ok() && r5.is_ok() {
            Ok(())
        } else {
            Err(TupleError6(r0.err(), r1.err(), r2.err(), r3.err(), r4.err(), r5.err()))
        }
    }
}

/// The failure of a 7-position tuple validation.
#[derive(Debug, PartialEq, Clone)]
pub struct TupleError7<A0, A1, A2, A3, A4, A5, A6>(pub Option<A0>, pub Option<A1>, pub Option<A2>, pub Option<A3>, pub Option<A4>, pub Option<A5>, pub Option<A6>);

impl<V0, V1, V2, V3, V4, V5, V6, T0, T1, T2, T3, T4, T5, T6> Validator<(T0, T1, T2, T3, T4, T5, T6)> for (V0, V1, V2, V3, V4, V5, V6) where
    V0: Validator<T0>,
    V1: Validator<T1>,
    V2: Validator<T2>,
    V3: Validator<T3>,
    V4: Validator<T4>,
    V5: Validator<T5>,
    V6: Validator<T6>,
{
    type Error = TupleError7<V0::Error, V1::Error, V2::Error, V3::Error, V4::Error, V5::Error, V6::Error>;

    open spec fn spec_valid(&self, value: (T0, T1, T2, T3, T4, T5, T6)) -> bool {
        self.0.spec_valid(value.0) && self.1.spec_valid(value.1) && self.2.spec_valid(value.2) && self.3.spec_valid(value.3) && self.4.spec_valid(value.4) && self.5.spec_valid(value.5) && self.6.spec_valid(value.6)
    }

    open spec fn spec_error(
        &self,
        value: (T0, T1, T2, T3, T4, T5, T6),
        error: TupleError7<V0::Error, V1::Error, V2::Error, V3::Error, V4::Error, V5::Error, V6::Error>,
    ) -> bool {
        &&& (error.0 is Some <==> !self.0.spec_valid(value.0))
        &&& (error.1 is Some <==> !self.1.spec_valid(value.1))
        &&& (error.2 is Some <==> !self.2.spec_valid(value.2))
        &&& (error.3 is Some <==> !self.3.spec_valid(value.3))
        &&& (error.4 is Some <==> !self.4.spec_valid(value.4))
        &&& (error.5 is Some <==> !self.5.spec_valid(value.5))
        &&& (error.6 is Some <==> !self.6.spec_valid(value.6))
        &&& (error.0 matches Some(e) ==> self.0.spec_error(value.0, e))
        &&& (error.1 matches Some(e) ==> self.1.spec_error(value.1, e))
        &&& (error.2 matches Some(e) ==> self.2.spec_error(value.2, e))
        &&& (error.3 matches Some(e) ==> self.3.spec_error(value.3, e))
        &&& (error.4 matches Some(e) ==> self.4.spec_error(value.4, e))
        &&& (error.5 matches Some(e) ==> self.5.spec_error(value.5, e))
        &&& (error.6 matches Some(e) ==> self.6.spec_error(value.6, e))
    }

    fn validate(&self, value: &(T0, T1, T2, T3, T4, T5, T6)) -> (r: Result<
        (),
        TupleError7<V0::Error, V1::Error, V2::Error, V3::Error, V4::Error, V5::Error, V6::Error>,
    >) {
        let r0 = self.0.validate(&value.0);
        let r1 = self.1.validate(&value.1);
        let r2 = self.2.validate(&value.2);
        let r3 = self.3.validate(&value.3);
        let r4 = self.4.validate(&value.4);
        let r5 = self.5.validate(&value.5);
        let r6 = self.6.validate(&value.6);
        if r0.is_ok() && r1.is_ok() && r2.is_ok() && r3.is_ok() && r4.is_ok() && r5.is_ok() && r6.is_ok() {
            Ok(())
        } else {
            Err(TupleError7(r0.err(), r1.err(), r2.err(), r3.err(), r4.err(), r5.err(), r6.err()))
        }
    }
}

/// The failure of a 8-position tuple validation.
#[derive(Debug, PartialEq, Clone)]
pub struct TupleError8<A0, A1, A2, A3, A4, A5, A6, A7>(pub Option<A0>, pub Option<A1>, pub Option<A2>, pub Option<A3>, pub Option<A4>, pub Option<A5>, pub Option<A6>, pub Option<A7>);

impl<V0, V1, V2, V3, V4, V5, V6, V7, T0, T1, T2, T3, T4, T5, T6, T7> Validator<(T0, T1, T2, T3, T4, T5, T6, T7)> for (V0, V1, V2, V3, V4, V5, V6, V7) where
    V0: Validator<T0>,
    V1: Validator<T1>,
    V2: Validator<T2>,
    V3: Validator<T3>,
    V4: Validator<T4>,
    V5: Validator<T5>,
    V6: Validator<T6>,
    V7: Validator<T7>,
{
    type Error = TupleError8<V0::Error, V1::Error, V2::Error, V3::Error, V4::Error, V5::Error, V6::Error, V7::Error>;

    open spec fn spec_valid(&self, value: (T0, T1, T2, T3, T4, T5, T6, T7)) -> bool {
        self.0.spec_valid(value.0) && self.1.spec_valid(value.1) && self.2.spec_valid(value.2) && self.3.spec_valid(value.3) && self.4.spec_valid(value.4) && self.5.spec_valid(value.5) && self.6.spec_valid(value.6) && self.7.spec_valid(value.7)
    }

    open spec fn spec_error(
        &self,
        value: (T0, T1, T2, T3, T4, T5, T6, T7),
        error: TupleError8<V0::Error, V1::Error, V2::Error, V3::Error, V4::Error, V5::Error, V6::Error, V7::Error>,
    ) -> bool {
        &&& (error.0 is Some <==> !self.0.spec_valid(value.0))
        &&& (error.1 is Some <==> !self.1.spec_valid(value.1))
        &&& (error.2 is Some <==> !self.2.spec_valid(value.2))
        &&& (error.3 is Some <==> !self.3.spec_valid(value.3))
        &&& (error.4 is Some <==> !self.4.spec_valid(value.4))
        &&& (error.5 is Some <==> !self.5.spec_valid(value.5))
        &&& (error.6 is Some <==> !self.6.spec_valid(value.6))
        &&& (error.7 is Some <==> !self.7.spec_valid(value.7))
        &&& (error.0 matches Some(e) ==> self.0.spec_error(value.0, e))
        &&& (error.1 matches Some(e) ==> self.1.spec_error(value.1, e))
        &&& (error.2 matches Some(e) ==> self.2.spec_error(value.2, e))
        &&& (error.3 matches Some(e) ==> self.3.spec_error(value.3, e))
        &&& (error.4 matches Some(e) ==> self.4.spec_error(value.4, e))
        &&& (error.5 matches Some(e) ==> self.5.spec_error(value.5, e))
        &&& (error.6 matches Some(e) ==> self.6.spec_error(value.6, e))
        &&& (error.7 matches Some(e) ==> self.7.spec_error(value.7, e))
    }

    fn validate(&self, value: &(T0, T1, T2, T3, T4, T5, T6, T7)) -> (r: Result<
        (),
        TupleError8<V0::Error, V1::Error, V2::Error, V3::Error, V4::Error, V5::Error, V6::Error, V7::Error>,
    >) {
        let r0 = self.0.validate(&value.0);
        let r1 = self.1.validate(&value.1);
        let r2 = self.2.validate(&value.2);
        let r3 = self.3.validate(&value.3);
        let r4 = self.4.validate(&value.4);
        let r5 = self.5.validate(&value.5);
        let r6 = self.6.validate(&value.6);
        let r7 = self.7.validate(&value.7);
        if r0.is_ok() && r1.is_ok() && r2.is_ok() && r3.is_ok() && r4.is_ok() && r5.is_ok() && r6.is_ok() && r7.is_ok() {
            Ok(())
        } else {
            Err(TupleError8(r0.err(), r1.err(), r2.err(), r3.err(), r4.err(), r5.err(), r6.err(), r7.err()))
        }
    }
}

/// The failure of a 9-position tuple validation.
#[derive(Debug, PartialEq, Clone)]
pub struct TupleError9<A0, A1, A2, A3, A4, A5, A6, A7, A8>(pub Option<A0>, pub Option<A1>, pub Option<A2>, pub Option<A3>, pub Option<A4>, pub Option<A5>, pub Option<A6>, pub Option<A7>, pub Option<A8>);

impl<V0, V1, V2, V3, V4, V5, V6, V7, V8, T0, T1, T2, T3, T4, T5, T6, T7, T8> Validator<(T0, T1, T2, T3, T4, T5, T6, T7, T8)> for (V0, V1, V2, V3, V4, V5, V6, V7, V8) where
    V0: Validator<T0>,
    V1: Validator<T1>,
    V2: Validator<T2>,
    V3: Validator<T3>,
    V4: Validator<T4>,
    V5: Validator<T5>,
    V6: Validator<T6>,
    V7: Validator<T7>,
    V8: Validator<T8>,
{
    type Error = TupleError9<V0::Error, V1::Error, V2::Error, V3::Error, V4::Error, V5::Error, V6::Error, V7::Error, V8::Error>;

    open spec fn spec_valid(&self, value: (T0, T1, T2, T3, T4, T5, T6, T7, T8)) -> bool {
        self.0.spec_valid(value.0) && self.1.spec_valid(value.1) && self.2.spec_valid(value.2) && self.3.spec_valid(value.3) && self.4.spec_valid(value.4) && self.5.spec_valid(value.5) && self.6.spec_valid(value.6) && self.7.spec_valid(value.7) && self.8.spec_valid(value.8)
    }

    open spec fn spec_error(
        &self,
        value: (T0, T1, T2, T3, T4, T5, T6, T7, T8),
        error: TupleError9<V0::Error, V1::Error, V2::Error, V3::Error, V4::Error, V5::Error, V6::Error, V7::Error, V8::Error>,
    ) -> bool {
        &&& (error.0 is Some <==> !self.0.spec_valid(value.0))
        &&& (error.1 is Some <==> !self.1.spec_valid(value.1))
        &&& (error.2 is Some <==> !self.2.spec_valid(value.2))
        &&& (error.3 is Some <==> !self.3.spec_valid(value.3))
        &&& (error.4 is Some <==> !self.4.spec_valid(value.4))
        &&& (error.5 is Some <==> !self.5.spec_valid(value.5))
        &&& (error.6 is Some <==> !self.6.spec_valid(value.6))
        &&& (error.7 is Some <==> !self.7.spec_valid(value.7))
        &&& (error.8 is Some <==> !self.8.spec_valid(value.8))
        &&& (error.0 matches Some(e) ==> self.0.spec_error(value.0, e))
        &&& (error.1 matches Some(e) ==> self.1.spec_error(value.1, e))
        &&& (error.2 matches Some(e) ==> self.2.spec_error(value.2, e))
        &&& (error.3 matches Some(e) ==> self.3.spec_error(value.3, e))
        &&& (error.4 matches Some(e) ==> self.4.spec_error(value.4, e))
        &&& (error.5 matches Some(e) ==> self.5.spec_error(value.5, e))
        &&& (error.6 matches Some(e) ==> self.6.spec_error(value.6, e))
        &&& (error.7 matches Some(e) ==> self.7.spec_error(value.7, e))
        &&& (error.8 matches Some(e) ==> self.8.spec_error(value.8, e))
    }

    fn validate(&self, value: &(T0, T1, T2, T3, T4, T5, T6, T7, T8)) -> (r: Result<
        (),
        TupleError9<V0::Error, V1::Error, V2::Error, V3::Error, V4::Error, V5::Error, V6::Error, V7::Error, V8::Error>,
    >) {
        let r0 = self.0.validate(&value.0);
        let r1 = self.1.validate(&value.1);
        let r2 = self.2.validate(&value.2);
        let r3 = self.3.validate(&value.3);
        let r4 = self.4.validate(&value.4);
        let r5 = self.5.validate(&value.5);
        let r6 = self.6.validate(&value.6);
        let r7 = self.7.validate(&value.7);
        let r8 = self.8.validate(&value.8);
        if r0.is_ok() && r1.is_ok() && r2.is_ok() && r3.is_ok() && r4.is_ok() && r5.is_ok() && r6.is_ok() && r7.is_ok() && r8.is_ok() {
            Ok(())
        } else {
            Err(TupleError9(r0.err(), r1.err(), r2.err(), r3.err(), r4.err(), r5.err(), r6.err(), r7.err(), r8.err()))
        }
    }
}

/// The failure of a 10-position tuple validation.
#[derive(Debug, PartialEq, Clone)]
pub struct TupleError10<A0, A1, A2, A3, A4, A5, A6, A7, A8, A9>(pub Option<A0>, pub Option<A1>, pub Option<A2>, pub Option<A3>, pub Option<A4>, pub Option<A5>, pub Option<A6>, pub Option<A7>, pub Option<A8>, pub Option<A9>);

impl<V0, V1, V2, V3, V4, V5, V6, V7, V8, V9, T0, T1, T2, T3, T4, T5, T6, T7, T8, T9> Validator<(T0, T1, T2, T3, T4, T5, T6, T7, T8, T9)> for (V0, V1, V2, V3, V4, V5, V6, V7, V8, V9) where
    V0: Validator<T0>,
    V1: Validator<T1>,
    V2: Validator<T2>,
    V3: Validator<T3>,
    V4: Validator<T4>,
    V5: Validator<T5>,
    V6: Validator<T6>,
    V7: Validator<T7>,
    V8: Validator<T8>,
    V9: Validator<T9>,
{
    type Error = TupleError10<V0::Error, V1::Error, V2::Error, V3::Error, V4::Error, V5::Error, V6::Error, V7::Error, V8::Error, V9::Error>;

    open spec fn spec_valid(&self, value: (T0, T1, T2, T3, T4, T5, T6, T7, T8, T9)) -> bool {
        self.0.spec_valid(value.0) && self.1.spec_valid(value.1) && self.2.spec_valid(value.2) && self.3.spec_valid(value.3) && self.4.spec_valid(value.4) && self.5.spec_valid(value.5) && self.6.spec_valid(value.6) && self.7.spec_valid(value.7) && self.8.spec_valid(value.8) && self.9.spec_valid(value.9)
    }

    open spec fn spec_error(
        &self,
        value: (T0, T1, T2, T3, T4, T5, T6, T7, T8, T9),
        error: TupleError10<V0::Error, V1::Error, V2::Error, V3::Error, V4::Error, V5::Error, V6::Error, V7::Error, V8::Error, V9::Error>,
    ) -> bool {
        &&& (error.0 is Some <==> !self.0.spec_valid(value.0))
        &&& (error.1 is Some <==> !self.1.spec_valid(value.1))
        &&& (error.2 is Some <==> !self.2.spec_valid(value.2))
        &&& (error.3 is Some <==> !self.3.spec_valid(value.3))
        &&& (error.4 is Some <==> !self.4.spec_valid(value.4))
        &&& (error.5 is Some <==> !self.5.spec_valid(value.5))
        &&& (error.6 is Some <==> !self.6.spec_valid(value.6))
        &&& (error.7 is Some <==> !self.7.spec_valid(value.7))
        &&& (error.8 is Some <==> !self.8.spec_valid(value.8))
        &&& (error.9 is Some <==> !self.9.spec_valid(value.9))
        &&& (error.0 matches Some(e) ==> self.0.spec_error(value.0, e))
        &&& (error.1 matches Some(e) ==> self.1.spec_error(value.1, e))
        &&& (error.2 matches Some(e) ==> self.2.spec_error(value.2, e))
        &&& (error.3 matches Some(e) ==> self.3.spec_error(value.3, e))
        &&& (error.4 matches Some(e) ==> self.4.spec_error(value.4, e))
        &&& (error.5 matches Some(e) ==> self.5.spec_error(value.5, e))
        &&& (error.6 matches Some(e) ==> self.6.spec_error(value.6, e))
        &&& (error.7 matches Some(e) ==> self.7.spec_error(value.7, e))
        &&& (error.8 matches Some(e) ==> self.8.spec_error(value.8, e))
        &&& (error.9 matches Some(e) ==> self.9.spec_error(value.9, e))
    }

    fn validate(&self, value: &(T0, T1, T2, T3, T4, T5, T6, T7, T8, T9)) -> (r: Result<
        (),
        TupleError10<V0::Error, V1::Error, V2::Error, V3::Error, V4::Error, V5::Error, V6::Error, V7::Error, V8::Error, V9::Error>,
    >) {
        let r0 = self.0.validate(&value.0);
        let r1 = self.1.validate(&value.1);
        let r2 = self.2.validate(&value.2);
        let r3 = self.3.validate(&value.3);
        let r4 = self.4.validate(&value.4);
        let r5 = self.5.validate(&value.5);
        let r6 = self.6.validate(&value.6);
        let r7 = self.7.validate(&value.7);
        let r8 = self.8.validate(&value.8);
        let r9 = self.9.validate(&value.9);
        if r0.is_ok() && r1.is_ok() && r2.is_ok() && r3.is_ok() && r4.is_ok() && r5.is_ok() && r6.is_ok() && r7.is_ok() && r8.is_ok() && r9.is_ok() {
            Ok(())
        } else {
            Err(TupleError10(r0.err(), r1.err(), r2.err(), r3.err(), r4.err(), r5.err(), r6.err(), r7.err(), r8.err(), r9.err()))
        }
    }
}

/// The failure of a 11-position tuple validation.
#[derive(Debug, PartialEq, Clone)]
pub struct TupleError11<A0, A1, A2, A3, A4, A5, A6, A7, A8, A9, A10>(pub Option<A0>, pub Option<A1>, pub Option<A2>, pub Option<A3>, pub Option<A4>, pub Option<A5>, pub Option<A6>, pub Option<A7>, pub Option<A8>, pub Option<A9>, pub Option<A10>);

impl<V0, V1, V2, V3, V4, V5, V6, V7, V8, V9, V10, T0, T1, T2, T3, T4, T5, T6, T7, T8, T9, T10> Validator<(T0, T1, T2, T3, T4, T5, T6, T7, T8, T9, T10)> for (V0, V1, V2, V3, V4, V5, V6, V7, V8, V9, V10) where
    V0: Validator<T0>,
    V1: Validator<T1>,
    V2: Validator<T2>,
    V3: Validator<T3>,
    V4: Validator<T4>,
    V5: Validator<T5>,
    V6: Validator<T6>,
    V7: Validator<T7>,
    V8: Validator<T8>,
    V9: Validator<T9>,
    V10: Validator<T10>,
{
    type Error = TupleError11<V0::Error, V1::Error, V2::Error, V3::Error, V4::Error, V5::Error, V6::Error, V7::Error, V8::Error, V9::Error, V10::Error>;

    open spec fn spec_valid(&self, value: (T0, T1, T2, T3, T4, T5, T6, T7, T8, T9, T10)) -> bool {
        self.0.spec_valid(value.0) && self.1.spec_valid(value.1) && self.2.spec_valid(value.2) && self.3.spec_valid(value.3) && self.4.spec_valid(value.4) && self.5.spec_valid(value.5) && self.6.spec_valid(value.6) && self.7.spec_valid(value.7) && self.8.spec_valid(value.8) && self.9.spec_valid(value.9) && self.10.spec_valid(value.10)
    }

    open spec fn spec_error(
        &self,
        value: (T0, T1, T2, T3, T4, T5, T6, T7, T8, T9, T10),
        error: TupleError11<V0::Error, V1::Error, V2::Error, V3::Error, V4::Error, V5::Error, V6::Error, V7::Error, V8::Error, V9::Error, V10::Error>,
    ) -> bool {
        &&& (error.0 is Some <==> !self.0.spec_valid(value.0))
        &&& (error.1 is Some <==> !self.1.spec_valid(value.1))
        &&& (error.2 is Some <==> !self.2.spec_valid(value.2))
        &&& (error.3 is Some <==> !self.3.spec_valid(value.3))
        &&& (error.4 is Some <==> !self.4.spec_valid(value.4))
        &&& (error.5 is Some <==> !self.5.spec_valid(value.5))
        &&& (error.6 is Some <==> !self.6.spec_valid(value.6))
        &&& (error.7 is Some <==> !self.7.spec_valid(value.7))
        &&& (error.8 is Some <==> !self.8.spec_valid(value.8))
        &&& (error.9 is Some <==> !self.9.spec_valid(value.9))
        &&& (error.10 is Some <==> !self.10.spec_valid(value.10))
        &&& (error.0 matches Some(e) ==> self.0.spec_error(value.0, e))
        &&& (error.1 matches Some(e) ==> self.1.spec_error(value.1, e))
        &&& (error.2 matches Some(e) ==> self.2.spec_error(value.2, e))
        &&& (error.3 matches Some(e) ==> self.3.spec_error(value.3, e))
        &&& (error.4 matches Some(e) ==> self.4.spec_error(value.4, e))
        &&& (error.5 matches Some(e) ==> self.5.spec_error(value.5, e))
        &&& (error.6 matches Some(e) ==> self.6.spec_error(value.6, e))
        &&& (error.7 matches Some(e) ==> self.7.spec_error(value.7, e))
        &&& (error.8 matches Some(e) ==> self.8.spec_error(value.8, e))
        &&& (error.9 matches Some(e) ==> self.9.spec_error(value.9, e))
        &&& (error.10 matches Some(e) ==> self.10.spec_error(value.10, e))
    }

    fn validate(&self, value: &(T0, T1, T2, T3, T4, T5, T6, T7, T8, T9, T10)) -> (r: Result<
        (),
        TupleError11<V0::Error, V1::Error, V2::Error, V3::Error, V4::Error, V5::Error, V6::Error, V7::Error, V8::Error, V9::Error, V10::Error>,
    >) {
        let r0 = self.0.validate(&value.0);
        let r1 = self.1.validate(&value.1);
        let r2 = self.2.validate(&value.2);
        let r3 = self.3.validate(&value.3);
        let r4 = self.4.validate(&value.4);
        let r5 = self.5.validate(&value.5);
        let r6 = self.6.validate(&value.6);
        let r7 = self.7.validate(&value.7);
        let r8 = self.8.validate(&value.8);
        let r9 = self.9.validate(&value.9);
        let r10 = self.10.validate(&value.10);
        if r0.is_ok() && r1.is_ok() && r2.is_ok() && r3.is_ok() && r4.is_ok() && r5.is_ok() && r6.is_ok() && r7.is_ok() && r8.is_ok() && r9.is_ok() && r10.is_ok() {
            Ok(())
        } else {
            Err(TupleError11(r0.err(), r1.err(), r2.err(), r3.err(), r4.err(), r5.err(), r6.err(), r7.err(), r8.err(), r9.err(), r10.err()))
        }
    }
}

/// The failure of a 12-position tuple validation.
#[derive(Debug, PartialEq, Clone)]
pub struct TupleError12<A0, A1, A2, A3, A4, A5, A6, A7, A8, A9, A10, A11>(pub Option<A0>, pub Option<A1>, pub Option<A2>, pub Option<A3>, pub Option<A4>, pub Option<A5>, pub Option<A6>, pub Option<A7>, pub Option<A8>, pub Option<A9>, pub Option<A10>, pub Option<A11>);

impl<V0, V1, V2, V3, V4, V5, V6, V7, V8, V9, V10, V11, T0, T1, T2, T3, T4, T5, T6, T7, T8, T9, T10, T11> Validator<(T0, T1, T2, T3, T4, T5, T6, T7, T8, T9, T10, T11)> for (V0, V1, V2, V3, V4, V5, V6, V7, V8, V9, V10, V11) where
    V0: Validator<T0>,
    V1: Validator<T1>,
    V2: Validator<T2>,
    V3: Validator<T3>,
    V4: Validator<T4>,
    V5: Validator<T5>,
    V6: Validator<T6>,
    V7: Validator<T7>,
    V8: Validator<T8>,
    V9: Validator<T9>,
    V10: Validator<T10>,
    V11: Validator<T11>,
{
    type Error = TupleError12<V0::Error, V1::Error, V2::Error, V3::Error, V4::Error, V5::Error, V6::Error, V7::Error, V8::Error, V9::Error, V10::Error, V11::Error>;

    open spec fn spec_valid(&self, value: (T0, T1, T2, T3, T4, T5, T6, T7, T8, T9, T10, T11)) -> bool {
        self.0.spec_valid(value.0) && self.1.spec_valid(value.1) && self.2.spec_valid(value.2) && self.3.spec_valid(value.3) && self.4.spec_valid(value.4) && self.5.spec_valid(value.5) && self.6.spec_valid(value.6) && self.7.spec_valid(value.7) && self.8.spec_valid(value.8) && self.9.spec_valid(value.9) && self.10.spec_valid(value.10) && self.11.spec_valid(value.11)
    }

    open spec fn spec_error(
        &self,
        value: (T0, T1, T2, T3, T4, T5, T6, T7, T8, T9, T10, T11),
        error: TupleError12<V0::Error, V1::Error, V2::Error, V3::Error, V4::Error, V5::Error, V6::Error, V7::Error, V8::Error, V9::Error, V10::Error, V11::Error>,
    ) -> bool {
        &&& (error.0 is Some <==> !self.0.spec_valid(value.0))
        &&& (error.1 is Some <==> !self.1.spec_valid(value.1))
        &&& (error.2 is Some <==> !self.2.spec_valid(value.2))
        &&& (error.3 is Some <==> !self.3.spec_valid(value.3))
        &&& (error.4 is Some <==> !self.4.spec_valid(value.4))
        &&& (error.5 is Some <==> !self.5.spec_valid(value.5))
        &&& (error.6 is Some <==> !self.6.spec_valid(value.6))
        &&& (error.7 is Some <==> !self.7.spec_valid(value.7))
        &&& (error.8 is Some <==> !self.8.spec_valid(value.8))
        &&& (error.9 is Some <==> !self.9.spec_valid(value.9))
        &&& (error.10 is Some <==> !self.10.spec_valid(value.10))
        &&& (error.11 is Some <==> !self.11.spec_valid(value.11))
        &&& (error.0 matches Some(e) ==> self.0.spec_error(value.0, e))
        &&& (error.1 matches Some(e) ==> self.1.spec_error(value.1, e))
        &&& (error.2 matches Some(e) ==> self.2.spec_error(value.2, e))
        &&& (error.3 matches Some(e) ==> self.3.spec_error(value.3, e))
        &&& (error.4 matches Some(e) ==> self.4.spec_error(value.4, e))
        &&& (error.5 matches Some(e) ==> self.5.spec_error(value.5, e))
        &&& (error.6 matches Some(e) ==> self.6.spec_error(value.6, e))
        &&& (error.7 matches Some(e) ==> self.7.spec_error(value.7, e))
        &&& (error.8 matches Some(e) ==> self.8.spec_error(value.8, e))
        &&& (error.9 matches Some(e) ==> self.9.spec_error(value.9, e))
        &&& (error.10 matches Some(e) ==> self.10.spec_error(value.10, e))
        &&& (error.11 matches Some(e) ==> self.11.spec_error(value.11, e))
    }

    fn validate(&self, value: &(T0, T1, T2, T3, T4, T5, T6, T7, T8, T9, T10, T11)) -> (r: Result<
        (),
        TupleError12<V0::Error, V1::Error, V2::Error, V3::Error, V4::Error, V5::Error, V6::Error, V7::Error, V8::Error, V9::Error, V10::Error, V11::Error>,
    >) {
        let r0 = self.0.validate(&value.0);
        let r1 = self.1.validate(&value.1);
        let r2 = self.2.validate(&value.2);
        let r3 = self.3.validate(&value.3);
        let r4 = self.4.validate(&value.4);
        let r5 = self.5.validate(&value.5);
        let r6 = self.6.validate(&value.6);
        let r7 = self.7.validate(&value.7);
        let r8 = self.8.validate(&value.8);
        let r9 = self.9.validate(&value.9);
        let r10 = self.10.validate(&value.10);
        let r11 = self.11.validate(&value.11);
        if r0.is_ok() && r1.is_ok() && r2.is_ok() && r3.is_ok() && r4.is_ok() && r5.is_ok() && r6.is_ok() && r7.is_ok() && r8.is_ok() && r9.is_ok() && r10.is_ok() && r11.is_ok() {
            Ok(())
        } else {
            Err(TupleError12(r0.err(), r1.err(), r2.err(), r3.err(), r4.err(), r5.err(), r6.err(), r7.err(), r8.err(), r9.err(), r10.err(), r11.err()))
        }
    }
}

/// The failure of a 13-position tuple validation.
#[derive(Debug, PartialEq, Clone)]
pub struct TupleError13<A0, A1, A2, A3, A4, A5, A6, A7, A8, A9, A10, A11, A12>(pub Option<A0>, pub Option<A1>, pub Option<A2>, pub Option<A3>, pub Option<A4>, pub Option<A5>, pub Option<A6>, pub Option<A7>, pub Option<A8>, pub Option<A9>, pub Option<A10>, pub Option<A11>, pub Option<A12>);

impl<V0, V1, V2, V3, V4, V5, V6, V7, V8, V9, V10, V11, V12, T0, T1, T2, T3, T4, T5, T6, T7, T8, T9, T10, T11, T12> Validator<(T0, T1, T2, T3, T4, T5, T6, T7, T8, T9, T10, T11, T12)> for (V0, V1, V2, V3, V4, V5, V6, V7, V8, V9, V10, V11, V12) where
    V0: Validator<T0>,
    V1: Validator<T1>,
    V2: Validator<T2>,
    V3: Validator<T3>,
    V4: Validator<T4>,
    V5: Validator<T5>,
    V6: Validator<T6>,
    V7: Validator<T7>,
    V8: Validator<T8>,
    V9: Validator<T9>,
    V10: Validator<T10>,
    V11: Validator<T11>,
    V12: Validator<T12>,
{
    type Error = TupleError13<V0::Error, V1::Error, V2::Error, V3::Error, V4::Error, V5::Error, V6::Error, V7::Error, V8::Error, V9::Error, V10::Error, V11::Error, V12::Error>;

    open spec fn spec_valid(&self, value: (T0, T1, T2, T3, T4, T5, T6, T7, T8, T9, T10, T11, T12)) -> bool {
        self.0.spec_valid(value.0) && self.1.spec_valid(value.1) && self.2.spec_valid(value.2) && self.3.spec_valid(value.3) && self.4.spec_valid(value.4) && self.5.spec_valid(value.5) && self.6.spec_valid(value.6) && self.7.spec_valid(value.7) && self.8.spec_valid(value.8) && self.9.spec_valid(value.9) && self.10.spec_valid(value.10) && self.11.spec_valid(value.11) && self.12.spec_valid(value.12)
    }

    open spec fn spec_error(
        &self,
        value: (T0, T1, T2, T3, T4, T5, T6, T7, T8, T9, T10, T11, T12),
        error: TupleError13<V0::Error, V1::Error, V2::Error, V3::Error, V4::Error, V5::Error, V6::Error, V7::Error, V8::Error, V9::Error, V10::Error, V11::Error, V12::Error>,
    ) -> bool {
        &&& (error.0 is Some <==> !self.0.spec_valid(value.0))
        &&& (error.1 is Some <==> !self.1.spec_valid(value.1))
        &&& (error.2 is Some <==> !self.2.spec_valid(value.2))
        &&& (error.3 is Some <==> !self.3.spec_valid(value.3))
        &&& (error.4 is Some <==> !self.4.spec_valid(value.4))
        &&& (error.5 is Some <==> !self.5.spec_valid(value.5))
        &&& (error.6 is Some <==> !self.6.spec_valid(value.6))
        &&& (error.7 is Some <==> !self.7.spec_valid(value.7))
        &&& (error.8 is Some <==> !self.8.spec_valid(value.8))
        &&& (error.9 is Some <==> !self.9.spec_valid(value.9))
        &&& (error.10 is Some <==> !self.10.spec_valid(value.10))
        &&& (error.11 is Some <==> !self.11.spec_valid(value.11))
        &&& (error.12 is Some <==> !self.12.spec_valid(value.12))
        &&& (error.0 matches Some(e) ==> self.0.spec_error(value.0, e))
        &&& (error.1 matches Some(e) ==> self.1.spec_error(value.1, e))
        &&& (error.2 matches Some(e) ==> self.2.spec_error(value.2, e))
        &&& (error.3 matches Some(e) ==> self.3.spec_error(value.3, e))
        &&& (error.4 matches Some(e) ==> self.4.spec_error(value.4, e))
        &&& (error.5 matches Some(e) ==> self.5.spec_error(value.5, e))
        &&& (error.6 matches Some(e) ==> self.6.spec_error(value.6, e))
        &&& (error.7 matches Some(e) ==> self.7.spec_error(value.7, e))
        &&& (error.8 matches Some(e) ==> self.8.spec_error(value.8, e))
        &&& (error.9 matches Some(e) ==> self.9.spec_error(value.9, e))
        &&& (error.10 matches Some(e) ==> self.10.spec_error(value.10, e))
        &&& (error.11 matches Some(e) ==> self.11.spec_error(value.11, e))
        &&& (error.12 matches Some(e) ==> self.12.spec_error(value.12, e))
    }

    fn validate(&self, value: &(T0, T1, T2, T3, T4, T5, T6, T7, T8, T9, T10, T11, T12)) -> (r: Result<
        (),
        TupleError13<V0::Error, V1::Error, V2::Error, V3::Error, V4::Error, V5::Error, V6::Error, V7::Error, V8::Error, V9::Error, V10::Error, V11::Error, V12::Error>,
    >) {
        let r0 = self.0.validate(&value.0);
        let r1 = self.1.validate(&value.1);
        let r2 = self.2.validate(&value.2);
        let r3 = self.3.validate(&value.3);
        let r4 = self.4.validate(&value.4);
        let r5 = self.5.validate(&value.5);
        let r6 = self.6.validate(&value.6);
        let r7 = self.7.validate(&value.7);
        let r8 = self.8.validate(&value.8);
        let r9 = self.9.validate(&value.9);
        let r10 = self.10.validate(&value.10);
        let r11 = self.11.validate(&value.11);
        let r12 = self.12.validate(&value.12);
        if r0.is_ok() && r1.is_ok() && r2.is_ok() && r3.is_ok() && r4.is_ok() && r5.is_ok() && r6.is_ok() && r7.is_ok() && r8.is_ok() && r9.is_ok() && r10.is_ok() && r11.is_ok() && r12.is_ok() {
            Ok(())
        } else {
            Err(TupleError13(r0.err(), r1.err(), r2.err(), r3.err(), r4.err(), r5.err(), r6.err(), r7.err(), r8.err(), r9.err(), r10.err(), r11.err(), r12.err()))
        }
    }
}

/// Every position of a two-position tuple is checked unconditionally, and the
/// failure, if any, has exactly one optional slot per position.
pub proof fn lemma_tuple2_semantics<V0, V1, T0, T1>(
    v: (V0, V1),
    value: (T0, T1),
    error: TupleError2<V0::Error, V1::Error>,
)
    where V0: Validator<T0>, V1: Validator<T1>
    ensures
        v.spec_valid(value) <==> (v.0.spec_valid(value.0) && v.1.spec_valid(value.1)),
        v.spec_error(value, error) ==> ((error.0 is Some <==> !v.0.spec_valid(value.0))
            && (error.1 is Some <==> !v.1.spec_valid(value.1))),
{
}

} // verus!
