use vstd::prelude::*;
use super::{BigInt, BigSerial, Double, Float, Integer, NativeSqlType, Serial, SmallInt, SmallSerial};

verus! {

/// A SQL type whose values can be added; `Output` is the type of the sum.
pub trait Add {
    type Output: NativeSqlType;
}

/// A SQL type whose values can be subtracted; `Output` is the type of the difference.
pub trait Sub {
    type Output: NativeSqlType;
}

/// A SQL type whose values can be multiplied; `Output` is the type of the product.
pub trait Mul {
    type Output: NativeSqlType;
}

/// A SQL type whose values can be divided; `Output` is the type of the quotient.
pub trait Div {
    type Output: NativeSqlType;
}

impl Add for SmallSerial {
    type Output = SmallSerial;
}

impl Sub for SmallSerial {
    type Output = SmallSerial;
}

impl Mul for SmallSerial {
    type Output = SmallSerial;
}

impl Div for SmallSerial {
    type Output = SmallSerial;
}

impl Add for Serial {
    type Output = Serial;
}

impl Sub for Serial {
    type Output = Serial;
}

impl Mul for Serial {
    type Output = Serial;
}

impl Div for Serial {
    type Output = Serial;
}

impl Add for BigSerial {
    type Output = BigSerial;
}

impl Sub for BigSerial {
    type Output = BigSerial;
}

impl Mul for BigSerial {
    type Output = BigSerial;
}

impl Div for BigSerial {
    type Output = BigSerial;
}

impl Add for SmallInt {
    type Output = SmallInt;
}

impl Sub for SmallInt {
    type Output = SmallInt;
}

impl Mul for SmallInt {
    type Output = SmallInt;
}

impl Div for SmallInt {
    type Output = SmallInt;
}

impl Add for Integer {
    type Output = Integer;
}

impl Sub for Integer {
    type Output = Integer;
}

impl Mul for Integer {
    type Output = Integer;
}

impl Div for Integer {
    type Output = Integer;
}

impl Add for BigInt {
    type Output = BigInt;
}

impl Sub for BigInt {
    type Output = BigInt;
}

impl Mul for BigInt {
    type Output = BigInt;
}

impl Div for BigInt {
    type Output = BigInt;
}

impl Add for Float {
    type Output = Float;
}

impl Sub for Float {
    type Output = Float;
}

impl Mul for Float {
    type Output = Float;
}

impl Div for Float {
    type Output = Float;
}

impl Add for Double {
    type Output = Double;
}

impl Sub for Double {
    type Output = Double;
}

impl Mul for Double {
    type Output = Double;
}

impl Div for Double {
    type Output = Double;
}

} // verus!
