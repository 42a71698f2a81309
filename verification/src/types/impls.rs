use vstd::prelude::*;
use vstd::slice::slice_to_vec;
use vstd::utf8::{decode_utf8, encode_utf8, valid_utf8, encode_utf8_decode_utf8, encode_utf8_valid_utf8};
use crate::result::DecodeError;
use super::{
    BigInt, BigSerial, Binary, Bool, FromSql, Integer, IsNull, NativeSqlType, NotNull, Nullable,
    RoundTrip, Serial, SmallInt, SmallSerial, Text, ToSql, VarChar,
};

verus! {

/// 256 to the power `len`: how many values `len` bytes can write.
pub open spec fn pow256(len: nat) -> nat
    decreases len,
{
    if len == 0 {
        1
    } else {
        256 * pow256((len - 1) as nat)
    }
}

/// The natural number that the bytes write, most significant byte first.
pub open spec fn be_nat(bytes: Seq<u8>) -> nat
    decreases bytes.len(),
{
    if bytes.len() == 0 {
        0
    } else {
        be_nat(bytes.drop_last()) * 256 + bytes.last() as nat
    }
}

/// The `len` bytes that write `n`, most significant byte first.
pub open spec fn be_bytes(n: nat, len: nat) -> Seq<u8>
    decreases len,
{
    if len == 0 {
        Seq::empty()
    } else {
        be_bytes(n / 256, (len - 1) as nat).push((n % 256) as u8)
    }
}

/// Whether `v` is a signed integer of `len` bytes.
pub open spec fn fits_signed(v: int, len: nat) -> bool {
    -(pow256(len) as int) <= 2 * v < pow256(len)
}

/// The two's complement of `v` in `len` bytes.
pub open spec fn unsigned(v: int, len: nat) -> nat {
    if v < 0 {
        (v + pow256(len)) as nat
    } else {
        v as nat
    }
}

/// The signed integer whose two's complement in `len` bytes is `n`.
pub open spec fn signed(n: nat, len: nat) -> int {
    if 2 * n >= pow256(len) {
        n - pow256(len)
    } else {
        n as int
    }
}

/// The bytes of a signed integer of `len` bytes.
pub open spec fn int_encoded(v: int, len: nat) -> Option<Seq<u8>> {
    Some(be_bytes(unsigned(v, len), len))
}

/// Whether the cell holds the signed integer `v` in `len` bytes.
pub open spec fn int_decodes(bytes: Option<Seq<u8>>, len: nat, v: int) -> bool {
    bytes matches Some(b) && b.len() == len && v == signed(be_nat(b), len)
}

/// The error for a cell that must hold exactly `len` bytes.
pub open spec fn fixed_rejects(bytes: Option<Seq<u8>>, len: nat) -> Option<DecodeError> {
    match bytes {
        None => Some(DecodeError::UnexpectedNull),
        Some(b) => if b.len() != len {
            Some(DecodeError::BadLength)
        } else {
            None
        },
    }
}

/// The bytes of a boolean: one byte, 1 for true and 0 for false.
pub open spec fn bool_encoded(v: bool) -> Option<Seq<u8>> {
    Some(seq![if v { 1u8 } else { 0u8 }])
}

/// Whether the cell holds the boolean `v`: one byte, true unless it is 0.
pub open spec fn bool_decodes(bytes: Option<Seq<u8>>, v: bool) -> bool {
    bytes matches Some(b) && b.len() == 1 && v == (b[0] != 0)
}

/// The bytes of a text: its UTF-8 encoding.
pub open spec fn text_encoded(v: Seq<char>) -> Option<Seq<u8>> {
    Some(encode_utf8(v))
}

/// Whether the cell holds the text `v`.
pub open spec fn text_decodes(bytes: Option<Seq<u8>>, v: Seq<char>) -> bool {
    bytes matches Some(b) && valid_utf8(b) && v == decode_utf8(b)
}

/// The error for a cell that must hold a text.
pub open spec fn text_rejects(bytes: Option<Seq<u8>>) -> Option<DecodeError> {
    match bytes {
        None => Some(DecodeError::UnexpectedNull),
        Some(b) => if valid_utf8(b) {
            None
        } else {
            Some(DecodeError::InvalidUtf8)
        },
    }
}

/// The error for a cell that must not be NULL and may hold any bytes.
pub open spec fn null_rejects(bytes: Option<Seq<u8>>) -> Option<DecodeError> {
    match bytes {
        None => Some(DecodeError::UnexpectedNull),
        Some(_) => None,
    }
}

/// The powers of 256 up to the eighth.
pub proof fn lemma_pow256_values()
    ensures
        pow256(0) == 1,
        pow256(1) == 0x100,
        pow256(2) == 0x1_0000,
        pow256(3) == 0x100_0000,
        pow256(4) == 0x1_0000_0000,
        pow256(5) == 0x100_0000_0000,
        pow256(6) == 0x1_0000_0000_0000,
        pow256(7) == 0x100_0000_0000_0000,
        pow256(8) == 0x1_0000_0000_0000_0000,
{
    reveal_with_fuel(pow256, 10);
}

/// A number is written in as many bytes as asked for.
pub proof fn lemma_be_bytes_len(n: nat, len: nat)
    ensures
        be_bytes(n, len).len() == len,
    decreases len,
{
    if len > 0 {
        lemma_be_bytes_len(n / 256, (len - 1) as nat);
    }
}

/// What bytes write is less than 256 to the power of their number.
pub proof fn lemma_be_nat_bound(bytes: Seq<u8>)
    ensures
        be_nat(bytes) < pow256(bytes.len()),
    decreases bytes.len(),
{
    if bytes.len() > 0 {
        lemma_be_nat_bound(bytes.drop_last());
    }
}

/// Reading back the bytes that write `n` gives `n`.
pub proof fn lemma_be_round_trip(n: nat, len: nat)
    requires
        n < pow256(len),
    ensures
        be_nat(be_bytes(n, len)) == n,
    decreases len,
{
    if len > 0 {
        let bytes = be_bytes(n, len);
        assert(bytes.drop_last() =~= be_bytes(n / 256, (len - 1) as nat));
        assert(bytes.last() == (n % 256) as u8);
        lemma_be_round_trip(n / 256, (len - 1) as nat);
    }
}

/// The two's complement of a signed integer of `len` bytes fits in `len`
/// bytes, and is the two's complement of no other such integer.
pub proof fn lemma_signed_round_trip(v: int, len: nat)
    requires
        fits_signed(v, len),
    ensures
        unsigned(v, len) < pow256(len),
        signed(unsigned(v, len), len) == v,
{
}

/// The natural number that up to eight bytes write, most significant byte first.
fn read_be(bytes: &[u8]) -> (r: u64)
    requires
        bytes@.len() <= 8,
    ensures
        r == be_nat(bytes@),
{
    let mut acc: u64 = 0;
    let mut i: usize = 0;
    while i < bytes.len()
        invariant
            i <= bytes@.len() <= 8,
            acc == be_nat(bytes@.take(i as int)),
        decreases bytes@.len() - i,
    {
        proof {
            let done = bytes@.take(i as int);
            let next = bytes@.take(i + 1);
            assert(next.drop_last() =~= done);
            assert(next.last() == bytes@[i as int]);
            lemma_be_nat_bound(next);
            lemma_pow256_values();
            lemma_pow256_monotonic((i + 1) as nat, 8);
        }
        acc = acc * 256 + bytes[i] as u64;
        i += 1;
    }
    assert(bytes@.take(i as int) =~= bytes@);
    acc
}

/// The powers of 256 grow with the exponent.
pub proof fn lemma_pow256_monotonic(a: nat, b: nat)
    requires
        a <= b,
    ensures
        pow256(a) <= pow256(b),
    decreases b,
{
    if a < b {
        lemma_pow256_monotonic(a, (b - 1) as nat);
    }
}

/// Appends the `len` bytes that write `n`, most significant byte first.
fn write_be(n: u64, len: usize, out: &mut Vec<u8>)
    requires
        len <= 8,
    ensures
        final(out)@ == old(out)@ + be_bytes(n as nat, len as nat),
    decreases len,
{
    if len > 0 {
        write_be(n / 256, len - 1, out);
        out.push((n % 256) as u8);
    }
    assert(out@ =~= old(out)@ + be_bytes(n as nat, len as nat));
}

/// The signed integer that two, four or eight bytes write.
fn read_signed(bytes: &[u8]) -> (r: i64)
    requires
        bytes@.len() == 2 || bytes@.len() == 4 || bytes@.len() == 8,
    ensures
        r == signed(be_nat(bytes@), bytes@.len()),
        fits_signed(r as int, bytes@.len()),
{
    proof {
        lemma_pow256_values();
        lemma_be_nat_bound(bytes@);
    }
    let n = read_be(bytes);
    if bytes.len() == 8 {
        if n >= 0x8000_0000_0000_0000 {
            ((n - 0x8000_0000_0000_0000) as i64) + i64::MIN
        } else {
            n as i64
        }
    } else if bytes.len() == 4 {
        if n >= 0x8000_0000 {
            n as i64 - 0x1_0000_0000
        } else {
            n as i64
        }
    } else {
        if n >= 0x8000 {
            n as i64 - 0x1_0000
        } else {
            n as i64
        }
    }
}

/// Appends the two's complement of `v` in two, four or eight bytes.
fn write_signed(v: i64, len: usize, out: &mut Vec<u8>)
    requires
        len == 2 || len == 4 || len == 8,
        fits_signed(v as int, len as nat),
    ensures
        final(out)@ == old(out)@ + be_bytes(unsigned(v as int, len as nat), len as nat),
{
    proof {
        lemma_pow256_values();
    }
    let n: u64 = if v >= 0 {
        v as u64
    } else if len == 8 {
        ((v - i64::MIN) as u64) + 0x8000_0000_0000_0000
    } else if len == 4 {
        (v + 0x1_0000_0000) as u64
    } else {
        (v + 0x1_0000) as u64
    };
    write_be(n, len, out);
}

/// `String::from_utf8`: the text that the bytes encode, or `None` where they
/// are not UTF-8.
#[verifier::external_body]
fn string_from_utf8(bytes: Vec<u8>) -> (r: Option<String>)
    ensures
        match r {
            Some(s) => valid_utf8(bytes@) && s@ == decode_utf8(bytes@),
            None => !valid_utf8(bytes@),
        },
{
    match String::from_utf8(bytes) {
        Ok(s) => Some(s),
        Err(_) => None,
    }
}

/// Reads a cell as a boolean.
pub fn bool_from_sql(bytes: Option<&[u8]>) -> (r: Result<bool, DecodeError>)
    ensures
        match r {
            Ok(v) => fixed_rejects(crate::row::cell_view(bytes), 1) is None && bool_decodes(
                crate::row::cell_view(bytes),
                v,
            ),
            Err(e) => fixed_rejects(crate::row::cell_view(bytes), 1) == Some(e),
        },
{
    match bytes {
        None => Err(DecodeError::UnexpectedNull),
        Some(b) => if b.len() != 1 {
            Err(DecodeError::BadLength)
        } else {
            Ok(b[0] != 0)
        },
    }
}

/// Reads a cell as a signed integer of two, four or eight bytes.
fn int_from_sql(bytes: Option<&[u8]>, len: usize) -> (r: Result<i64, DecodeError>)
    requires
        len == 2 || len == 4 || len == 8,
    ensures
        match r {
            Ok(v) => {
                &&& fixed_rejects(crate::row::cell_view(bytes), len as nat) is None
                &&& int_decodes(crate::row::cell_view(bytes), len as nat, v as int)
                &&& fits_signed(v as int, len as nat)
            },
            Err(e) => fixed_rejects(crate::row::cell_view(bytes), len as nat) == Some(e),
        },
{
    match bytes {
        None => Err(DecodeError::UnexpectedNull),
        Some(b) => if b.len() != len {
            Err(DecodeError::BadLength)
        } else {
            Ok(read_signed(b))
        },
    }
}

/// Reads a cell as a text.
pub fn text_from_sql(bytes: Option<&[u8]>) -> (r: Result<String, DecodeError>)
    ensures
        match r {
            Ok(v) => text_rejects(crate::row::cell_view(bytes)) is None && text_decodes(
                crate::row::cell_view(bytes),
                v@,
            ),
            Err(e) => text_rejects(crate::row::cell_view(bytes)) == Some(e),
        },
{
    match bytes {
        None => Err(DecodeError::UnexpectedNull),
        Some(b) => match string_from_utf8(slice_to_vec(b)) {
            Some(s) => Ok(s),
            None => Err(DecodeError::InvalidUtf8),
        },
    }
}

/// Appends the UTF-8 bytes of a text.
pub fn text_to_sql(text: &str, out: &mut Vec<u8>) -> (r: IsNull)
    ensures
        r == IsNull::No,
        final(out)@ == old(out)@ + encode_utf8(text@),
{
    push_bytes(text.as_bytes(), out);
    IsNull::No
}

/// Appends the bytes of a slice.
pub fn push_bytes(bytes: &[u8], out: &mut Vec<u8>)
    ensures
        final(out)@ == old(out)@ + bytes@,
{
    let mut i: usize = 0;
    while i < bytes.len()
        invariant
            i <= bytes@.len(),
            out@ == old(out)@ + bytes@.take(i as int),
        decreases bytes@.len() - i,
    {
        out.push(bytes[i]);
        assert(out@ =~= old(out)@ + bytes@.take(i + 1));
        i += 1;
    }
    assert(bytes@.take(i as int) =~= bytes@);
}

/// Decoding the bytes of a boolean gives the boolean, and nothing else.
pub proof fn lemma_bool_round_trip(v: bool, w: bool)
    ensures
        fixed_rejects(bool_encoded(v), 1) is None,
        bool_decodes(bool_encoded(v), w) <==> w == v,
{
}

/// Decoding the bytes of a signed integer of `len` bytes gives the integer,
/// and nothing else.
pub proof fn lemma_int_round_trip(v: int, w: int, len: nat)
    requires
        fits_signed(v, len),
    ensures
        fixed_rejects(int_encoded(v, len), len) is None,
        int_decodes(int_encoded(v, len), len, w) <==> w == v,
{
    lemma_signed_round_trip(v, len);
    lemma_be_bytes_len(unsigned(v, len), len);
    lemma_be_round_trip(unsigned(v, len), len);
}

/// Decoding the bytes of a text gives the text, and nothing else.
pub proof fn lemma_text_round_trip(v: Seq<char>, w: Seq<char>)
    ensures
        text_rejects(text_encoded(v)) is None,
        text_decodes(text_encoded(v), w) <==> w == v,
{
    encode_utf8_valid_utf8(v);
    encode_utf8_decode_utf8(v);
}

impl ToSql<SmallInt> for i16 {
    open spec fn encoded(&self) -> Option<Seq<u8>> {
        int_encoded(*self as int, 2)
    }

    fn to_sql(&self, out: &mut Vec<u8>) -> (r: IsNull) {
        proof {
            lemma_pow256_values();
        }
        write_signed(*self as i64, 2, out);
        IsNull::No
    }
}

impl FromSql<SmallInt> for i16 {
    open spec fn decodes(bytes: Option<Seq<u8>>, value: Self) -> bool {
        int_decodes(bytes, 2, value as int)
    }

    open spec fn rejects(bytes: Option<Seq<u8>>) -> Option<DecodeError> {
        fixed_rejects(bytes, 2)
    }

    fn from_sql(bytes: Option<&[u8]>) -> (r: Result<Self, DecodeError>) {
        proof {
            lemma_pow256_values();
        }
        match int_from_sql(bytes, 2) {
            Ok(v) => Ok(v as i16),
            Err(e) => Err(e),
        }
    }
}

impl ToSql<SmallSerial> for i16 {
    open spec fn encoded(&self) -> Option<Seq<u8>> {
        int_encoded(*self as int, 2)
    }

    fn to_sql(&self, out: &mut Vec<u8>) -> (r: IsNull) {
        proof {
            lemma_pow256_values();
        }
        write_signed(*self as i64, 2, out);
        IsNull::No
    }
}

impl FromSql<SmallSerial> for i16 {
    open spec fn decodes(bytes: Option<Seq<u8>>, value: Self) -> bool {
        int_decodes(bytes, 2, value as int)
    }

    open spec fn rejects(bytes: Option<Seq<u8>>) -> Option<DecodeError> {
        fixed_rejects(bytes, 2)
    }

    fn from_sql(bytes: Option<&[u8]>) -> (r: Result<Self, DecodeError>) {
        proof {
            lemma_pow256_values();
        }
        match int_from_sql(bytes, 2) {
            Ok(v) => Ok(v as i16),
            Err(e) => Err(e),
        }
    }
}

impl ToSql<Integer> for i32 {
    open spec fn encoded(&self) -> Option<Seq<u8>> {
        int_encoded(*self as int, 4)
    }

    fn to_sql(&self, out: &mut Vec<u8>) -> (r: IsNull) {
        proof {
            lemma_pow256_values();
        }
        write_signed(*self as i64, 4, out);
        IsNull::No
    }
}

impl FromSql<Integer> for i32 {
    open spec fn decodes(bytes: Option<Seq<u8>>, value: Self) -> bool {
        int_decodes(bytes, 4, value as int)
    }

    open spec fn rejects(bytes: Option<Seq<u8>>) -> Option<DecodeError> {
        fixed_rejects(bytes, 4)
    }

    fn from_sql(bytes: Option<&[u8]>) -> (r: Result<Self, DecodeError>) {
        proof {
            lemma_pow256_values();
        }
        match int_from_sql(bytes, 4) {
            Ok(v) => Ok(v as i32),
            Err(e) => Err(e),
        }
    }
}

impl ToSql<Serial> for i32 {
    open spec fn encoded(&self) -> Option<Seq<u8>> {
        int_encoded(*self as int, 4)
    }

    fn to_sql(&self, out: &mut Vec<u8>) -> (r: IsNull) {
        proof {
            lemma_pow256_values();
        }
        write_signed(*self as i64, 4, out);
        IsNull::No
    }
}

impl FromSql<Serial> for i32 {
    open spec fn decodes(bytes: Option<Seq<u8>>, value: Self) -> bool {
        int_decodes(bytes, 4, value as int)
    }

    open spec fn rejects(bytes: Option<Seq<u8>>) -> Option<DecodeError> {
        fixed_rejects(bytes, 4)
    }

    fn from_sql(bytes: Option<&[u8]>) -> (r: Result<Self, DecodeError>) {
        proof {
            lemma_pow256_values();
        }
        match int_from_sql(bytes, 4) {
            Ok(v) => Ok(v as i32),
            Err(e) => Err(e),
        }
    }
}

impl ToSql<BigInt> for i64 {
    open spec fn encoded(&self) -> Option<Seq<u8>> {
        int_encoded(*self as int, 8)
    }

    fn to_sql(&self, out: &mut Vec<u8>) -> (r: IsNull) {
        proof {
            lemma_pow256_values();
        }
        write_signed(*self as i64, 8, out);
        IsNull::No
    }
}

impl FromSql<BigInt> for i64 {
    open spec fn decodes(bytes: Option<Seq<u8>>, value: Self) -> bool {
        int_decodes(bytes, 8, value as int)
    }

    open spec fn rejects(bytes: Option<Seq<u8>>) -> Option<DecodeError> {
        fixed_rejects(bytes, 8)
    }

    fn from_sql(bytes: Option<&[u8]>) -> (r: Result<Self, DecodeError>) {
        proof {
            lemma_pow256_values();
        }
        match int_from_sql(bytes, 8) {
            Ok(v) => Ok(v),
            Err(e) => Err(e),
        }
    }
}

impl ToSql<BigSerial> for i64 {
    open spec fn encoded(&self) -> Option<Seq<u8>> {
        int_encoded(*self as int, 8)
    }

    fn to_sql(&self, out: &mut Vec<u8>) -> (r: IsNull) {
        proof {
            lemma_pow256_values();
        }
        write_signed(*self as i64, 8, out);
        IsNull::No
    }
}

impl FromSql<BigSerial> for i64 {
    open spec fn decodes(bytes: Option<Seq<u8>>, value: Self) -> bool {
        int_decodes(bytes, 8, value as int)
    }

    open spec fn rejects(bytes: Option<Seq<u8>>) -> Option<DecodeError> {
        fixed_rejects(bytes, 8)
    }

    fn from_sql(bytes: Option<&[u8]>) -> (r: Result<Self, DecodeError>) {
        proof {
            lemma_pow256_values();
        }
        match int_from_sql(bytes, 8) {
            Ok(v) => Ok(v),
            Err(e) => Err(e),
        }
    }
}

impl ToSql<Bool> for bool {
    open spec fn encoded(&self) -> Option<Seq<u8>> {
        bool_encoded(*self)
    }

    fn to_sql(&self, out: &mut Vec<u8>) -> (r: IsNull) {
        out.push(if *self { 1 } else { 0 });
        assert(out@ =~= old(out)@ + seq![if *self { 1u8 } else { 0u8 }]);
        IsNull::No
    }
}

impl FromSql<Bool> for bool {
    open spec fn decodes(bytes: Option<Seq<u8>>, value: Self) -> bool {
        bool_decodes(bytes, value)
    }

    open spec fn rejects(bytes: Option<Seq<u8>>) -> Option<DecodeError> {
        fixed_rejects(bytes, 1)
    }

    fn from_sql(bytes: Option<&[u8]>) -> (r: Result<Self, DecodeError>) {
        bool_from_sql(bytes)
    }
}

impl ToSql<VarChar> for String {
    open spec fn encoded(&self) -> Option<Seq<u8>> {
        text_encoded(self@)
    }

    fn to_sql(&self, out: &mut Vec<u8>) -> (r: IsNull) {
        text_to_sql(self.as_str(), out)
    }
}

impl<'a> ToSql<VarChar> for &'a str {
    open spec fn encoded(&self) -> Option<Seq<u8>> {
        text_encoded(self@)
    }

    fn to_sql(&self, out: &mut Vec<u8>) -> (r: IsNull) {
        text_to_sql(*self, out)
    }
}

impl FromSql<VarChar> for String {
    open spec fn decodes(bytes: Option<Seq<u8>>, value: Self) -> bool {
        text_decodes(bytes, value@)
    }

    open spec fn rejects(bytes: Option<Seq<u8>>) -> Option<DecodeError> {
        text_rejects(bytes)
    }

    fn from_sql(bytes: Option<&[u8]>) -> (r: Result<Self, DecodeError>) {
        text_from_sql(bytes)
    }
}

impl ToSql<Text> for String {
    open spec fn encoded(&self) -> Option<Seq<u8>> {
        text_encoded(self@)
    }

    fn to_sql(&self, out: &mut Vec<u8>) -> (r: IsNull) {
        text_to_sql(self.as_str(), out)
    }
}

impl<'a> ToSql<Text> for &'a str {
    open spec fn encoded(&self) -> Option<Seq<u8>> {
        text_encoded(self@)
    }

    fn to_sql(&self, out: &mut Vec<u8>) -> (r: IsNull) {
        text_to_sql(*self, out)
    }
}

impl FromSql<Text> for String {
    open spec fn decodes(bytes: Option<Seq<u8>>, value: Self) -> bool {
        text_decodes(bytes, value@)
    }

    open spec fn rejects(bytes: Option<Seq<u8>>) -> Option<DecodeError> {
        text_rejects(bytes)
    }

    fn from_sql(bytes: Option<&[u8]>) -> (r: Result<Self, DecodeError>) {
        text_from_sql(bytes)
    }
}

impl ToSql<Binary> for Vec<u8> {
    open spec fn encoded(&self) -> Option<Seq<u8>> {
        Some(self@)
    }

    fn to_sql(&self, out: &mut Vec<u8>) -> (r: IsNull) {
        push_bytes(self.as_slice(), out);
        IsNull::No
    }
}

impl FromSql<Binary> for Vec<u8> {
    open spec fn decodes(bytes: Option<Seq<u8>>, value: Self) -> bool {
        bytes == Some(value@)
    }

    open spec fn rejects(bytes: Option<Seq<u8>>) -> Option<DecodeError> {
        null_rejects(bytes)
    }

    fn from_sql(bytes: Option<&[u8]>) -> (r: Result<Self, DecodeError>) {
        match bytes {
            None => Err(DecodeError::UnexpectedNull),
            Some(b) => Ok(slice_to_vec(b)),
        }
    }
}

impl<A: NativeSqlType, T: ToSql<A>> ToSql<Nullable<A>> for Option<T> {
    open spec fn encoded(&self) -> Option<Seq<u8>> {
        match self {
            Some(v) => v.encoded(),
            None => None,
        }
    }

    fn to_sql(&self, out: &mut Vec<u8>) -> (r: IsNull) {
        match self {
            Some(v) => v.to_sql(out),
            None => IsNull::Yes,
        }
    }
}

impl<A: NativeSqlType, T: FromSql<A>> FromSql<Nullable<A>> for Option<T> {
    open spec fn decodes(bytes: Option<Seq<u8>>, value: Self) -> bool {
        match bytes {
            None => value is None,
            Some(_) => value matches Some(v) && T::decodes(bytes, v),
        }
    }

    open spec fn rejects(bytes: Option<Seq<u8>>) -> Option<DecodeError> {
        match bytes {
            None => None,
            Some(_) => T::rejects(bytes),
        }
    }

    fn from_sql(bytes: Option<&[u8]>) -> (r: Result<Self, DecodeError>) {
        match bytes {
            None => Ok(None),
            Some(_) => match T::from_sql(bytes) {
                Ok(v) => Ok(Some(v)),
                Err(e) => Err(e),
            },
        }
    }
}

impl RoundTrip<SmallInt> for i16 {
    open spec fn same(self, other: Self) -> bool {
        self == other
    }

    proof fn lemma_round_trip(v: Self, w: Self) {
        lemma_pow256_values();
        lemma_int_round_trip(v as int, w as int, 2);
    }
}

impl NotNull<SmallInt> for i16 {
    proof fn lemma_not_null(v: Self) {
    }
}

impl RoundTrip<SmallSerial> for i16 {
    open spec fn same(self, other: Self) -> bool {
        self == other
    }

    proof fn lemma_round_trip(v: Self, w: Self) {
        lemma_pow256_values();
        lemma_int_round_trip(v as int, w as int, 2);
    }
}

impl NotNull<SmallSerial> for i16 {
    proof fn lemma_not_null(v: Self) {
    }
}

impl RoundTrip<Integer> for i32 {
    open spec fn same(self, other: Self) -> bool {
        self == other
    }

    proof fn lemma_round_trip(v: Self, w: Self) {
        lemma_pow256_values();
        lemma_int_round_trip(v as int, w as int, 4);
    }
}

impl NotNull<Integer> for i32 {
    proof fn lemma_not_null(v: Self) {
    }
}

impl RoundTrip<Serial> for i32 {
    open spec fn same(self, other: Self) -> bool {
        self == other
    }

    proof fn lemma_round_trip(v: Self, w: Self) {
        lemma_pow256_values();
        lemma_int_round_trip(v as int, w as int, 4);
    }
}

impl NotNull<Serial> for i32 {
    proof fn lemma_not_null(v: Self) {
    }
}

impl RoundTrip<BigInt> for i64 {
    open spec fn same(self, other: Self) -> bool {
        self == other
    }

    proof fn lemma_round_trip(v: Self, w: Self) {
        lemma_pow256_values();
        lemma_int_round_trip(v as int, w as int, 8);
    }
}

impl NotNull<BigInt> for i64 {
    proof fn lemma_not_null(v: Self) {
    }
}

impl RoundTrip<BigSerial> for i64 {
    open spec fn same(self, other: Self) -> bool {
        self == other
    }

    proof fn lemma_round_trip(v: Self, w: Self) {
        lemma_pow256_values();
        lemma_int_round_trip(v as int, w as int, 8);
    }
}

impl NotNull<BigSerial> for i64 {
    proof fn lemma_not_null(v: Self) {
    }
}

impl RoundTrip<Bool> for bool {
    open spec fn same(self, other: Self) -> bool {
        self == other
    }

    proof fn lemma_round_trip(v: Self, w: Self) {
        lemma_bool_round_trip(v, w);
    }
}

impl NotNull<Bool> for bool {
    proof fn lemma_not_null(v: Self) {
    }
}

impl RoundTrip<VarChar> for String {
    open spec fn same(self, other: Self) -> bool {
        self@ == other@
    }

    proof fn lemma_round_trip(v: Self, w: Self) {
        lemma_text_round_trip(v@, w@);
    }
}

impl NotNull<VarChar> for String {
    proof fn lemma_not_null(v: Self) {
    }
}

impl RoundTrip<Text> for String {
    open spec fn same(self, other: Self) -> bool {
        self@ == other@
    }

    proof fn lemma_round_trip(v: Self, w: Self) {
        lemma_text_round_trip(v@, w@);
    }
}

impl NotNull<Text> for String {
    proof fn lemma_not_null(v: Self) {
    }
}

impl RoundTrip<Binary> for Vec<u8> {
    open spec fn same(self, other: Self) -> bool {
        self@ == other@
    }

    proof fn lemma_round_trip(v: Self, w: Self) {
    }
}

impl NotNull<Binary> for Vec<u8> {
    proof fn lemma_not_null(v: Self) {
    }
}

/// A nullable value is read back as it was written: NULL as `None` only,
/// and `Some(x)` as `Some` of what `x` is read back as.
impl<A: NativeSqlType, T: NotNull<A>> RoundTrip<Nullable<A>> for Option<T> {
    open spec fn same(self, other: Self) -> bool {
        match (self, other) {
            (None, None) => true,
            (Some(x), Some(y)) => x.same(y),
            _ => false,
        }
    }

    proof fn lemma_round_trip(v: Self, w: Self) {
        match v {
            Some(x) => {
                T::lemma_not_null(x);
                match w {
                    Some(y) => {
                        T::lemma_round_trip(x, y);
                    },
                    None => {
                        T::lemma_round_trip(x, x);
                    },
                }
            },
            None => {},
        }
    }
}

} // verus!
