use yaqb::types::{
    Array, BigInt, BigSerial, Binary, Bool, Double, Float, FromSql, Integer, IsNull, Many,
    NativeSqlType, Nullable, Serial, SmallInt, SmallSerial, Text, ToSql, ValuesToSql, VarChar,
};
use yaqb::row::{DbRows, Rows};
use yaqb::types::FromSqlRow;
use yaqb::{DbResult, DecodeError};

fn encode<A: NativeSqlType, T: ToSql<A>>(value: &T) -> Option<Vec<u8>> {
    let mut out = Vec::new();
    match <T as ToSql<A>>::to_sql(value, &mut out) {
        IsNull::No => Some(out),
        IsNull::Yes => {
            assert!(out.is_empty());
            None
        }
    }
}

fn decode<A: NativeSqlType, T: FromSql<A>>(bytes: &Option<Vec<u8>>) -> Result<T, DecodeError> {
    <T as FromSql<A>>::from_sql(bytes.as_ref().map(|b| b.as_slice()))
}

#[test]
fn type_numbers() {
    assert_eq!(Bool::oid(), 16);
    assert_eq!(SmallInt::oid(), 21);
    assert_eq!(SmallSerial::oid(), 21);
    assert_eq!(Integer::oid(), 23);
    assert_eq!(Serial::oid(), 23);
    assert_eq!(BigInt::oid(), 20);
    assert_eq!(BigSerial::oid(), 20);
    assert_eq!(Float::oid(), 700);
    assert_eq!(Double::oid(), 701);
    assert_eq!(VarChar::oid(), 1043);
    assert_eq!(Text::oid(), 25);
    assert_eq!(Binary::oid(), 17);
    assert_eq!(<Nullable<Integer>>::oid(), 23);
    assert_eq!(<Array<Integer>>::oid(), 1007);
    assert_eq!(<Array<VarChar>>::oid(), 1015);
    assert_eq!(<Array<Integer>>::array_oid(), 0);
    assert_eq!(<Many<Integer>>::oid(), 0);
    assert_eq!(<(Integer, VarChar)>::oid(), 0);
    assert_eq!(Bool::array_oid(), 1000);
    assert_eq!(BigInt::array_oid(), 1016);
}

#[test]
fn integer_bytes_are_big_endian_twos_complement() {
    assert_eq!(encode::<Integer, i32>(&1), Some(vec![0, 0, 0, 1]));
    assert_eq!(encode::<Integer, i32>(&-1), Some(vec![255, 255, 255, 255]));
    assert_eq!(encode::<Integer, i32>(&0x01020304), Some(vec![1, 2, 3, 4]));
    assert_eq!(encode::<Integer, i32>(&i32::MIN), Some(vec![128, 0, 0, 0]));
    assert_eq!(encode::<Integer, i32>(&i32::MAX), Some(vec![127, 255, 255, 255]));
    assert_eq!(encode::<SmallInt, i16>(&-2), Some(vec![255, 254]));
    assert_eq!(encode::<SmallInt, i16>(&258), Some(vec![1, 2]));
    assert_eq!(encode::<BigInt, i64>(&2), Some(vec![0, 0, 0, 0, 0, 0, 0, 2]));
    assert_eq!(encode::<BigInt, i64>(&i64::MIN), Some(vec![128, 0, 0, 0, 0, 0, 0, 0]));
    assert_eq!(encode::<BigInt, i64>(&-1), Some(vec![255; 8]));
}

#[test]
fn integers_decode_from_their_bytes() {
    assert_eq!(decode::<Integer, i32>(&Some(vec![0, 0, 1, 0])), Ok(256));
    assert_eq!(decode::<Integer, i32>(&Some(vec![255, 255, 255, 254])), Ok(-2));
    assert_eq!(decode::<Serial, i32>(&Some(vec![0, 0, 0, 7])), Ok(7));
    assert_eq!(decode::<SmallInt, i16>(&Some(vec![128, 0])), Ok(i16::MIN));
    assert_eq!(decode::<BigInt, i64>(&Some(vec![127, 255, 255, 255, 255, 255, 255, 255])), Ok(i64::MAX));
    assert_eq!(decode::<BigSerial, i64>(&Some(vec![0, 0, 0, 0, 0, 0, 1, 1])), Ok(257));
}

#[test]
fn integers_round_trip() {
    for v in [0i32, 1, -1, 42, -42, 65536, i32::MIN, i32::MAX, 0x7f00ff01, -0x7f00ff01] {
        assert_eq!(decode::<Integer, i32>(&encode::<Integer, i32>(&v)), Ok(v));
        assert_eq!(decode::<Serial, i32>(&encode::<Serial, i32>(&v)), Ok(v));
    }
    for v in [0i16, 1, -1, 255, 256, -256, i16::MIN, i16::MAX] {
        assert_eq!(decode::<SmallInt, i16>(&encode::<SmallInt, i16>(&v)), Ok(v));
        assert_eq!(decode::<SmallSerial, i16>(&encode::<SmallSerial, i16>(&v)), Ok(v));
    }
    for v in [0i64, 1, -1, 1 << 40, -(1 << 40), i64::MIN, i64::MAX, i64::MIN + 1] {
        assert_eq!(decode::<BigInt, i64>(&encode::<BigInt, i64>(&v)), Ok(v));
        assert_eq!(decode::<BigSerial, i64>(&encode::<BigSerial, i64>(&v)), Ok(v));
    }
}

#[test]
fn booleans_round_trip() {
    assert_eq!(encode::<Bool, bool>(&true), Some(vec![1]));
    assert_eq!(encode::<Bool, bool>(&false), Some(vec![0]));
    assert_eq!(decode::<Bool, bool>(&Some(vec![1])), Ok(true));
    assert_eq!(decode::<Bool, bool>(&Some(vec![0])), Ok(false));
    assert_eq!(decode::<Bool, bool>(&Some(vec![7])), Ok(true));
}

#[test]
fn text_round_trips() {
    for s in ["", "Sean", "naïve ünïcödé ✓ 𝄞", "with \"quotes\"", "nul\0inside"] {
        let v = s.to_string();
        let bytes = encode::<VarChar, String>(&v);
        assert_eq!(bytes, Some(s.as_bytes().to_vec()));
        assert_eq!(decode::<VarChar, String>(&bytes), Ok(v.clone()));
        assert_eq!(decode::<Text, String>(&encode::<Text, String>(&v)), Ok(v.clone()));
        assert_eq!(encode::<VarChar, &str>(&s), Some(s.as_bytes().to_vec()));
    }
}

#[test]
fn bytes_round_trip() {
    for v in [vec![], vec![0u8], vec![1, 2, 3, 255, 0, 128]] {
        let bytes = encode::<Binary, Vec<u8>>(&v);
        assert_eq!(bytes, Some(v.clone()));
        assert_eq!(decode::<Binary, Vec<u8>>(&bytes), Ok(v));
    }
}

#[test]
fn nullable_round_trips_including_null() {
    let none: Option<i32> = None;
    assert_eq!(encode::<Nullable<Integer>, Option<i32>>(&none), None);
    assert_eq!(decode::<Nullable<Integer>, Option<i32>>(&None), Ok(None));
    let some = Some(-5i32);
    let bytes = encode::<Nullable<Integer>, Option<i32>>(&some);
    assert_eq!(bytes, Some(vec![255, 255, 255, 251]));
    assert_eq!(decode::<Nullable<Integer>, Option<i32>>(&bytes), Ok(some));
    let text = Some("black".to_string());
    let bytes = encode::<Nullable<VarChar>, Option<String>>(&text);
    assert_eq!(decode::<Nullable<VarChar>, Option<String>>(&bytes), Ok(text));
    assert_eq!(decode::<Nullable<VarChar>, Option<String>>(&None), Ok(None));
}

#[test]
fn null_where_the_type_has_none_is_an_error() {
    assert_eq!(decode::<Integer, i32>(&None), Err(DecodeError::UnexpectedNull));
    assert_eq!(decode::<SmallInt, i16>(&None), Err(DecodeError::UnexpectedNull));
    assert_eq!(decode::<BigInt, i64>(&None), Err(DecodeError::UnexpectedNull));
    assert_eq!(decode::<Bool, bool>(&None), Err(DecodeError::UnexpectedNull));
    assert_eq!(decode::<VarChar, String>(&None), Err(DecodeError::UnexpectedNull));
    assert_eq!(decode::<Binary, Vec<u8>>(&None), Err(DecodeError::UnexpectedNull));
}

#[test]
fn wrong_number_of_bytes_is_an_error() {
    assert_eq!(decode::<Integer, i32>(&Some(vec![0, 0, 1])), Err(DecodeError::BadLength));
    assert_eq!(decode::<Integer, i32>(&Some(vec![0, 0, 0, 0, 1])), Err(DecodeError::BadLength));
    assert_eq!(decode::<Integer, i32>(&Some(vec![])), Err(DecodeError::BadLength));
    assert_eq!(decode::<SmallInt, i16>(&Some(vec![0, 0, 0, 1])), Err(DecodeError::BadLength));
    assert_eq!(decode::<BigInt, i64>(&Some(vec![0, 0, 0, 1])), Err(DecodeError::BadLength));
    assert_eq!(decode::<Bool, bool>(&Some(vec![])), Err(DecodeError::BadLength));
    assert_eq!(decode::<Bool, bool>(&Some(vec![1, 0])), Err(DecodeError::BadLength));
    assert_eq!(
        decode::<Nullable<Integer>, Option<i32>>(&Some(vec![1])),
        Err(DecodeError::BadLength)
    );
}

#[test]
fn text_that_is_not_utf8_is_an_error() {
    assert_eq!(decode::<VarChar, String>(&Some(vec![0xff, 0xfe])), Err(DecodeError::InvalidUtf8));
    assert_eq!(decode::<Text, String>(&Some(vec![b'a', 0xc3])), Err(DecodeError::InvalidUtf8));
    assert_eq!(decode::<VarChar, String>(&Some(vec![0xed, 0xa0, 0x80])), Err(DecodeError::InvalidUtf8));
}

#[test]
fn decode_error_descriptions() {
    assert_eq!(DecodeError::UnexpectedNull.description(), "unexpected null for a non-null column");
    assert_eq!(
        DecodeError::BadLength.description(),
        "unexpected number of bytes for the column's type"
    );
    assert_eq!(
        DecodeError::InvalidUtf8.description(),
        "text column holds bytes that are not UTF-8"
    );
}

#[test]
fn values_to_sql_gives_one_bound_value() {
    assert_eq!(<i32 as ValuesToSql<Integer>>::values_to_sql(&3), vec![Some(vec![0, 0, 0, 3])]);
    let none: Option<String> = None;
    assert_eq!(<Option<String> as ValuesToSql<Nullable<VarChar>>>::values_to_sql(&none), vec![None]);
    assert_eq!(
        <&str as ValuesToSql<VarChar>>::values_to_sql(&"Jim"),
        vec![Some(b"Jim".to_vec())]
    );
}

fn through_a_row<A: NativeSqlType, T: ToSql<A> + FromSql<A>>(value: &T) -> Result<T, DecodeError> {
    let cells = <T as ValuesToSql<A>>::values_to_sql(value);
    let mut rows = DbRows::new(DbResult::new(0, vec![cells]));
    let mut row = rows.next().unwrap();
    let read = <T as FromSqlRow<A>>::build_from_row(&mut row);
    assert_eq!(row.col_idx, 1);
    read
}

#[test]
fn values_written_and_read_from_a_row_are_unchanged() {
    assert_eq!(through_a_row::<Integer, i32>(&-77), Ok(-77));
    assert_eq!(through_a_row::<SmallSerial, i16>(&300), Ok(300));
    assert_eq!(through_a_row::<BigInt, i64>(&i64::MIN), Ok(i64::MIN));
    assert_eq!(through_a_row::<Bool, bool>(&true), Ok(true));
    assert_eq!(through_a_row::<Text, String>(&"Tess".to_string()), Ok("Tess".to_string()));
    assert_eq!(through_a_row::<Binary, Vec<u8>>(&vec![0, 1, 2]), Ok(vec![0, 1, 2]));
    assert_eq!(through_a_row::<Nullable<Integer>, Option<i32>>(&None), Ok(None));
    assert_eq!(through_a_row::<Nullable<VarChar>, Option<String>>(&Some("x".to_string())), Ok(Some("x".to_string())));
}
