use dtypes::{CodecSlice, Dtype, Layout, NumVec, TimestampMicros};

type Tagged = NumVec<u32, u64>;

#[test]
fn wrap_i32_gives_i32_variant() {
    let v: Vec<i32> = vec![1, -2, 3];
    let tagged: Tagged = <i32 as Dtype>::num_vec(v.clone());
    match &tagged {
        NumVec::I32(inner) => assert_eq!(inner, &vec![1, -2, 3]),
        _ => panic!("expected the 32-bit integer variant"),
    }
    assert_eq!(tagged.layout(), Layout::Int32);
    assert_eq!(tagged.len(), 3);
}

#[test]
fn i32_parquet_view_is_same_memory() {
    let v: Vec<i32> = vec![1, -2, 3];
    let view = <i32 as Dtype>::slice_to_parquet(&v);
    assert!(matches!(view, CodecSlice::Borrowed(_)));
    assert_eq!(view.as_slice(), &[1, -2, 3][..]);
    assert_eq!(view.as_slice().as_ptr(), v.as_ptr());
}

#[test]
fn identity_views_borrow_the_source() {
    let a: Vec<i32> = vec![4, 5];
    assert_eq!(<i32 as Dtype>::slice_to_pco(&a).as_slice().as_ptr(), a.as_ptr());
    let b: Vec<i64> = vec![-9, 9, 0];
    assert_eq!(<i64 as Dtype>::slice_to_parquet(&b).as_slice().as_ptr(), b.as_ptr());
    assert_eq!(<i64 as Dtype>::slice_to_pco(&b).as_slice().as_ptr(), b.as_ptr());
}

#[test]
fn identity_vec_conversions_keep_the_buffer() {
    let v: Vec<i64> = vec![1, 2, 3, i64::MIN, i64::MAX];
    let ptr = v.as_ptr();
    let cap = v.capacity();
    let back = <i64 as Dtype>::vec_from_parquet(v);
    assert_eq!(back.as_ptr(), ptr);
    assert_eq!(back.capacity(), cap);
    let again = <i64 as Dtype>::vec_from_pco(back);
    assert_eq!(again.as_ptr(), ptr);
    assert_eq!(again.capacity(), cap);
    assert_eq!(again, vec![1, 2, 3, i64::MIN, i64::MAX]);

    let w: Vec<i32> = vec![i32::MIN, 0, i32::MAX];
    let ptr = w.as_ptr();
    let w = <i32 as Dtype>::vec_from_pco(w);
    let w = <i32 as Dtype>::vec_from_parquet(w);
    assert_eq!(w.as_ptr(), ptr);
    assert_eq!(w, vec![i32::MIN, 0, i32::MAX]);
}

#[test]
fn timestamp_views_give_raw_micros() {
    let ts = vec![
        TimestampMicros::new(1_600_000_000_000_000),
        TimestampMicros::new(-1),
    ];
    let parquet = <TimestampMicros as Dtype>::slice_to_parquet(&ts);
    assert_eq!(parquet.as_slice(), &[1_600_000_000_000_000i64, -1][..]);
    let pco = <TimestampMicros as Dtype>::slice_to_pco(&ts);
    assert_eq!(pco.as_slice(), &[1_600_000_000_000_000i64, -1][..]);
    let back = <TimestampMicros as Dtype>::vec_from_parquet(parquet.as_slice().to_vec());
    assert_eq!(back, ts);
    let back = <TimestampMicros as Dtype>::vec_from_pco(pco.as_slice().to_vec());
    assert_eq!(back, ts);
}

#[test]
fn timestamp_wraps_into_i64_variant() {
    let ts = vec![TimestampMicros::new(10), TimestampMicros::new(-20), TimestampMicros::new(30)];
    let tagged: Tagged = <TimestampMicros as Dtype>::num_vec(ts);
    match &tagged {
        NumVec::I64(inner) => assert_eq!(inner, &vec![10, -20, 30]),
        _ => panic!("expected the 64-bit integer variant"),
    }
    assert_eq!(tagged.layout(), Layout::Int64);
}

#[test]
fn i64_wraps_into_i64_variant() {
    let tagged: Tagged = <i64 as Dtype>::num_vec(vec![7, 8]);
    match &tagged {
        NumVec::I64(inner) => assert_eq!(inner, &vec![7, 8]),
        _ => panic!("expected the 64-bit integer variant"),
    }
    assert_eq!(tagged.len(), 2);
}

#[test]
fn round_trips_through_both_codecs() {
    let a: Vec<i32> = vec![0, -1, i32::MAX, i32::MIN, 42];
    let through = <i32 as Dtype>::vec_from_parquet(<i32 as Dtype>::slice_to_parquet(&a).as_slice().to_vec());
    assert_eq!(through, a);
    let through = <i32 as Dtype>::vec_from_pco(<i32 as Dtype>::slice_to_pco(&a).as_slice().to_vec());
    assert_eq!(through, a);

    let b: Vec<i64> = vec![i64::MIN, -3, 0, i64::MAX];
    let through = <i64 as Dtype>::vec_from_parquet(<i64 as Dtype>::slice_to_parquet(&b).as_slice().to_vec());
    assert_eq!(through, b);
    let through = <i64 as Dtype>::vec_from_pco(<i64 as Dtype>::slice_to_pco(&b).as_slice().to_vec());
    assert_eq!(through, b);
}

#[test]
fn empty_vectors() {
    let tagged: Tagged = <i32 as Dtype>::num_vec(Vec::new());
    assert_eq!(tagged.len(), 0);
    let none: Vec<TimestampMicros> = Vec::new();
    assert!(<TimestampMicros as Dtype>::slice_to_parquet(&none).as_slice().is_empty());
    assert!(<TimestampMicros as Dtype>::vec_from_pco(Vec::new()).is_empty());
    let tagged: Tagged = <TimestampMicros as Dtype>::num_vec(none);
    assert_eq!(tagged.layout(), Layout::Int64);
    assert_eq!(tagged.len(), 0);
}

#[test]
fn parquet_dtype_strings() {
    assert_eq!(<i32 as Dtype>::PARQUET_DTYPE_STR, "INT32");
    assert_eq!(<i64 as Dtype>::PARQUET_DTYPE_STR, "INT64");
    assert_eq!(<TimestampMicros as Dtype>::PARQUET_DTYPE_STR, "INT64");
    assert_eq!(Layout::Int32.parquet_name(), "INT32");
    assert_eq!(Layout::Int64.parquet_name(), "INT64");
    assert_eq!(Layout::Float.parquet_name(), "FLOAT");
    assert_eq!(Layout::Double.parquet_name(), "DOUBLE");
}

#[test]
fn float_variants_report_their_layout() {
    let single: NumVec<f32, f64> = NumVec::F32(vec![1.5, -0.0]);
    assert_eq!(single.layout(), Layout::Float);
    assert_eq!(single.len(), 2);
    let double: NumVec<f32, f64> = NumVec::F64(vec![2.25]);
    assert_eq!(double.layout(), Layout::Double);
    assert_eq!(double.len(), 1);
}

#[test]
fn timestamp_accessors() {
    let t = TimestampMicros::new(-123);
    assert_eq!(t.to_total_parts(), -123);
    assert_eq!(t.micros, -123);
}

#[test]
fn micros_helpers_copy_in_order() {
    let ts = vec![TimestampMicros::new(3), TimestampMicros::new(i64::MIN), TimestampMicros::new(i64::MAX)];
    assert_eq!(dtypes::timestamp::to_micros_vec(&ts), vec![3, i64::MIN, i64::MAX]);
    assert_eq!(dtypes::timestamp::from_micros_vec(&[3, i64::MIN, i64::MAX]), ts);
    let view = <TimestampMicros as Dtype>::slice_to_pco(&ts);
    assert!(matches!(view, CodecSlice::Owned(_)));
}
