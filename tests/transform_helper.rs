use signal_bridge::error::BridgeError;
use signal_bridge::transform_helper::{TransformHelper, TransformHelperImpl};

#[test]
fn test_ok_if_needed() {
    assert!(matches!(
        TransformHelper(0).ok_if_needed(),
        Ok(TransformHelper(0))
    ));
    assert!(matches!(
        TransformHelper(Result::<i32, bool>::Ok(0)).ok_if_needed(),
        Ok(TransformHelper(0))
    ));
    assert!(matches!(
        TransformHelper(Result::<i32, bool>::Err(false)).ok_if_needed(),
        Err(false)
    ));
}

#[test]
fn test_option_map_into() {
    assert!(matches!(
        TransformHelper(0u32).option_map_into(),
        TransformHelper(0u32)
    ));
    assert!(matches!(
        TransformHelper(Option::<u32>::Some(0u32)).option_map_into(),
        TransformHelper(Option::<u64>::Some(0u64))
    ));
    assert!(matches!(
        TransformHelper(Option::<u32>::None).option_map_into(),
        TransformHelper(Option::<u64>::None)
    ));

    assert!(matches!(
        TransformHelper(0u32).option_map_into().into(),
        0u64
    ));
    assert!(matches!(
        TransformHelper(Option::<u32>::Some(0u32))
            .option_map_into()
            .into(),
        Option::<u64>::Some(0u64)
    ));
    assert!(matches!(
        TransformHelper(Option::<u32>::None)
            .option_map_into()
            .into(),
        Option::<u64>::None
    ));
}

#[test]
fn bare_value_becomes_success() {
    let r: Result<TransformHelper<&str>, BridgeError> = TransformHelper("text").ok_if_needed();
    assert!(matches!(r, Ok(TransformHelper("text"))));
}

#[test]
fn option_contents_are_converted() {
    let r: TransformHelper<Option<u64>> = TransformHelper(Some(4_000_000_000u32)).option_map_into();
    assert_eq!(r.0, Some(4_000_000_000u64));
    let r: TransformHelper<Option<i64>> = TransformHelper(Some(-7i32)).option_map_into();
    assert_eq!(r.0, Some(-7i64));
}

#[test]
fn boxed_slice_becomes_vec_in_order() {
    let boxed: Box<[u8]> = vec![3u8, 1, 2].into_boxed_slice();
    let r: TransformHelper<Vec<u8>> = TransformHelper(boxed).into_vec_if_needed();
    assert_eq!(r.0, vec![3u8, 1, 2]);
    let empty: Box<[u8]> = Vec::new().into_boxed_slice();
    assert!(TransformHelper(empty).into_vec_if_needed().0.is_empty());
}

#[test]
fn other_values_are_not_reshaped() {
    let r = TransformHelper(vec![5u8, 6]).into_vec_if_needed();
    assert_eq!(r.0, vec![5u8, 6]);
    let r = TransformHelper(9u8).into_vec_if_needed();
    assert_eq!(r.0, 9u8);
}

#[test]
fn into_converts_the_value() {
    let r: u64 = TransformHelper(7u8).into();
    assert_eq!(r, 7u64);
}
