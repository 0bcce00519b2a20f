use wasm_plugin::codec::{Deserializable, Serializable};
use wasm_plugin::error::WasmPluginError;

fn encode<T: Serializable>(v: &T) -> Vec<u8> {
    v.serialize().unwrap()
}

#[test]
fn u32_is_four_little_endian_bytes() {
    assert_eq!(encode(&0x0102_0304u32), vec![4, 3, 2, 1]);
    assert_eq!(u32::deserialize(&[4, 3, 2, 1]), Ok(0x0102_0304));
}

#[test]
fn negative_i32_round_trips() {
    assert_eq!(encode(&-1i32), vec![255, 255, 255, 255]);
    assert_eq!(encode(&-2i32), vec![254, 255, 255, 255]);
    assert_eq!(i32::deserialize(&encode(&i32::MIN)), Ok(i32::MIN));
}

#[test]
fn u64_is_eight_little_endian_bytes() {
    assert_eq!(encode(&0x0102_0304_0506_0708u64), vec![8, 7, 6, 5, 4, 3, 2, 1]);
    assert_eq!(u64::deserialize(&encode(&u64::MAX)), Ok(u64::MAX));
}

#[test]
fn bool_is_one_byte() {
    assert_eq!(encode(&true), vec![1]);
    assert_eq!(encode(&false), vec![0]);
    assert_eq!(bool::deserialize(&[1]), Ok(true));
    assert_eq!(bool::deserialize(&[2]), Err(WasmPluginError::DeserializationError));
}

#[test]
fn unit_encodes_to_nothing() {
    assert_eq!(encode(&()), Vec::<u8>::new());
    assert_eq!(<()>::deserialize(&[]), Ok(()));
    assert_eq!(<()>::deserialize(&[0]), Err(WasmPluginError::DeserializationError));
}

#[test]
fn string_is_length_then_utf8() {
    assert_eq!(
        encode(&"abc".to_string()),
        vec![3, 0, 0, 0, 0, 0, 0, 0, b'a', b'b', b'c']
    );
    let s = "h\u{e9}llo \u{1F600}".to_string();
    let bytes = encode(&s);
    assert_eq!(bytes.len(), 8 + s.len());
    assert_eq!(String::deserialize(&bytes), Ok(s));
}

#[test]
fn empty_string_round_trips() {
    assert_eq!(encode(&String::new()), vec![0; 8]);
    assert_eq!(String::deserialize(&[0; 8]), Ok(String::new()));
}

#[test]
fn invalid_utf8_is_rejected() {
    let bytes = vec![2, 0, 0, 0, 0, 0, 0, 0, 0xff, 0xfe];
    assert_eq!(String::deserialize(&bytes), Err(WasmPluginError::DeserializationError));
}

#[test]
fn string_length_past_the_end_is_rejected() {
    let bytes = vec![5, 0, 0, 0, 0, 0, 0, 0, b'a', b'b'];
    assert_eq!(String::deserialize(&bytes), Err(WasmPluginError::DeserializationError));
}

#[test]
fn vec_is_count_then_elements() {
    let v: Vec<i32> = vec![1, 2, 43];
    assert_eq!(
        encode(&v),
        vec![3, 0, 0, 0, 0, 0, 0, 0, 1, 0, 0, 0, 2, 0, 0, 0, 43, 0, 0, 0]
    );
    assert_eq!(Vec::<i32>::deserialize(&encode(&v)), Ok(v));
}

#[test]
fn nested_values_round_trip() {
    let v: Vec<(u32, String)> = vec![(7, "seven".to_string()), (0, String::new())];
    assert_eq!(Vec::<(u32, String)>::deserialize(&encode(&v)), Ok(v));
    let nested: Vec<Vec<bool>> = vec![vec![true], vec![], vec![false, true]];
    assert_eq!(Vec::<Vec<bool>>::deserialize(&encode(&nested)), Ok(nested));
}

#[test]
fn pair_is_concatenation() {
    let p = (1u32, true);
    assert_eq!(encode(&p), vec![1, 0, 0, 0, 1]);
    assert_eq!(<(u32, bool)>::deserialize(&[1, 0, 0, 0, 1]), Ok(p));
}

#[test]
fn trailing_bytes_are_rejected() {
    assert_eq!(u32::deserialize(&[1, 0, 0, 0, 9]), Err(WasmPluginError::DeserializationError));
}

#[test]
fn short_input_is_rejected() {
    assert_eq!(u32::deserialize(&[1, 0]), Err(WasmPluginError::DeserializationError));
    assert_eq!(Vec::<i32>::deserialize(&[2, 0, 0, 0, 0, 0, 0, 0, 1, 0, 0, 0]), Err(WasmPluginError::DeserializationError));
}

#[test]
fn shape_mismatch_is_a_deserialization_error() {
    let bytes = encode(&"Hello".to_string());
    assert_eq!(Vec::<i32>::deserialize(&bytes), Err(WasmPluginError::DeserializationError));
}

#[test]
fn round_trip_function_gives_back_the_value() {
    let v: Vec<String> = vec!["a".to_string(), "bc".to_string()];
    assert_eq!(wasm_plugin::codec::round_trip(&v), Ok(v));
}

#[test]
fn small_integers_and_i64() {
    assert_eq!(encode(&0xabu8), vec![0xab]);
    assert_eq!(encode(&0x1234u16), vec![0x34, 0x12]);
    assert_eq!(u16::deserialize(&[0x34, 0x12]), Ok(0x1234));
    assert_eq!(encode(&-2i64), vec![254, 255, 255, 255, 255, 255, 255, 255]);
    assert_eq!(i64::deserialize(&encode(&i64::MIN)), Ok(i64::MIN));
}

#[test]
fn option_is_tag_then_value() {
    assert_eq!(encode(&None::<u32>), vec![0]);
    assert_eq!(encode(&Some(3u32)), vec![1, 3, 0, 0, 0]);
    assert_eq!(Option::<u32>::deserialize(&[1, 3, 0, 0, 0]), Ok(Some(3)));
    assert_eq!(Option::<u32>::deserialize(&[2]), Err(WasmPluginError::DeserializationError));
}

#[test]
fn triple_round_trips() {
    let t = (1u8, "x".to_string(), vec![Some(-1i64), None]);
    assert_eq!(<(u8, String, Vec<Option<i64>>)>::deserialize(&encode(&t)), Ok(t));
}
