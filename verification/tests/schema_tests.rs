use courier::ApiItalo;
use courier::schemas::Named;
use courier::schemas::Record;
use courier::schemas::bytes::{ConvertError, FromBytes, ToBytes};
use courier::schemas::kafka::KafkaMessage;

#[test]
fn keyed_message_uses_the_shape_identifier() {
    let value = ApiItalo { message: "hello".to_string() };
    assert_eq!(value.get_id(), "ApiItalo");
    let m = KafkaMessage::keyed(value);
    assert_eq!(m.key, "ApiItalo");
    assert_eq!(m.value.message, "hello");
}

#[test]
fn set_id_is_a_no_op() {
    let mut value = ApiItalo { message: "hello".to_string() };
    value.set_id("other");
    assert_eq!(value.get_id(), "ApiItalo");
    assert_eq!(value.message, "hello");
}

#[test]
fn message_construction_keeps_key_and_payload() {
    let m = KafkaMessage::new("k1", Record::new("{\"a\":1}".to_string()));
    assert_eq!(m.key, "k1");
    assert_eq!(m.value.body, "{\"a\":1}");
    let copy = m.clone();
    assert_eq!(copy.key, "k1");
    assert_eq!(copy.value.body, "{\"a\":1}");
}

#[test]
fn to_bytes_of_text_is_its_utf8() {
    assert_eq!("abc".to_bytes(), &[97u8, 98, 99]);
    assert_eq!("abc".to_string().to_bytes(), &[97u8, 98, 99]);
    let v: Vec<u8> = vec![1, 2, 3];
    assert_eq!(v.to_bytes(), &[1u8, 2, 3]);
    let s: &[u8] = &[9u8, 8];
    assert_eq!(s.to_bytes(), &[9u8, 8]);
}

#[test]
fn to_bytes_of_arrays_and_unit() {
    let a: [u8; 3] = [7, 8, 9];
    assert_eq!(a.to_bytes(), &[7u8, 8, 9]);
    assert_eq!(().to_bytes(), &[] as &[u8]);
}

#[test]
fn string_from_bytes_decodes_utf8() {
    let s = String::from_bytes(&[104u8, 105]).unwrap();
    assert_eq!(s, "hi");
}

#[test]
fn string_from_bytes_rejects_invalid_utf8() {
    match String::from_bytes(&[0xffu8, 0xfe]) {
        Err(ConvertError::InvalidUtf8) => {}
        Ok(_) => panic!("invalid UTF-8 must be rejected"),
    }
}
