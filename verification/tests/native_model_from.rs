use native_model::bincode_1_3::Bincode;
use native_model::codec::{check_model_id, decode_body_result, encode_body_result};
use native_model::negotiation::{
    decode_upgrade_body, decode_upgrade_body_from, encode_downgrade_body,
    encode_downgrade_body_from,
};
use native_model::{DecodeResult, EncodeResult, Error, Model, Versioned};
use serde::ser::SerializeStruct;
use serde::{Deserialize, Deserializer, Serialize, Serializer};

#[derive(Debug, PartialEq)]
struct Foo1 {
    x: i32,
}

impl Serialize for Foo1 {
    fn serialize<S: Serializer>(&self, serializer: S) -> Result<S::Ok, S::Error> {
        let mut state = serializer.serialize_struct("Foo1", 1)?;
        state.serialize_field("x", &self.x)?;
        state.end()
    }
}

impl<'de> Deserialize<'de> for Foo1 {
    fn deserialize<D: Deserializer<'de>>(deserializer: D) -> Result<Self, D::Error> {
        let (x,) = <(i32,)>::deserialize(deserializer)?;
        Ok(Foo1 { x })
    }
}

impl Versioned for Foo1 {
    fn native_model_id() -> u32 {
        1
    }

    fn native_model_id_str() -> &'static str {
        "1"
    }

    fn native_model_version() -> u32 {
        1
    }

    fn native_model_version_str() -> &'static str {
        "1"
    }

    fn native_model_decode_body(data: Vec<u8>, id: u32) -> DecodeResult<Self> {
        check_model_id(id, Self::native_model_id())?;
        decode_body_result(Bincode::decode(data))
    }

    fn native_model_encode_body(&self) -> EncodeResult<Vec<u8>> {
        encode_body_result(Bincode::encode(self))
    }
}

impl Model for Foo1 {
    fn native_model_decode_upgrade_body(
        data: Vec<u8>,
        id: u32,
        version: u32,
    ) -> Result<Self, Error> {
        decode_upgrade_body(data, id, version)
    }

    fn native_model_encode_downgrade_body(self, version: u32) -> Result<Vec<u8>, Error> {
        encode_downgrade_body(self, version)
    }
}

#[derive(Debug, PartialEq)]
struct Foo2 {
    x: i32,
    c: char,
}

impl Serialize for Foo2 {
    fn serialize<S: Serializer>(&self, serializer: S) -> Result<S::Ok, S::Error> {
        let mut state = serializer.serialize_struct("Foo2", 2)?;
        state.serialize_field("x", &self.x)?;
        state.serialize_field("c", &self.c)?;
        state.end()
    }
}

impl<'de> Deserialize<'de> for Foo2 {
    fn deserialize<D: Deserializer<'de>>(deserializer: D) -> Result<Self, D::Error> {
        let (x, c) = <(i32, char)>::deserialize(deserializer)?;
        Ok(Foo2 { x, c })
    }
}

impl Versioned for Foo2 {
    fn native_model_id() -> u32 {
        1
    }

    fn native_model_id_str() -> &'static str {
        "1"
    }

    fn native_model_version() -> u32 {
        2
    }

    fn native_model_version_str() -> &'static str {
        "2"
    }

    fn native_model_decode_body(data: Vec<u8>, id: u32) -> DecodeResult<Self> {
        check_model_id(id, Self::native_model_id())?;
        decode_body_result(Bincode::decode(data))
    }

    fn native_model_encode_body(&self) -> EncodeResult<Vec<u8>> {
        encode_body_result(Bincode::encode(self))
    }
}

impl Model for Foo2 {
    fn native_model_decode_upgrade_body(
        data: Vec<u8>,
        id: u32,
        version: u32,
    ) -> Result<Self, Error> {
        decode_upgrade_body_from::<Foo2, Foo1>(data, id, version)
    }

    fn native_model_encode_downgrade_body(self, version: u32) -> Result<Vec<u8>, Error> {
        encode_downgrade_body_from::<Foo2, Foo1>(self, version)
    }
}

impl From<Foo1> for Foo2 {
    fn from(foo1: Foo1) -> Self {
        Foo2 { x: foo1.x, c: 'a' }
    }
}

impl From<Foo2> for Foo1 {
    fn from(foo2: Foo2) -> Self {
        Foo1 { x: foo2.x }
    }
}

impl PartialEq<Foo1> for Foo2 {
    fn eq(&self, other: &Foo1) -> bool {
        self.x == other.x
    }
}

#[test]
fn native_model_from_test_decode_foo1_to_foo1() {
    let foo1 = Foo1 { x: 100 };
    let foo1_packed = native_model::encode(&foo1).unwrap();
    let (foo1_decoded, _) = native_model::decode::<Foo1>(foo1_packed.clone()).unwrap();
    assert_eq!(foo1, foo1_decoded);
}

#[test]
fn native_model_from_test_decode_foo1_to_foo2() {
    let foo1 = Foo1 { x: 100 };
    let foo1_packed = native_model::encode(&foo1).unwrap();
    let (foo2_decoded, _) = native_model::decode::<Foo2>(foo1_packed.clone()).unwrap();
    assert_eq!(Foo2 { x: 100, c: 'a' }, foo2_decoded);
}

#[test]
fn native_model_from_test_encode_foo2_to_foo1() {
    let foo2 = Foo2 { x: 100, c: 'a' };
    let foo2_packed = native_model::encode(&foo2).unwrap();
    assert_eq!(foo2_packed, vec![1, 0, 0, 0, 2, 0, 0, 0, 100, 0, 0, 0, 97]);
    let (foo2_decoded, _) = native_model::decode::<Foo2>(foo2_packed.clone()).unwrap();
    assert_eq!(Foo2 { x: 100, c: 'a' }, foo2_decoded);
    let foo1_packed = native_model::encode_downgrade(foo2, 1).unwrap();
    assert_eq!(foo1_packed, vec![1, 0, 0, 0, 1, 0, 0, 0, 100, 0, 0, 0]);
    let (foo1_decoded, _) = native_model::decode::<Foo1>(foo1_packed.clone()).unwrap();
    assert_eq!(Foo1 { x: 100 }, foo1_decoded);
}

#[test]
fn native_model_from_test_encode_foo1_to_foo1() {
    let foo1 = Foo1 { x: 100 };
    let foo1_packed = native_model::encode(&foo1).unwrap();
    assert_eq!(foo1_packed, vec![1, 0, 0, 0, 1, 0, 0, 0, 100, 0, 0, 0]);
    let (foo1_decoded, _) = native_model::decode::<Foo1>(foo1_packed.clone()).unwrap();
    assert_eq!(Foo1 { x: 100 }, foo1_decoded);
    let foo1_packed = native_model::encode_downgrade(foo1, 1).unwrap();
    assert_eq!(foo1_packed, vec![1, 0, 0, 0, 1, 0, 0, 0, 100, 0, 0, 0]);
    let (foo1_decoded, _) = native_model::decode::<Foo1>(foo1_packed.clone()).unwrap();
    assert_eq!(Foo1 { x: 100 }, foo1_decoded);
}

#[test]
fn native_model_from_encode_decode_with_same_version() {
    // Client 1
    let foo1 = Foo1 { x: 100 };
    let foo_packed = native_model::encode(&foo1).unwrap();
    // Send foo_packed to server

    // Server
    let (mut foo2, version) = native_model::decode::<Foo2>(foo_packed.clone()).unwrap();
    // Do something with foo2
    foo2.x += 1;
    let foo_packed = native_model::encode_downgrade(foo2, version).unwrap();
    // Send foo_packed back to client

    // Client
    let (foo1_decoded, _) = native_model::decode::<Foo1>(foo_packed.clone()).unwrap();
    assert_eq!(Foo1 { x: 101 }, foo1_decoded);
}
