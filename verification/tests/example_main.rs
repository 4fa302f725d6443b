use native_model::bincode_1_3::Bincode;
use native_model::codec::{check_model_id, decode_body_result, encode_body_result};
use native_model::negotiation::{
    decode_upgrade_body, decode_upgrade_body_from, encode_downgrade_body,
    encode_downgrade_body_from,
};
use native_model::{DecodeResult, EncodeResult, Error, Model, Versioned};
use serde::ser::{SerializeStruct, SerializeTupleStruct};
use serde::{Deserialize, Deserializer, Serialize, Serializer};

#[derive(PartialEq, Debug)]
struct DotV1(u32, u32);

impl Serialize for DotV1 {
    fn serialize<S: Serializer>(&self, serializer: S) -> Result<S::Ok, S::Error> {
        let mut state = serializer.serialize_tuple_struct("DotV1", 2)?;
        state.serialize_field(&self.0)?;
        state.serialize_field(&self.1)?;
        state.end()
    }
}

impl<'de> Deserialize<'de> for DotV1 {
    fn deserialize<D: Deserializer<'de>>(deserializer: D) -> Result<Self, D::Error> {
        let (x, y) = <(u32, u32)>::deserialize(deserializer)?;
        Ok(DotV1(x, y))
    }
}

impl Versioned for DotV1 {
    fn native_model_id() -> u32 {
        1
    }

    fn native_model_id_str() -> &'static str {
        "1"
    }

    fn native_model_version() -> u32 {
        1
    }

    fn native_model_version_str() -> &'static str {
        "1"
    }

    fn native_model_decode_body(data: Vec<u8>, id: u32) -> DecodeResult<Self> {
        check_model_id(id, Self::native_model_id())?;
        decode_body_result(Bincode::decode(data))
    }

    fn native_model_encode_body(&self) -> EncodeResult<Vec<u8>> {
        encode_body_result(Bincode::encode(self))
    }
}

impl Model for DotV1 {
    fn native_model_decode_upgrade_body(
        data: Vec<u8>,
        id: u32,
        version: u32,
    ) -> Result<Self, Error> {
        decode_upgrade_body(data, id, version)
    }

    fn native_model_encode_downgrade_body(self, version: u32) -> Result<Vec<u8>, Error> {
        encode_downgrade_body(self, version)
    }
}

#[derive(PartialEq, Debug)]
struct DotV2 {
    name: String,
    x: u64,
    y: u64,
}

impl Serialize for DotV2 {
    fn serialize<S: Serializer>(&self, serializer: S) -> Result<S::Ok, S::Error> {
        let mut state = serializer.serialize_struct("DotV2", 3)?;
        state.serialize_field("name", &self.name)?;
        state.serialize_field("x", &self.x)?;
        state.serialize_field("y", &self.y)?;
        state.end()
    }
}

impl<'de> Deserialize<'de> for DotV2 {
    fn deserialize<D: Deserializer<'de>>(deserializer: D) -> Result<Self, D::Error> {
        let (name, x, y) = <(String, u64, u64)>::deserialize(deserializer)?;
        Ok(DotV2 { name, x, y })
    }
}

impl Versioned for DotV2 {
    fn native_model_id() -> u32 {
        1
    }

    fn native_model_id_str() -> &'static str {
        "1"
    }

    fn native_model_version() -> u32 {
        2
    }

    fn native_model_version_str() -> &'static str {
        "2"
    }

    fn native_model_decode_body(data: Vec<u8>, id: u32) -> DecodeResult<Self> {
        check_model_id(id, Self::native_model_id())?;
        decode_body_result(Bincode::decode(data))
    }

    fn native_model_encode_body(&self) -> EncodeResult<Vec<u8>> {
        encode_body_result(Bincode::encode(self))
    }
}

impl Model for DotV2 {
    fn native_model_decode_upgrade_body(
        data: Vec<u8>,
        id: u32,
        version: u32,
    ) -> Result<Self, Error> {
        decode_upgrade_body_from::<DotV2, DotV1>(data, id, version)
    }

    fn native_model_encode_downgrade_body(self, version: u32) -> Result<Vec<u8>, Error> {
        encode_downgrade_body_from::<DotV2, DotV1>(self, version)
    }
}

impl From<DotV1> for DotV2 {
    fn from(dot: DotV1) -> Self {
        DotV2 {
            name: "".to_string(),
            x: dot.0 as u64,
            y: dot.1 as u64,
        }
    }
}

impl From<DotV2> for DotV1 {
    fn from(dot: DotV2) -> Self {
        DotV1(dot.x as u32, dot.y as u32)
    }
}

#[test]
fn example_main_run_example() {
    // Application 1
    let dot = DotV1(1, 2);
    let bytes = native_model::encode(&dot).unwrap();

    // Application 1 sends bytes to Application 2.

    // Application 2
    let (mut dot, source_version) = native_model::decode::<DotV2>(bytes).unwrap();
    // Use the struct DataV2 which has more fields and a different structure.
    dot.name = "Dot".to_string();
    dot.x = 5;
    // Encode the dot with the application 1 version in order to be compatible with it.
    let bytes = native_model::encode_downgrade(dot, source_version).unwrap();

    // Application 2 sends bytes to Application 1.

    // Application 1
    let (dot, _) = native_model::decode::<DotV1>(bytes).unwrap();
    assert_eq!(dot, DotV1(5, 2));
}

#[test]
fn older_value_is_widened_and_comes_back_unchanged() {
    let bytes = native_model::encode(&DotV1(1, 2)).unwrap();
    assert_eq!(bytes, vec![1, 0, 0, 0, 1, 0, 0, 0, 1, 0, 0, 0, 2, 0, 0, 0]);
    let (dot, source_version) = native_model::decode::<DotV2>(bytes).unwrap();
    assert_eq!(
        dot,
        DotV2 {
            name: "".to_string(),
            x: 1,
            y: 2
        }
    );
    assert_eq!(source_version, 1);
    let bytes = native_model::encode_downgrade(dot, 1).unwrap();
    assert_eq!(bytes, vec![1, 0, 0, 0, 1, 0, 0, 0, 1, 0, 0, 0, 2, 0, 0, 0]);
    let (dot, version) = native_model::decode::<DotV1>(bytes).unwrap();
    assert_eq!(dot, DotV1(1, 2));
    assert_eq!(version, 1);
}
