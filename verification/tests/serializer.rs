use nexus_actor::remote::serializer::{
    deserialize, deserialize_any, find_serializer, register_serializer, register_serializer_any,
    serialize, serialize_any, Serializer, SerializerError, SerializerId, SerializerKey,
    SerializerRegistry,
};
use prost::bytes::{Buf, BufMut};
use prost::encoding::{int32, skip_field, string, DecodeContext, WireType};
use prost::Message;

#[derive(Clone, PartialEq, Debug, Default)]
pub struct TestMessage {
    pub a: i32,
    pub b: String,
}

impl Message for TestMessage {
    fn encode_raw(&self, buf: &mut impl BufMut) {
        if self.a != 0 {
            int32::encode(1, &self.a, buf);
        }
        if !self.b.is_empty() {
            string::encode(2, &self.b, buf);
        }
    }

    fn merge_field(
        &mut self,
        tag: u32,
        wire_type: WireType,
        buf: &mut impl Buf,
        ctx: DecodeContext,
    ) -> Result<(), prost::DecodeError> {
        match tag {
            1 => int32::merge(wire_type, &mut self.a, buf, ctx),
            2 => string::merge(wire_type, &mut self.b, buf, ctx),
            _ => skip_field(wire_type, tag, buf, ctx),
        }
    }

    fn encoded_len(&self) -> usize {
        let a = if self.a != 0 { int32::encoded_len(1, &self.a) } else { 0 };
        let b = if !self.b.is_empty() { string::encoded_len(2, &self.b) } else { 0 };
        a + b
    }

    fn clear(&mut self) {
        self.a = 0;
        self.b.clear();
    }
}

const TEST_MESSAGE_TYPE: &str = "TestMessage";

struct ProtoTestSerializer;

impl Serializer<TestMessage> for ProtoTestSerializer {
    fn serialize(&self, msg: &TestMessage) -> Result<Vec<u8>, SerializerError> {
        Ok(msg.encode_to_vec())
    }

    fn deserialize(&self, bytes: &[u8]) -> Result<TestMessage, SerializerError> {
        TestMessage::decode(bytes).map_err(|e| SerializerError::deserialization(e.to_string()))
    }

    fn get_type_name(&self) -> String {
        TEST_MESSAGE_TYPE.to_string()
    }
}

struct JsonTestSerializer;

impl Serializer<TestMessage> for JsonTestSerializer {
    fn serialize(&self, msg: &TestMessage) -> Result<Vec<u8>, SerializerError> {
        let mut fields = serde_json::Map::new();
        fields.insert("a".to_string(), serde_json::Value::from(msg.a));
        fields.insert("b".to_string(), serde_json::Value::from(msg.b.clone()));
        serde_json::to_vec(&serde_json::Value::Object(fields))
            .map_err(|e| SerializerError::serialization(e.to_string()))
    }

    fn deserialize(&self, bytes: &[u8]) -> Result<TestMessage, SerializerError> {
        let value: serde_json::Value = serde_json::from_slice(bytes)
            .map_err(|e| SerializerError::deserialization(e.to_string()))?;
        let a = value
            .get("a")
            .and_then(|v| v.as_i64())
            .ok_or_else(|| SerializerError::deserialization("missing field a".to_string()))?;
        let b = value
            .get("b")
            .and_then(|v| v.as_str())
            .ok_or_else(|| SerializerError::deserialization("missing field b".to_string()))?;
        Ok(TestMessage { a: a as i32, b: b.to_string() })
    }

    fn get_type_name(&self) -> String {
        TEST_MESSAGE_TYPE.to_string()
    }
}

fn initialize_serializers() -> SerializerRegistry<Box<dyn Serializer<TestMessage>>> {
    let mut registry: SerializerRegistry<Box<dyn Serializer<TestMessage>>> = SerializerRegistry::new();
    register_serializer(&mut registry, SerializerId::Proto, Box::new(ProtoTestSerializer));
    register_serializer(&mut registry, SerializerId::Json, Box::new(JsonTestSerializer));
    registry
}

#[test]
fn test_proto_serialization() {
    let registry = initialize_serializers();
    let msg = TestMessage { a: 42, b: "world".to_string() };
    let bytes = serialize(&registry, &msg, SerializerId::Proto, TEST_MESSAGE_TYPE).unwrap();
    let deserialized: TestMessage =
        deserialize(&registry, &bytes, SerializerId::Proto, TEST_MESSAGE_TYPE).unwrap();
    assert_eq!(msg, deserialized);
}

#[test]
fn test_json_serialization() {
    let registry = initialize_serializers();
    let msg = TestMessage { a: 42, b: "hello".to_string() };
    let bytes = serialize(&registry, &msg, SerializerId::Json, TEST_MESSAGE_TYPE).unwrap();
    let deserialized: TestMessage =
        deserialize(&registry, &bytes, SerializerId::Json, TEST_MESSAGE_TYPE).unwrap();
    assert_eq!(msg, deserialized);
}

#[test]
fn serialize_without_registration_is_unknown_type() {
    let registry = initialize_serializers();
    let msg = TestMessage { a: 1, b: "x".to_string() };
    let err = serialize(&registry, &msg, SerializerId::Proto, "Other").unwrap_err();
    assert_eq!(err, SerializerError::UnknownType);
    let err = deserialize(&registry, &[], SerializerId::Custom(200), TEST_MESSAGE_TYPE).unwrap_err();
    assert_eq!(err, SerializerError::unknown_type());
}

#[test]
fn typed_registration_is_not_found_by_type_erased_calls() {
    let registry = initialize_serializers();
    let msg = TestMessage { a: 7, b: "y".to_string() };
    let err = serialize_any(&registry, &msg, SerializerId::Proto, TEST_MESSAGE_TYPE).unwrap_err();
    assert_eq!(err, SerializerError::UnknownType);
}

#[test]
fn type_erased_lookup_prefers_proto_then_json() {
    let mut registry: SerializerRegistry<Box<dyn Serializer<TestMessage>>> = SerializerRegistry::new();
    let key = register_serializer_any(&mut registry, SerializerId::Json, Box::new(JsonTestSerializer));
    assert!(key.is_any);
    let msg = TestMessage { a: 5, b: "json".to_string() };
    let json_bytes = serialize_any(&registry, &msg, SerializerId::Unspecified, TEST_MESSAGE_TYPE).unwrap();
    assert_eq!(json_bytes.first(), Some(&b'{'));
    let back: TestMessage =
        deserialize_any(&registry, &json_bytes, SerializerId::Unspecified, TEST_MESSAGE_TYPE).unwrap();
    assert_eq!(back, msg);

    register_serializer_any(&mut registry, SerializerId::Proto, Box::new(ProtoTestSerializer));
    let proto_bytes = serialize_any(&registry, &msg, SerializerId::Unspecified, TEST_MESSAGE_TYPE).unwrap();
    assert_eq!(proto_bytes, msg.encode_to_vec());
}

#[test]
fn registering_again_replaces_the_serializer() {
    let mut registry: SerializerRegistry<Box<dyn Serializer<TestMessage>>> = SerializerRegistry::new();
    register_serializer(&mut registry, SerializerId::Proto, Box::new(JsonTestSerializer));
    register_serializer(&mut registry, SerializerId::Proto, Box::new(ProtoTestSerializer));
    let msg = TestMessage { a: 3, b: "z".to_string() };
    let bytes = serialize(&registry, &msg, SerializerId::Proto, TEST_MESSAGE_TYPE).unwrap();
    assert_eq!(bytes, msg.encode_to_vec());
    assert!(find_serializer(&registry, SerializerId::Proto, TEST_MESSAGE_TYPE).is_some());
    assert!(find_serializer(&registry, SerializerId::Json, TEST_MESSAGE_TYPE).is_none());
}

#[test]
fn serializer_ids_convert_to_and_from_wire_numbers() {
    assert_eq!(SerializerId::of_proto(), SerializerId::Proto);
    assert_eq!(SerializerId::of_json(), SerializerId::Json);
    assert_eq!(SerializerId::of_custom(150), SerializerId::Custom(150));
    assert!(SerializerId::Custom(150).is_custom());
    assert!(!SerializerId::Proto.is_custom());
    assert_eq!(SerializerId::Json.to_u32(), 2);
    assert_eq!(SerializerId::Custom(101).to_u32(), 101);
    assert_eq!(SerializerId::from_u32(0), Ok(SerializerId::Unspecified));
    assert_eq!(SerializerId::from_u32(1), Ok(SerializerId::Proto));
    assert_eq!(SerializerId::from_u32(101), Ok(SerializerId::Custom(101)));
    assert_eq!(
        SerializerId::from_u32(50),
        Err("Invalid SerializerId value: 50".to_string())
    );
    assert_eq!(SerializerId::Custom(101).to_text(), "Custom:101");
    assert_eq!(SerializerId::Proto.to_text(), "Proto:1");
}

#[test]
fn serializer_keys_match_their_parts() {
    let key = SerializerKey::new(SerializerId::Proto, "Msg".to_string(), false);
    assert!(key.matches(SerializerId::Proto, "Msg", false));
    assert!(!key.matches(SerializerId::Proto, "Msg", true));
    assert!(!key.matches(SerializerId::Json, "Msg", false));
    assert!(!key.matches(SerializerId::Proto, "Other", false));
}
