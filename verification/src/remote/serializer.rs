use vstd::prelude::*;

use crate::utils::text::{decimal_digits, str_equal, u32_to_decimal};

verus! {

/// The serialization format of a message.
#[derive(Debug, Clone, Copy, PartialEq, Eq, Hash, Structural)]
pub enum SerializerId {
    /// No format chosen: a lookup tries protobuf, then JSON.
    Unspecified,
    Proto,
    Json,
    /// A format of the application's own, numbered above 100.
    Custom(u32),
}

/// The wire number of a serializer id.
pub open spec fn serializer_id_value(id: SerializerId) -> u32 {
    match id {
        SerializerId::Unspecified => 0,
        SerializerId::Proto => 1,
        SerializerId::Json => 2,
        SerializerId::Custom(v) => v,
    }
}

/// The serializer id with wire number `v`: 0, 1, 2 and numbers above 100 are valid.
pub open spec fn serializer_id_of(v: u32) -> Option<SerializerId> {
    if v == 0 {
        Some(SerializerId::Unspecified)
    } else if v == 1 {
        Some(SerializerId::Proto)
    } else if v == 2 {
        Some(SerializerId::Json)
    } else if v > 100 {
        Some(SerializerId::Custom(v))
    } else {
        None
    }
}

/// A serializer id that can stand on the wire: a custom id lies above 100.
pub open spec fn serializer_id_valid(id: SerializerId) -> bool {
    match id {
        SerializerId::Custom(v) => v > 100,
        _ => true,
    }
}

/// The text a serializer id is shown as: the format's name, a colon and its number.
pub open spec fn serializer_id_text(id: SerializerId) -> Seq<char> {
    match id {
        SerializerId::Unspecified => "None:0"@,
        SerializerId::Proto => "Proto:1"@,
        SerializerId::Json => "Json:2"@,
        SerializerId::Custom(v) => "Custom:"@ + decimal_digits(v as nat),
    }
}

/// The message of the error for an invalid serializer number `v`.
pub open spec fn invalid_serializer_id_text(v: u32) -> Seq<char> {
    "Invalid SerializerId value: "@ + decimal_digits(v as nat)
}

impl SerializerId {
    /// The protobuf format.
    pub fn of_proto() -> (r: Self)
        ensures
            r == SerializerId::Proto,
    {
        SerializerId::Proto
    }

    /// The JSON format.
    pub fn of_json() -> (r: Self)
        ensures
            r == SerializerId::Json,
    {
        SerializerId::Json
    }

    /// A custom format; its number must lie above 100.
    pub fn of_custom(value: u32) -> (r: Self)
        requires
            value > 100,
        ensures
            r == SerializerId::Custom(value),
    {
        SerializerId::Custom(value)
    }

    /// Whether the format is a custom one.
    pub fn is_custom(&self) -> (r: bool)
        ensures
            r == (*self is Custom),
    {
        match self {
            SerializerId::Custom(_) => true,
            _ => false,
        }
    }

    /// The wire number.
    pub fn to_u32(&self) -> (r: u32)
        ensures
            r == serializer_id_value(*self),
    {
        match self {
            SerializerId::Unspecified => 0,
            SerializerId::Proto => 1,
            SerializerId::Json => 2,
            SerializerId::Custom(v) => *v,
        }
    }

    /// The serializer id with wire number `value`, or the error message for
    /// a number between 3 and 100.
    pub fn from_u32(value: u32) -> (r: Result<Self, String>)
        ensures
            serializer_id_of(value) is Some ==> r == Ok::<SerializerId, String>(
                serializer_id_of(value)->0,
            ),
            serializer_id_of(value) is None ==> r is Err && r->Err_0@
                == invalid_serializer_id_text(value),
    {
        if value == 0 {
            Ok(SerializerId::Unspecified)
        } else if value == 1 {
            Ok(SerializerId::Proto)
        } else if value == 2 {
            Ok(SerializerId::Json)
        } else if value > 100 {
            Ok(SerializerId::Custom(value))
        } else {
            let prefix = String::from_str("Invalid SerializerId value: ");
            let digits = u32_to_decimal(value);
            proof {
                reveal_strlit("Invalid SerializerId value: ");
            }
            Err(prefix.concat(digits.as_str()))
        }
    }

    /// The text the id is shown as, such as `Proto:1` or `Custom:101`.
    pub fn to_text(&self) -> (r: String)
        ensures
            r@ == serializer_id_text(*self),
    {
        match self {
            SerializerId::Unspecified => String::from_str("None:0"),
            SerializerId::Proto => String::from_str("Proto:1"),
            SerializerId::Json => String::from_str("Json:2"),
            SerializerId::Custom(v) => {
                let digits = u32_to_decimal(*v);
                String::from_str("Custom:").concat(digits.as_str())
            },
        }
    }
}

/// Reading back the wire number of a valid serializer id gives the same id.
pub proof fn lemma_serializer_id_round_trip(id: SerializerId)
    requires
        serializer_id_valid(id),
    ensures
        serializer_id_of(serializer_id_value(id)) == Some(id),
{
}

/// A wire number that reads as a serializer id is that id's number.
pub proof fn lemma_serializer_id_number_round_trip(v: u32)
    requires
        serializer_id_of(v) is Some,
    ensures
        serializer_id_value(serializer_id_of(v)->0) == v,
        serializer_id_valid(serializer_id_of(v)->0),
{
}

/// Why a message could not be serialized or deserialized.
#[derive(Debug, Clone, PartialEq, Eq)]
pub enum SerializerError {
    /// Encoding failed, with the encoder's message.
    Serialization(String),
    /// Decoding failed, with the decoder's message.
    Deserialization(String),
    /// No serializer is registered for the format and type.
    UnknownType,
}

impl SerializerError {
    /// An encoding failure with the given message.
    pub fn serialization(message: String) -> (r: Self)
        ensures
            r == SerializerError::Serialization(message),
    {
        SerializerError::Serialization(message)
    }

    /// A decoding failure with the given message.
    pub fn deserialization(message: String) -> (r: Self)
        ensures
            r == SerializerError::Deserialization(message),
    {
        SerializerError::Deserialization(message)
    }

    /// The error for a format and type with no serializer.
    pub fn unknown_type() -> (r: Self)
        ensures
            r == SerializerError::UnknownType,
    {
        SerializerError::UnknownType
    }
}

/// The key a serializer is registered under: format, type name, and whether
/// it serves the type-erased interface.
#[derive(Debug, Clone, PartialEq, Eq)]
pub struct SerializerKey {
    pub serializer_id: SerializerId,
    pub message_type: String,
    pub is_any: bool,
}

/// A serializer key as a plain value.
pub type SerializerKeyView = (SerializerId, Seq<char>, bool);

impl View for SerializerKey {
    type V = SerializerKeyView;

    open spec fn view(&self) -> SerializerKeyView {
        (self.serializer_id, self.message_type@, self.is_any)
    }
}

impl SerializerKey {
    /// The key for the given format, type name and interface.
    pub fn new(serializer_id: SerializerId, message_type: String, is_any: bool) -> (k: Self)
        ensures
            k@ == (serializer_id, message_type@, is_any),
    {
        SerializerKey { serializer_id, message_type, is_any }
    }

    /// Whether the key is the one for the given format, type name and interface.
    pub fn matches(&self, serializer_id: SerializerId, message_type: &str, is_any: bool) -> (r: bool)
        ensures
            r == (self@ == (serializer_id, message_type@, is_any)),
    {
        let name_matches = str_equal(self.message_type.as_str(), message_type);
        self.serializer_id == serializer_id && name_matches && self.is_any == is_any
    }
}

} // verus!

verus! {

/// The map that a list of registrations makes: a later registration under the
/// same key replaces an earlier one.
pub open spec fn registrations_map<S>(s: Seq<(SerializerKeyView, S)>) -> Map<SerializerKeyView, S>
    decreases s.len(),
{
    if s.len() == 0 {
        Map::empty()
    } else {
        registrations_map(s.drop_last()).insert(s.last().0, s.last().1)
    }
}

/// A key that occurs in no registration from index `i` on keeps the value it
/// has in the registrations before `i`.
proof fn lemma_registrations_prefix<S>(s: Seq<(SerializerKeyView, S)>, k: SerializerKeyView, i: int)
    requires
        0 <= i <= s.len(),
        forall|j: int| i <= j < s.len() ==> s[j].0 != k,
    ensures
        registrations_map(s).contains_key(k) == registrations_map(s.take(i)).contains_key(k),
        registrations_map(s).contains_key(k) ==> registrations_map(s)[k] == registrations_map(
            s.take(i),
        )[k],
    decreases s.len(),
{
    if s.len() > i {
        assert(s.drop_last().take(i) =~= s.take(i));
        lemma_registrations_prefix(s.drop_last(), k, i);
    } else {
        assert(s.take(i) =~= s);
    }
}

/// Replacing the last registration under `k` is registering `k` anew.
proof fn lemma_registrations_update_last<S>(
    s: Seq<(SerializerKeyView, S)>,
    i: int,
    k: SerializerKeyView,
    v: S,
)
    requires
        0 <= i < s.len(),
        s[i].0 == k,
        forall|j: int| i < j < s.len() ==> s[j].0 != k,
    ensures
        registrations_map(s.update(i, (k, v))) =~= registrations_map(s).insert(k, v),
    decreases s.len(),
{
    if i == s.len() - 1 {
        assert(s.update(i, (k, v)).drop_last() =~= s.drop_last());
    } else {
        assert(s.update(i, (k, v)).drop_last() =~= s.drop_last().update(i, (k, v)));
        lemma_registrations_update_last(s.drop_last(), i, k, v);
    }
}

/// The serializers known to an application, keyed by format, message type
/// and interface.
pub struct SerializerRegistry<S> {
    entries: Vec<(SerializerKey, S)>,
}

impl<S> SerializerRegistry<S> {
    /// The registrations in order, as plain keys and serializers.
    pub closed spec fn registrations(&self) -> Seq<(SerializerKeyView, S)> {
        self.entries@.map_values(|e: (SerializerKey, S)| (e.0@, e.1))
    }

    /// The serializer registered under each key.
    pub closed spec fn spec_map(&self) -> Map<SerializerKeyView, S> {
        registrations_map(self.registrations())
    }

    /// A registry with no serializer.
    pub fn new() -> (r: Self)
        ensures
            r.spec_map() == Map::<SerializerKeyView, S>::empty(),
    {
        SerializerRegistry { entries: Vec::new() }
    }

    /// The position of the last registration under the given key.
    fn position(&self, serializer_id: SerializerId, message_type: &str, is_any: bool) -> (r: Option<usize>)
        ensures
            r is None ==> forall|j: int|
                0 <= j < self.registrations().len() ==> self.registrations()[j].0 != (
                    serializer_id,
                    message_type@,
                    is_any,
                ),
            r is Some ==> {
                &&& r->0 < self.registrations().len()
                &&& self.registrations()[r->0 as int].0 == (serializer_id, message_type@, is_any)
                &&& forall|j: int|
                    r->0 < j < self.registrations().len() ==> self.registrations()[j].0 != (
                        serializer_id,
                        message_type@,
                        is_any,
                    )
            },
    {
        let mut i = self.entries.len();
        while i > 0
            invariant
                i <= self.entries@.len(),
                self.registrations().len() == self.entries@.len(),
                forall|j: int|
                    i <= j < self.registrations().len() ==> self.registrations()[j].0 != (
                        serializer_id,
                        message_type@,
                        is_any,
                    ),
            decreases i,
        {
            let k = i - 1;
            if self.entries[k].0.matches(serializer_id, message_type, is_any) {
                return Some(k);
            }
            i = k;
        }
        None
    }

    /// Registers `serializer` under the given key, replacing the serializer
    /// registered there before.
    pub fn register(&mut self, key: SerializerKey, serializer: S)
        ensures
            final(self).spec_map() == old(self).spec_map().insert(key@, serializer),
    {
        let ghost k = key@;
        match self.position(key.serializer_id, key.message_type.as_str(), key.is_any) {
            Some(i) => {
                proof {
                    lemma_registrations_update_last(self.registrations(), i as int, k, serializer);
                }
                self.entries.set(i, (key, serializer));
                proof {
                    assert(self.registrations() =~= old(self).registrations().update(
                        i as int,
                        (k, serializer),
                    ));
                }
            },
            None => {
                self.entries.push((key, serializer));
                proof {
                    let s = self.registrations();
                    assert(s =~= old(self).registrations().push((k, serializer)));
                    assert(s.drop_last() =~= old(self).registrations());
                }
            },
        }
    }

    /// The serializer registered under the given key.
    pub fn find(&self, serializer_id: SerializerId, message_type: &str, is_any: bool) -> (r: Option<&S>)
        ensures
            match r {
                Some(s) => self.spec_map().contains_key((serializer_id, message_type@, is_any))
                    && *s == self.spec_map()[(serializer_id, message_type@, is_any)],
                None => !self.spec_map().contains_key((serializer_id, message_type@, is_any)),
            },
    {
        let ghost k = (serializer_id, message_type@, is_any);
        match self.position(serializer_id, message_type, is_any) {
            Some(i) => {
                proof {
                    let s = self.registrations();
                    lemma_registrations_prefix(s, k, i + 1);
                    assert(s.take(i + 1).drop_last() =~= s.take(i as int));
                }
                Some(&self.entries[i].1)
            },
            None => {
                proof {
                    let s = self.registrations();
                    lemma_registrations_prefix(s, k, 0);
                    assert(s.take(0) =~= Seq::<(SerializerKeyView, S)>::empty());
                }
                None
            },
        }
    }
}

} // verus!

verus! {

/// Encodes and decodes messages of type `T` in one format.  Implementations
/// are supplied by the application.
pub trait Serializer<T> {
    /// The encoding of `msg`.
    fn serialize(&self, msg: &T) -> Result<Vec<u8>, SerializerError>;

    /// The message that `bytes` encode.
    fn deserialize(&self, bytes: &[u8]) -> Result<T, SerializerError>;

    /// The name of the message type, under which the serializer is registered.
    fn get_type_name(&self) -> String;
}

impl<T> Serializer<T> for Box<dyn Serializer<T>> {
    fn serialize(&self, msg: &T) -> (r: Result<Vec<u8>, SerializerError>) {
        (**self).serialize(msg)
    }

    fn deserialize(&self, bytes: &[u8]) -> (r: Result<T, SerializerError>) {
        (**self).deserialize(bytes)
    }

    fn get_type_name(&self) -> (r: String) {
        (**self).get_type_name()
    }
}

/// The serializer a type-erased lookup finds: with no format chosen, the
/// protobuf serializer and then the JSON one; otherwise the one of the format.
pub open spec fn any_lookup<S>(m: Map<SerializerKeyView, S>, serializer_id: SerializerId, message_type: Seq<char>) -> Option<S> {
    if serializer_id == SerializerId::Unspecified {
        if m.contains_key((SerializerId::Proto, message_type, true)) {
            Some(m[(SerializerId::Proto, message_type, true)])
        } else if m.contains_key((SerializerId::Json, message_type, true)) {
            Some(m[(SerializerId::Json, message_type, true)])
        } else {
            None
        }
    } else if m.contains_key((serializer_id, message_type, true)) {
        Some(m[(serializer_id, message_type, true)])
    } else {
        None
    }
}

/// Registers `serializer` for its own message type and the given format,
/// for typed use; returns the key it was registered under.
pub fn register_serializer<T, S: Serializer<T>>(
    registry: &mut SerializerRegistry<S>,
    serializer_id: SerializerId,
    serializer: S,
) -> (key: SerializerKey)
    ensures
        key.serializer_id == serializer_id,
        !key.is_any,
        final(registry).spec_map() == old(registry).spec_map().insert(key@, serializer),
{
    let name = serializer.get_type_name();
    let result = SerializerKey::new(serializer_id, name.clone(), false);
    let key = SerializerKey::new(serializer_id, name, false);
    registry.register(key, serializer);
    result
}

/// Registers `serializer` for its own message type and the given format,
/// for type-erased use; returns the key it was registered under.
pub fn register_serializer_any<T, S: Serializer<T>>(
    registry: &mut SerializerRegistry<S>,
    serializer_id: SerializerId,
    serializer: S,
) -> (key: SerializerKey)
    ensures
        key.serializer_id == serializer_id,
        key.is_any,
        final(registry).spec_map() == old(registry).spec_map().insert(key@, serializer),
{
    let name = serializer.get_type_name();
    let result = SerializerKey::new(serializer_id, name.clone(), true);
    let key = SerializerKey::new(serializer_id, name, true);
    registry.register(key, serializer);
    result
}

/// The serializer registered for typed use under the format and message type.
pub fn find_serializer<'a, S>(registry: &'a SerializerRegistry<S>, serializer_id: SerializerId, message_type: &str) -> (r: Option<&'a S>)
    ensures
        match r {
            Some(s) => registry.spec_map().contains_key((serializer_id, message_type@, false))
                && *s == registry.spec_map()[(serializer_id, message_type@, false)],
            None => !registry.spec_map().contains_key((serializer_id, message_type@, false)),
        },
{
    registry.find(serializer_id, message_type, false)
}

/// The serializer registered for type-erased use under the format and
/// message type.
pub fn find_serializer_any<'a, S>(registry: &'a SerializerRegistry<S>, serializer_id: SerializerId, message_type: &str) -> (r: Option<&'a S>)
    ensures
        match r {
            Some(s) => registry.spec_map().contains_key((serializer_id, message_type@, true))
                && *s == registry.spec_map()[(serializer_id, message_type@, true)],
            None => !registry.spec_map().contains_key((serializer_id, message_type@, true)),
        },
{
    registry.find(serializer_id, message_type, true)
}

/// The type-erased serializer for the message type in the first format that
/// has one, trying protobuf before JSON.
pub fn find_serializer_any_all<'a, S>(registry: &'a SerializerRegistry<S>, message_type: &str) -> (r: Option<&'a S>)
    ensures
        match r {
            Some(s) => any_lookup(registry.spec_map(), SerializerId::Unspecified, message_type@)
                == Some(*s),
            None => any_lookup(registry.spec_map(), SerializerId::Unspecified, message_type@)
                is None,
        },
{
    match registry.find(SerializerId::Proto, message_type, true) {
        Some(s) => Some(s),
        None => registry.find(SerializerId::Json, message_type, true),
    }
}

/// The serializer that a type-erased call uses.
fn select_any<'a, S>(registry: &'a SerializerRegistry<S>, serializer_id: SerializerId, message_type: &str) -> (r: Option<&'a S>)
    ensures
        match r {
            Some(s) => any_lookup(registry.spec_map(), serializer_id, message_type@) == Some(*s),
            None => any_lookup(registry.spec_map(), serializer_id, message_type@) is None,
        },
{
    if serializer_id == SerializerId::Unspecified {
        find_serializer_any_all(registry, message_type)
    } else {
        registry.find(serializer_id, message_type, true)
    }
}

/// Encodes `msg` with the serializer registered for typed use under the
/// format and message type; fails with `UnknownType` when there is none.
pub fn serialize<T, S: Serializer<T>>(
    registry: &SerializerRegistry<S>,
    msg: &T,
    serializer_id: SerializerId,
    message_type: &str,
) -> (r: Result<Vec<u8>, SerializerError>)
    ensures
        !registry.spec_map().contains_key((serializer_id, message_type@, false)) ==> r == Err::<
            Vec<u8>,
            SerializerError,
        >(SerializerError::UnknownType),
        registry.spec_map().contains_key((serializer_id, message_type@, false)) ==> call_ensures(
            S::serialize,
            (&registry.spec_map()[(serializer_id, message_type@, false)], msg),
            r,
        ),
{
    match registry.find(serializer_id, message_type, false) {
        None => Err(SerializerError::unknown_type()),
        Some(s) => s.serialize(msg),
    }
}

/// Decodes `bytes` with the serializer registered for typed use under the
/// format and message type; fails with `UnknownType` when there is none.
pub fn deserialize<T, S: Serializer<T>>(
    registry: &SerializerRegistry<S>,
    bytes: &[u8],
    serializer_id: SerializerId,
    message_type: &str,
) -> (r: Result<T, SerializerError>)
    ensures
        !registry.spec_map().contains_key((serializer_id, message_type@, false)) ==> r == Err::<
            T,
            SerializerError,
        >(SerializerError::UnknownType),
        registry.spec_map().contains_key((serializer_id, message_type@, false)) ==> call_ensures(
            S::deserialize,
            (&registry.spec_map()[(serializer_id, message_type@, false)], bytes),
            r,
        ),
{
    match registry.find(serializer_id, message_type, false) {
        None => Err(SerializerError::unknown_type()),
        Some(s) => s.deserialize(bytes),
    }
}

/// Encodes `msg` with the type-erased serializer for the format and message
/// type; with no format chosen, the protobuf serializer and then the JSON one
/// are tried.  Fails with `UnknownType` when none is registered.
pub fn serialize_any<T, S: Serializer<T>>(
    registry: &SerializerRegistry<S>,
    msg: &T,
    serializer_id: SerializerId,
    message_type: &str,
) -> (r: Result<Vec<u8>, SerializerError>)
    ensures
        any_lookup(registry.spec_map(), serializer_id, message_type@) is None ==> r == Err::<
            Vec<u8>,
            SerializerError,
        >(SerializerError::UnknownType),
        any_lookup(registry.spec_map(), serializer_id, message_type@) is Some ==> call_ensures(
            S::serialize,
            (&any_lookup(registry.spec_map(), serializer_id, message_type@)->0, msg),
            r,
        ),
{
    match select_any(registry, serializer_id, message_type) {
        None => Err(SerializerError::unknown_type()),
        Some(s) => s.serialize(msg),
    }
}

/// Decodes `bytes` with the type-erased serializer for the format and
/// message type; with no format chosen, the protobuf serializer and then the
/// JSON one are tried.  Fails with `UnknownType` when none is registered.
pub fn deserialize_any<T, S: Serializer<T>>(
    registry: &SerializerRegistry<S>,
    bytes: &[u8],
    serializer_id: SerializerId,
    message_type: &str,
) -> (r: Result<T, SerializerError>)
    ensures
        any_lookup(registry.spec_map(), serializer_id, message_type@) is None ==> r == Err::<
            T,
            SerializerError,
        >(SerializerError::UnknownType),
        any_lookup(registry.spec_map(), serializer_id, message_type@) is Some ==> call_ensures(
            S::deserialize,
            (&any_lookup(registry.spec_map(), serializer_id, message_type@)->0, bytes),
            r,
        ),
{
    match select_any(registry, serializer_id, message_type) {
        None => Err(SerializerError::unknown_type()),
        Some(s) => s.deserialize(bytes),
    }
}

/// A serializer registered under a key is the one found under that key,
/// and registering leaves what is found under every other key unchanged.
pub proof fn lemma_register_then_find<S>(
    registered: Map<SerializerKeyView, S>,
    key: SerializerKeyView,
    serializer: S,
    other: SerializerKeyView,
)
    requires
        other != key,
    ensures
        registered.insert(key, serializer).contains_key(key),
        registered.insert(key, serializer)[key] == serializer,
        registered.insert(key, serializer).contains_key(other) == registered.contains_key(other),
        registered.contains_key(other) ==> registered.insert(key, serializer)[other]
            == registered[other],
{
}

} // verus!
