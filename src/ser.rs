//! The adapter for dynamic serialization.
//!
//! [`InplaceSerializer`] holds a concrete serializer until one call consumes
//! it. A call for a primitive value leaves the backend's output in the slot;
//! a call that begins a composite value (a sequence, a tuple, a map, a
//! struct, or one of their variant forms) leaves the matching builder, which
//! takes elements or fields, one call each, until the call that ends it
//! leaves the output. The backend calls are handed in as closures; a call
//! that does not fit the slot's state returns a protocol-violation error and
//! leaves the slot as it was.
use vstd::prelude::*;
use vstd::string::StringExecFns;
use crate::error::ErrorSource;

verus! {

/// The signal that the serializer adapter returns from a call.
#[derive(Clone, Copy, Debug, PartialEq, Eq, Structural)]
pub enum InplaceSerializeError {
    /// The backend failed; its error is held by the adapter.
    Error,
    /// The adapter does not hold a serializer.
    NotSerializer,
    /// The adapter does not hold the builder of a sequence.
    NotSerializeSeq,
    /// The adapter does not hold the builder of a tuple.
    NotSerializeTuple,
    /// The adapter does not hold the builder of a tuple struct.
    NotSerializeTupleStruct,
    /// The adapter does not hold the builder of a tuple variant.
    NotSerializeTupleVariant,
    /// The adapter does not hold the builder of a map.
    NotSerializeMap,
    /// The adapter does not hold the builder of a struct.
    NotSerializeStruct,
    /// The adapter does not hold the builder of a struct variant.
    NotSerializeStructVariant,
}

/// The message of a signal.
pub open spec fn signal_text(e: InplaceSerializeError) -> Seq<char> {
    match e {
        InplaceSerializeError::Error => "the in-place serialization has done unsuccessfully"@,
        InplaceSerializeError::NotSerializer => "the in-place serializer is not ready"@,
        InplaceSerializeError::NotSerializeSeq =>
            "the in-place serializer is not ready to serialize the content of the seq"@,
        InplaceSerializeError::NotSerializeTuple =>
            "the in-place serializer is not ready to serialize the content of the tuple"@,
        InplaceSerializeError::NotSerializeTupleStruct =>
            "the in-place serializer is not ready to serialize the content of the tuple struct"@,
        InplaceSerializeError::NotSerializeTupleVariant =>
            "the in-place serializer is not ready to serialize the content of the tuple variant"@,
        InplaceSerializeError::NotSerializeMap =>
            "the in-place serializer is not ready to serialize the content of the map"@,
        InplaceSerializeError::NotSerializeStruct =>
            "the in-place serializer is not ready to serialize the content of the struct"@,
        InplaceSerializeError::NotSerializeStructVariant =>
            "the in-place serializer is not ready to serialize the content of the struct variant"@,
    }
}

impl InplaceSerializeError {
    /// The message of this signal.
    pub fn message(&self) -> (r: &'static str)
        ensures
            r@ == signal_text(*self),
    {
        match self {
            InplaceSerializeError::Error => "the in-place serialization has done unsuccessfully",
            InplaceSerializeError::NotSerializer => "the in-place serializer is not ready",
            InplaceSerializeError::NotSerializeSeq =>
                "the in-place serializer is not ready to serialize the content of the seq",
            InplaceSerializeError::NotSerializeTuple =>
                "the in-place serializer is not ready to serialize the content of the tuple",
            InplaceSerializeError::NotSerializeTupleStruct =>
                "the in-place serializer is not ready to serialize the content of the tuple struct",
            InplaceSerializeError::NotSerializeTupleVariant =>
                "the in-place serializer is not ready to serialize the content of the tuple variant",
            InplaceSerializeError::NotSerializeMap =>
                "the in-place serializer is not ready to serialize the content of the map",
            InplaceSerializeError::NotSerializeStruct =>
                "the in-place serializer is not ready to serialize the content of the struct",
            InplaceSerializeError::NotSerializeStructVariant =>
                "the in-place serializer is not ready to serialize the content of the struct variant",
        }
    }
}

/// The error of a dynamic serialization: a message that a backend or a
/// value reported, or a signal of the adapter.
#[derive(Debug)]
pub struct SerializeError {
    repr: Result<String, InplaceSerializeError>,
}

impl View for SerializeError {
    type V = Result<Seq<char>, InplaceSerializeError>;

    closed spec fn view(&self) -> Result<Seq<char>, InplaceSerializeError> {
        match self.repr {
            Ok(msg) => Ok(msg@),
            Err(e) => Err(e),
        }
    }
}

/// The message of a serialization error.
pub open spec fn serialize_error_text(e: Result<Seq<char>, InplaceSerializeError>) -> Seq<char> {
    match e {
        Ok(msg) => msg,
        Err(signal) => signal_text(signal),
    }
}

impl SerializeError {
    /// The error that carries an adapter's signal.
    pub fn from_signal(signal: InplaceSerializeError) -> (r: SerializeError)
        ensures
            r@ == Err::<Seq<char>, InplaceSerializeError>(signal),
    {
        SerializeError { repr: Err(signal) }
    }

    /// The error with a free-text message.
    pub fn custom(msg: String) -> (r: SerializeError)
        ensures
            r@ == Ok::<Seq<char>, InplaceSerializeError>(msg@),
    {
        SerializeError { repr: Ok(msg) }
    }

    /// The adapter's signal that this error carries, if it carries one.
    pub fn signal(&self) -> (r: Option<InplaceSerializeError>)
        ensures
            r == (match self@ {
                Ok(_) => None,
                Err(signal) => Some(signal),
            }),
    {
        match &self.repr {
            Ok(_) => None,
            Err(signal) => Some(*signal),
        }
    }

    /// The message of this error.
    pub fn message(&self) -> (r: String)
        ensures
            r@ == serialize_error_text(self@),
    {
        match &self.repr {
            Ok(msg) => msg.clone(),
            Err(signal) => String::from_str(signal.message()),
        }
    }
}

/// A slot that holds a concrete serializer, then the builder of the
/// composite value it began, until the output is produced.
///
/// `S` is the serializer, `O` its output and `E` its error; the other
/// parameters are its builders, one for each shape of composite value.
pub enum InplaceSerializer<S, O, E, Q, T, TS, TV, M, R, RV> {
    /// The serializer has been consumed.
    Empty,
    /// The serialization produced this output.
    Produced(O),
    /// The serialization failed with this error.
    Error(E),
    /// The serializer is ready.
    Serializer(S),
    /// The builder of a sequence is ready for its next part or its end.
    SerializeSeq(Q),
    /// The builder of a tuple is ready for its next part or its end.
    SerializeTuple(T),
    /// The builder of a tuple struct is ready for its next part or its end.
    SerializeTupleStruct(TS),
    /// The builder of a tuple variant is ready for its next part or its end.
    SerializeTupleVariant(TV),
    /// The builder of a map is ready for its next part or its end.
    SerializeMap(M),
    /// The builder of a struct is ready for its next part or its end.
    SerializeStruct(R),
    /// The builder of a struct variant is ready for its next part or its end.
    SerializeStructVariant(RV),
}

impl<S, O, E, Q, T, TS, TV, M, R, RV> InplaceSerializer<S, O, E, Q, T, TS, TV, M, R, RV> {
    /// The serializer, if the slot holds it.
    pub open spec fn as_serializer(self) -> Option<S> {
        match self {
            InplaceSerializer::Serializer(s) => Some(s),
            _ => None,
        }
    }

    /// The builder of a sequence, if the slot holds it.
    pub open spec fn as_seq(self) -> Option<Q> {
        match self {
            InplaceSerializer::SerializeSeq(b) => Some(b),
            _ => None,
        }
    }

    /// The builder of a tuple, if the slot holds it.
    pub open spec fn as_tuple(self) -> Option<T> {
        match self {
            InplaceSerializer::SerializeTuple(b) => Some(b),
            _ => None,
        }
    }

    /// The builder of a tuple struct, if the slot holds it.
    pub open spec fn as_tuple_struct(self) -> Option<TS> {
        match self {
            InplaceSerializer::SerializeTupleStruct(b) => Some(b),
            _ => None,
        }
    }

    /// The builder of a tuple variant, if the slot holds it.
    pub open spec fn as_tuple_variant(self) -> Option<TV> {
        match self {
            InplaceSerializer::SerializeTupleVariant(b) => Some(b),
            _ => None,
        }
    }

    /// The builder of a map, if the slot holds it.
    pub open spec fn as_map(self) -> Option<M> {
        match self {
            InplaceSerializer::SerializeMap(b) => Some(b),
            _ => None,
        }
    }

    /// The builder of a struct, if the slot holds it.
    pub open spec fn as_struct(self) -> Option<R> {
        match self {
            InplaceSerializer::SerializeStruct(b) => Some(b),
            _ => None,
        }
    }

    /// The builder of a struct variant, if the slot holds it.
    pub open spec fn as_struct_variant(self) -> Option<RV> {
        match self {
            InplaceSerializer::SerializeStructVariant(b) => Some(b),
            _ => None,
        }
    }

    /// Whether the slot holds neither the serializer nor a builder: the
    /// output, the backend's error, or nothing.
    pub open spec fn is_settled(self) -> bool {
        self is Empty || self is Produced || self is Error
    }

    /// The state after a call that consumes `held` (the serializer or a
    /// builder, if the slot holds the one the call needs) to produce the
    /// output, and the signal it returns, given what the backend answered if
    /// it was asked.
    pub open spec fn finish_step<X>(self, held: Option<X>, answer: Result<O, E>, refusal: InplaceSerializeError) -> (Self, Result<(), InplaceSerializeError>) {
        match held {
            Some(_) => match answer {
                Ok(o) => (InplaceSerializer::Produced(o), Ok(())),
                Err(e) => (InplaceSerializer::Error(e), Err(InplaceSerializeError::Error)),
            },
            None => (self, Err(refusal)),
        }
    }

    /// The state after a call that turns the serializer into a builder
    /// (`started` is the slot with the builder in it), and the signal it returns,
    /// given what the backend answered if it was asked.
    pub open spec fn begin_step<X>(self, answer: Result<X, E>, started: Self) -> (Self, Result<(), InplaceSerializeError>) {
        match self {
            InplaceSerializer::Serializer(_) => match answer {
                Ok(_) => (started, Ok(())),
                Err(e) => (InplaceSerializer::Error(e), Err(InplaceSerializeError::Error)),
            },
            _ => (self, Err(InplaceSerializeError::NotSerializer)),
        }
    }

    /// The state after a call that feeds one part to the builder `held`,
    /// and the signal it returns, given the builder and the answer that the
    /// backend gave back (`restored` is the slot with that builder back in it).
    pub open spec fn part_step<X>(self, held: Option<X>, answer: (X, Result<(), E>), restored: Self, refusal: InplaceSerializeError) -> (Self, Result<(), InplaceSerializeError>) {
        match held {
            Some(_) => match answer.1 {
                Ok(()) => (restored, Ok(())),
                Err(e) => (InplaceSerializer::Error(e), Err(InplaceSerializeError::Error)),
            },
            None => (self, Err(refusal)),
        }
    }

    /// Takes the serializer out of the slot, leaving it empty.
    fn take(&mut self) -> (r: Result<S, InplaceSerializeError>)
        ensures
            old(self).as_serializer() is Some ==> r == Ok::<S, InplaceSerializeError>(old(self).as_serializer()->Some_0) && *final(self) is Empty,
            old(self).as_serializer() is None ==> r == Err::<S, InplaceSerializeError>(InplaceSerializeError::NotSerializer) && *final(self) == *old(self),
    {
        let mut taken = InplaceSerializer::Empty;
        std::mem::swap(self, &mut taken);
        match taken {
            InplaceSerializer::Serializer(s) => Ok(s),
            other => {
                *self = other;
                Err(InplaceSerializeError::NotSerializer)
            },
        }
    }

    /// Takes the builder of a sequence out of the slot, leaving it empty.
    fn take_seq(&mut self) -> (r: Result<Q, InplaceSerializeError>)
        ensures
            old(self).as_seq() is Some ==> r == Ok::<Q, InplaceSerializeError>(old(self).as_seq()->Some_0) && *final(self) is Empty,
            old(self).as_seq() is None ==> r == Err::<Q, InplaceSerializeError>(InplaceSerializeError::NotSerializeSeq) && *final(self) == *old(self),
    {
        let mut taken = InplaceSerializer::Empty;
        std::mem::swap(self, &mut taken);
        match taken {
            InplaceSerializer::SerializeSeq(b) => Ok(b),
            other => {
                *self = other;
                Err(InplaceSerializeError::NotSerializeSeq)
            },
        }
    }

    /// Takes the builder of a tuple out of the slot, leaving it empty.
    fn take_tuple(&mut self) -> (r: Result<T, InplaceSerializeError>)
        ensures
            old(self).as_tuple() is Some ==> r == Ok::<T, InplaceSerializeError>(old(self).as_tuple()->Some_0) && *final(self) is Empty,
            old(self).as_tuple() is None ==> r == Err::<T, InplaceSerializeError>(InplaceSerializeError::NotSerializeTuple) && *final(self) == *old(self),
    {
        let mut taken = InplaceSerializer::Empty;
        std::mem::swap(self, &mut taken);
        match taken {
            InplaceSerializer::SerializeTuple(b) => Ok(b),
            other => {
                *self = other;
                Err(InplaceSerializeError::NotSerializeTuple)
            },
        }
    }

    /// Takes the builder of a tuple struct out of the slot, leaving it empty.
    fn take_tuple_struct(&mut self) -> (r: Result<TS, InplaceSerializeError>)
        ensures
            old(self).as_tuple_struct() is Some ==> r == Ok::<TS, InplaceSerializeError>(old(self).as_tuple_struct()->Some_0) && *final(self) is Empty,
            old(self).as_tuple_struct() is None ==> r == Err::<TS, InplaceSerializeError>(InplaceSerializeError::NotSerializeTupleStruct) && *final(self) == *old(self),
    {
        let mut taken = InplaceSerializer::Empty;
        std::mem::swap(self, &mut taken);
        match taken {
            InplaceSerializer::SerializeTupleStruct(b) => Ok(b),
            other => {
                *self = other;
                Err(InplaceSerializeError::NotSerializeTupleStruct)
            },
        }
    }

    /// Takes the builder of a tuple variant out of the slot, leaving it empty.
    fn take_tuple_variant(&mut self) -> (r: Result<TV, InplaceSerializeError>)
        ensures
            old(self).as_tuple_variant() is Some ==> r == Ok::<TV, InplaceSerializeError>(old(self).as_tuple_variant()->Some_0) && *final(self) is Empty,
            old(self).as_tuple_variant() is None ==> r == Err::<TV, InplaceSerializeError>(InplaceSerializeError::NotSerializeTupleVariant) && *final(self) == *old(self),
    {
        let mut taken = InplaceSerializer::Empty;
        std::mem::swap(self, &mut taken);
        match taken {
            InplaceSerializer::SerializeTupleVariant(b) => Ok(b),
            other => {
                *self = other;
                Err(InplaceSerializeError::NotSerializeTupleVariant)
            },
        }
    }

    /// Takes the builder of a map out of the slot, leaving it empty.
    fn take_map(&mut self) -> (r: Result<M, InplaceSerializeError>)
        ensures
            old(self).as_map() is Some ==> r == Ok::<M, InplaceSerializeError>(old(self).as_map()->Some_0) && *final(self) is Empty,
            old(self).as_map() is None ==> r == Err::<M, InplaceSerializeError>(InplaceSerializeError::NotSerializeMap) && *final(self) == *old(self),
    {
        let mut taken = InplaceSerializer::Empty;
        std::mem::swap(self, &mut taken);
        match taken {
            InplaceSerializer::SerializeMap(b) => Ok(b),
            other => {
                *self = other;
                Err(InplaceSerializeError::NotSerializeMap)
            },
        }
    }

    /// Takes the builder of a struct out of the slot, leaving it empty.
    fn take_struct(&mut self) -> (r: Result<R, InplaceSerializeError>)
        ensures
            old(self).as_struct() is Some ==> r == Ok::<R, InplaceSerializeError>(old(self).as_struct()->Some_0) && *final(self) is Empty,
            old(self).as_struct() is None ==> r == Err::<R, InplaceSerializeError>(InplaceSerializeError::NotSerializeStruct) && *final(self) == *old(self),
    {
        let mut taken = InplaceSerializer::Empty;
        std::mem::swap(self, &mut taken);
        match taken {
            InplaceSerializer::SerializeStruct(b) => Ok(b),
            other => {
                *self = other;
                Err(InplaceSerializeError::NotSerializeStruct)
            },
        }
    }

    /// Takes the builder of a struct variant out of the slot, leaving it empty.
    fn take_struct_variant(&mut self) -> (r: Result<RV, InplaceSerializeError>)
        ensures
            old(self).as_struct_variant() is Some ==> r == Ok::<RV, InplaceSerializeError>(old(self).as_struct_variant()->Some_0) && *final(self) is Empty,
            old(self).as_struct_variant() is None ==> r == Err::<RV, InplaceSerializeError>(InplaceSerializeError::NotSerializeStructVariant) && *final(self) == *old(self),
    {
        let mut taken = InplaceSerializer::Empty;
        std::mem::swap(self, &mut taken);
        match taken {
            InplaceSerializer::SerializeStructVariant(b) => Ok(b),
            other => {
                *self = other;
                Err(InplaceSerializeError::NotSerializeStructVariant)
            },
        }
    }

    /// Takes the serializer out and hands it to `f`, which serializes one
    /// value that needs no builder; the output or the backend's error stays
    /// in the slot.
    pub fn serialize_with<F>(&mut self, f: F) -> (r: Result<(), InplaceSerializeError>) where
        F: FnOnce(S) -> Result<O, E>,
        requires
            old(self).as_serializer() is Some ==> f.requires((old(self).as_serializer()->Some_0,)),
        ensures
            exists|answer: Result<O, E>|
                {
                    &&& (old(self).as_serializer() is Some ==> f.ensures((old(self).as_serializer()->Some_0,), answer))
                    &&& #[trigger] old(self).finish_step(old(self).as_serializer(), answer, InplaceSerializeError::NotSerializer) == (*final(self), r)
                },
    {
        let ghost before = *self;
        match self.take() {
            Ok(s) => {
                let answer = f(s);
                let ghost given = answer;
                let r = match answer {
                    Ok(o) => {
                        *self = InplaceSerializer::Produced(o);
                        Ok(())
                    },
                    Err(e) => {
                        *self = InplaceSerializer::Error(e);
                        Err(InplaceSerializeError::Error)
                    },
                };
                assert(before.finish_step(before.as_serializer(), given, InplaceSerializeError::NotSerializer) == (*self, r));
                r
            },
            Err(signal) => {
                let r = Err(signal);
                assert(before.finish_step(before.as_serializer(), vstd::pervasive::arbitrary(), InplaceSerializeError::NotSerializer) == (*self, r));
                r
            },
        }
    }

    /// Takes the serializer out and hands it to `f`, which begins a sequence; the
    /// builder it gives back stays in the slot.
    pub fn begin_seq<F>(&mut self, f: F) -> (r: Result<(), InplaceSerializeError>) where
        F: FnOnce(S) -> Result<Q, E>,
        requires
            old(self).as_serializer() is Some ==> f.requires((old(self).as_serializer()->Some_0,)),
        ensures
            exists|answer: Result<Q, E>|
                {
                    &&& (old(self).as_serializer() is Some ==> f.ensures((old(self).as_serializer()->Some_0,), answer))
                    &&& #[trigger] old(self).begin_step(answer, InplaceSerializer::SerializeSeq(answer->Ok_0)) == (*final(self), r)
                },
    {
        let ghost before = *self;
        match self.take() {
            Ok(s) => {
                let answer = f(s);
                let ghost given = answer;
                let r = match answer {
                    Ok(b) => {
                        *self = InplaceSerializer::SerializeSeq(b);
                        Ok(())
                    },
                    Err(e) => {
                        *self = InplaceSerializer::Error(e);
                        Err(InplaceSerializeError::Error)
                    },
                };
                assert(before.begin_step(given, InplaceSerializer::SerializeSeq(given->Ok_0)) == (*self, r));
                r
            },
            Err(signal) => {
                let r = Err(signal);
                let ghost arb: Result<Q, E> = vstd::pervasive::arbitrary();
                assert(before.begin_step(arb, InplaceSerializer::SerializeSeq(arb->Ok_0)) == (*self, r));
                r
            },
        }
    }

    /// Hands the builder of a sequence to `f`, which feeds it one part and gives
    /// it back with the backend's answer; the builder goes back in the slot
    /// unless the backend failed.
    pub fn seq_part_with<F>(&mut self, f: F) -> (r: Result<(), InplaceSerializeError>) where
        F: FnOnce(Q) -> (Q, Result<(), E>),
        requires
            old(self).as_seq() is Some ==> f.requires((old(self).as_seq()->Some_0,)),
        ensures
            exists|answer: (Q, Result<(), E>)|
                {
                    &&& (old(self).as_seq() is Some ==> f.ensures((old(self).as_seq()->Some_0,), answer))
                    &&& #[trigger] old(self).part_step(old(self).as_seq(), answer, InplaceSerializer::SerializeSeq(answer.0), InplaceSerializeError::NotSerializeSeq) == (*final(self), r)
                },
    {
        let ghost before = *self;
        match self.take_seq() {
            Ok(b) => {
                let (b, answer) = f(b);
                let ghost given = (b, answer);
                let r = match answer {
                    Ok(()) => {
                        *self = InplaceSerializer::SerializeSeq(b);
                        Ok(())
                    },
                    Err(e) => {
                        *self = InplaceSerializer::Error(e);
                        Err(InplaceSerializeError::Error)
                    },
                };
                assert(before.part_step(before.as_seq(), given, InplaceSerializer::SerializeSeq(given.0), InplaceSerializeError::NotSerializeSeq) == (*self, r));
                r
            },
            Err(signal) => {
                let r = Err(signal);
                let ghost arb: (Q, Result<(), E>) = vstd::pervasive::arbitrary();
                assert(before.part_step(before.as_seq(), arb, InplaceSerializer::SerializeSeq(arb.0), InplaceSerializeError::NotSerializeSeq) == (*self, r));
                r
            },
        }
    }

    /// Takes the builder of a sequence out and hands it to `f`, which ends it; the
    /// output or the backend's error stays in the slot.
    pub fn end_seq<F>(&mut self, f: F) -> (r: Result<(), InplaceSerializeError>) where
        F: FnOnce(Q) -> Result<O, E>,
        requires
            old(self).as_seq() is Some ==> f.requires((old(self).as_seq()->Some_0,)),
        ensures
            exists|answer: Result<O, E>|
                {
                    &&& (old(self).as_seq() is Some ==> f.ensures((old(self).as_seq()->Some_0,), answer))
                    &&& #[trigger] old(self).finish_step(old(self).as_seq(), answer, InplaceSerializeError::NotSerializeSeq) == (*final(self), r)
                },
    {
        let ghost before = *self;
        match self.take_seq() {
            Ok(b) => {
                let answer = f(b);
                let ghost given = answer;
                let r = match answer {
                    Ok(o) => {
                        *self = InplaceSerializer::Produced(o);
                        Ok(())
                    },
                    Err(e) => {
                        *self = InplaceSerializer::Error(e);
                        Err(InplaceSerializeError::Error)
                    },
                };
                assert(before.finish_step(before.as_seq(), given, InplaceSerializeError::NotSerializeSeq) == (*self, r));
                r
            },
            Err(signal) => {
                let r = Err(signal);
                assert(before.finish_step(before.as_seq(), vstd::pervasive::arbitrary(), InplaceSerializeError::NotSerializeSeq) == (*self, r));
                r
            },
        }
    }

    /// Takes the serializer out and hands it to `f`, which begins a tuple; the
    /// builder it gives back stays in the slot.
    pub fn begin_tuple<F>(&mut self, f: F) -> (r: Result<(), InplaceSerializeError>) where
        F: FnOnce(S) -> Result<T, E>,
        requires
            old(self).as_serializer() is Some ==> f.requires((old(self).as_serializer()->Some_0,)),
        ensures
            exists|answer: Result<T, E>|
                {
                    &&& (old(self).as_serializer() is Some ==> f.ensures((old(self).as_serializer()->Some_0,), answer))
                    &&& #[trigger] old(self).begin_step(answer, InplaceSerializer::SerializeTuple(answer->Ok_0)) == (*final(self), r)
                },
    {
        let ghost before = *self;
        match self.take() {
            Ok(s) => {
                let answer = f(s);
                let ghost given = answer;
                let r = match answer {
                    Ok(b) => {
                        *self = InplaceSerializer::SerializeTuple(b);
                        Ok(())
                    },
                    Err(e) => {
                        *self = InplaceSerializer::Error(e);
                        Err(InplaceSerializeError::Error)
                    },
                };
                assert(before.begin_step(given, InplaceSerializer::SerializeTuple(given->Ok_0)) == (*self, r));
                r
            },
            Err(signal) => {
                let r = Err(signal);
                let ghost arb: Result<T, E> = vstd::pervasive::arbitrary();
                assert(before.begin_step(arb, InplaceSerializer::SerializeTuple(arb->Ok_0)) == (*self, r));
                r
            },
        }
    }

    /// Hands the builder of a tuple to `f`, which feeds it one part and gives
    /// it back with the backend's answer; the builder goes back in the slot
    /// unless the backend failed.
    pub fn tuple_part_with<F>(&mut self, f: F) -> (r: Result<(), InplaceSerializeError>) where
        F: FnOnce(T) -> (T, Result<(), E>),
        requires
            old(self).as_tuple() is Some ==> f.requires((old(self).as_tuple()->Some_0,)),
        ensures
            exists|answer: (T, Result<(), E>)|
                {
                    &&& (old(self).as_tuple() is Some ==> f.ensures((old(self).as_tuple()->Some_0,), answer))
                    &&& #[trigger] old(self).part_step(old(self).as_tuple(), answer, InplaceSerializer::SerializeTuple(answer.0), InplaceSerializeError::NotSerializeTuple) == (*final(self), r)
                },
    {
        let ghost before = *self;
        match self.take_tuple() {
            Ok(b) => {
                let (b, answer) = f(b);
                let ghost given = (b, answer);
                let r = match answer {
                    Ok(()) => {
                        *self = InplaceSerializer::SerializeTuple(b);
                        Ok(())
                    },
                    Err(e) => {
                        *self = InplaceSerializer::Error(e);
                        Err(InplaceSerializeError::Error)
                    },
                };
                assert(before.part_step(before.as_tuple(), given, InplaceSerializer::SerializeTuple(given.0), InplaceSerializeError::NotSerializeTuple) == (*self, r));
                r
            },
            Err(signal) => {
                let r = Err(signal);
                let ghost arb: (T, Result<(), E>) = vstd::pervasive::arbitrary();
                assert(before.part_step(before.as_tuple(), arb, InplaceSerializer::SerializeTuple(arb.0), InplaceSerializeError::NotSerializeTuple) == (*self, r));
                r
            },
        }
    }

    /// Takes the builder of a tuple out and hands it to `f`, which ends it; the
    /// output or the backend's error stays in the slot.
    pub fn end_tuple<F>(&mut self, f: F) -> (r: Result<(), InplaceSerializeError>) where
        F: FnOnce(T) -> Result<O, E>,
        requires
            old(self).as_tuple() is Some ==> f.requires((old(self).as_tuple()->Some_0,)),
        ensures
            exists|answer: Result<O, E>|
                {
                    &&& (old(self).as_tuple() is Some ==> f.ensures((old(self).as_tuple()->Some_0,), answer))
                    &&& #[trigger] old(self).finish_step(old(self).as_tuple(), answer, InplaceSerializeError::NotSerializeTuple) == (*final(self), r)
                },
    {
        let ghost before = *self;
        match self.take_tuple() {
            Ok(b) => {
                let answer = f(b);
                let ghost given = answer;
                let r = match answer {
                    Ok(o) => {
                        *self = InplaceSerializer::Produced(o);
                        Ok(())
                    },
                    Err(e) => {
                        *self = InplaceSerializer::Error(e);
                        Err(InplaceSerializeError::Error)
                    },
                };
                assert(before.finish_step(before.as_tuple(), given, InplaceSerializeError::NotSerializeTuple) == (*self, r));
                r
            },
            Err(signal) => {
                let r = Err(signal);
                assert(before.finish_step(before.as_tuple(), vstd::pervasive::arbitrary(), InplaceSerializeError::NotSerializeTuple) == (*self, r));
                r
            },
        }
    }

    /// Takes the serializer out and hands it to `f`, which begins a tuple struct; the
    /// builder it gives back stays in the slot.
    pub fn begin_tuple_struct<F>(&mut self, f: F) -> (r: Result<(), InplaceSerializeError>) where
        F: FnOnce(S) -> Result<TS, E>,
        requires
            old(self).as_serializer() is Some ==> f.requires((old(self).as_serializer()->Some_0,)),
        ensures
            exists|answer: Result<TS, E>|
                {
                    &&& (old(self).as_serializer() is Some ==> f.ensures((old(self).as_serializer()->Some_0,), answer))
                    &&& #[trigger] old(self).begin_step(answer, InplaceSerializer::SerializeTupleStruct(answer->Ok_0)) == (*final(self), r)
                },
    {
        let ghost before = *self;
        match self.take() {
            Ok(s) => {
                let answer = f(s);
                let ghost given = answer;
                let r = match answer {
                    Ok(b) => {
                        *self = InplaceSerializer::SerializeTupleStruct(b);
                        Ok(())
                    },
                    Err(e) => {
                        *self = InplaceSerializer::Error(e);
                        Err(InplaceSerializeError::Error)
                    },
                };
                assert(before.begin_step(given, InplaceSerializer::SerializeTupleStruct(given->Ok_0)) == (*self, r));
                r
            },
            Err(signal) => {
                let r = Err(signal);
                let ghost arb: Result<TS, E> = vstd::pervasive::arbitrary();
                assert(before.begin_step(arb, InplaceSerializer::SerializeTupleStruct(arb->Ok_0)) == (*self, r));
                r
            },
        }
    }

    /// Hands the builder of a tuple struct to `f`, which feeds it one part and gives
    /// it back with the backend's answer; the builder goes back in the slot
    /// unless the backend failed.
    pub fn tuple_struct_part_with<F>(&mut self, f: F) -> (r: Result<(), InplaceSerializeError>) where
        F: FnOnce(TS) -> (TS, Result<(), E>),
        requires
            old(self).as_tuple_struct() is Some ==> f.requires((old(self).as_tuple_struct()->Some_0,)),
        ensures
            exists|answer: (TS, Result<(), E>)|
                {
                    &&& (old(self).as_tuple_struct() is Some ==> f.ensures((old(self).as_tuple_struct()->Some_0,), answer))
                    &&& #[trigger] old(self).part_step(old(self).as_tuple_struct(), answer, InplaceSerializer::SerializeTupleStruct(answer.0), InplaceSerializeError::NotSerializeTupleStruct) == (*final(self), r)
                },
    {
        let ghost before = *self;
        match self.take_tuple_struct() {
            Ok(b) => {
                let (b, answer) = f(b);
                let ghost given = (b, answer);
                let r = match answer {
                    Ok(()) => {
                        *self = InplaceSerializer::SerializeTupleStruct(b);
                        Ok(())
                    },
                    Err(e) => {
                        *self = InplaceSerializer::Error(e);
                        Err(InplaceSerializeError::Error)
                    },
                };
                assert(before.part_step(before.as_tuple_struct(), given, InplaceSerializer::SerializeTupleStruct(given.0), InplaceSerializeError::NotSerializeTupleStruct) == (*self, r));
                r
            },
            Err(signal) => {
                let r = Err(signal);
                let ghost arb: (TS, Result<(), E>) = vstd::pervasive::arbitrary();
                assert(before.part_step(before.as_tuple_struct(), arb, InplaceSerializer::SerializeTupleStruct(arb.0), InplaceSerializeError::NotSerializeTupleStruct) == (*self, r));
                r
            },
        }
    }

    /// Takes the builder of a tuple struct out and hands it to `f`, which ends it; the
    /// output or the backend's error stays in the slot.
    pub fn end_tuple_struct<F>(&mut self, f: F) -> (r: Result<(), InplaceSerializeError>) where
        F: FnOnce(TS) -> Result<O, E>,
        requires
            old(self).as_tuple_struct() is Some ==> f.requires((old(self).as_tuple_struct()->Some_0,)),
        ensures
            exists|answer: Result<O, E>|
                {
                    &&& (old(self).as_tuple_struct() is Some ==> f.ensures((old(self).as_tuple_struct()->Some_0,), answer))
                    &&& #[trigger] old(self).finish_step(old(self).as_tuple_struct(), answer, InplaceSerializeError::NotSerializeTupleStruct) == (*final(self), r)
                },
    {
        let ghost before = *self;
        match self.take_tuple_struct() {
            Ok(b) => {
                let answer = f(b);
                let ghost given = answer;
                let r = match answer {
                    Ok(o) => {
                        *self = InplaceSerializer::Produced(o);
                        Ok(())
                    },
                    Err(e) => {
                        *self = InplaceSerializer::Error(e);
                        Err(InplaceSerializeError::Error)
                    },
                };
                assert(before.finish_step(before.as_tuple_struct(), given, InplaceSerializeError::NotSerializeTupleStruct) == (*self, r));
                r
            },
            Err(signal) => {
                let r = Err(signal);
                assert(before.finish_step(before.as_tuple_struct(), vstd::pervasive::arbitrary(), InplaceSerializeError::NotSerializeTupleStruct) == (*self, r));
                r
            },
        }
    }

    /// Takes the serializer out and hands it to `f`, which begins a tuple variant; the
    /// builder it gives back stays in the slot.
    pub fn begin_tuple_variant<F>(&mut self, f: F) -> (r: Result<(), InplaceSerializeError>) where
        F: FnOnce(S) -> Result<TV, E>,
        requires
            old(self).as_serializer() is Some ==> f.requires((old(self).as_serializer()->Some_0,)),
        ensures
            exists|answer: Result<TV, E>|
                {
                    &&& (old(self).as_serializer() is Some ==> f.ensures((old(self).as_serializer()->Some_0,), answer))
                    &&& #[trigger] old(self).begin_step(answer, InplaceSerializer::SerializeTupleVariant(answer->Ok_0)) == (*final(self), r)
                },
    {
        let ghost before = *self;
        match self.take() {
            Ok(s) => {
                let answer = f(s);
                let ghost given = answer;
                let r = match answer {
                    Ok(b) => {
                        *self = InplaceSerializer::SerializeTupleVariant(b);
                        Ok(())
                    },
                    Err(e) => {
                        *self = InplaceSerializer::Error(e);
                        Err(InplaceSerializeError::Error)
                    },
                };
                assert(before.begin_step(given, InplaceSerializer::SerializeTupleVariant(given->Ok_0)) == (*self, r));
                r
            },
            Err(signal) => {
                let r = Err(signal);
                let ghost arb: Result<TV, E> = vstd::pervasive::arbitrary();
                assert(before.begin_step(arb, InplaceSerializer::SerializeTupleVariant(arb->Ok_0)) == (*self, r));
                r
            },
        }
    }

    /// Hands the builder of a tuple variant to `f`, which feeds it one part and gives
    /// it back with the backend's answer; the builder goes back in the slot
    /// unless the backend failed.
    pub fn tuple_variant_part_with<F>(&mut self, f: F) -> (r: Result<(), InplaceSerializeError>) where
        F: FnOnce(TV) -> (TV, Result<(), E>),
        requires
            old(self).as_tuple_variant() is Some ==> f.requires((old(self).as_tuple_variant()->Some_0,)),
        ensures
            exists|answer: (TV, Result<(), E>)|
                {
                    &&& (old(self).as_tuple_variant() is Some ==> f.ensures((old(self).as_tuple_variant()->Some_0,), answer))
                    &&& #[trigger] old(self).part_step(old(self).as_tuple_variant(), answer, InplaceSerializer::SerializeTupleVariant(answer.0), InplaceSerializeError::NotSerializeTupleVariant) == (*final(self), r)
                },
    {
        let ghost before = *self;
        match self.take_tuple_variant() {
            Ok(b) => {
                let (b, answer) = f(b);
                let ghost given = (b, answer);
                let r = match answer {
                    Ok(()) => {
                        *self = InplaceSerializer::SerializeTupleVariant(b);
                        Ok(())
                    },
                    Err(e) => {
                        *self = InplaceSerializer::Error(e);
                        Err(InplaceSerializeError::Error)
                    },
                };
                assert(before.part_step(before.as_tuple_variant(), given, InplaceSerializer::SerializeTupleVariant(given.0), InplaceSerializeError::NotSerializeTupleVariant) == (*self, r));
                r
            },
            Err(signal) => {
                let r = Err(signal);
                let ghost arb: (TV, Result<(), E>) = vstd::pervasive::arbitrary();
                assert(before.part_step(before.as_tuple_variant(), arb, InplaceSerializer::SerializeTupleVariant(arb.0), InplaceSerializeError::NotSerializeTupleVariant) == (*self, r));
                r
            },
        }
    }

    /// Takes the builder of a tuple variant out and hands it to `f`, which ends it; the
    /// output or the backend's error stays in the slot.
    pub fn end_tuple_variant<F>(&mut self, f: F) -> (r: Result<(), InplaceSerializeError>) where
        F: FnOnce(TV) -> Result<O, E>,
        requires
            old(self).as_tuple_variant() is Some ==> f.requires((old(self).as_tuple_variant()->Some_0,)),
        ensures
            exists|answer: Result<O, E>|
                {
                    &&& (old(self).as_tuple_variant() is Some ==> f.ensures((old(self).as_tuple_variant()->Some_0,), answer))
                    &&& #[trigger] old(self).finish_step(old(self).as_tuple_variant(), answer, InplaceSerializeError::NotSerializeTupleVariant) == (*final(self), r)
                },
    {
        let ghost before = *self;
        match self.take_tuple_variant() {
            Ok(b) => {
                let answer = f(b);
                let ghost given = answer;
                let r = match answer {
                    Ok(o) => {
                        *self = InplaceSerializer::Produced(o);
                        Ok(())
                    },
                    Err(e) => {
                        *self = InplaceSerializer::Error(e);
                        Err(InplaceSerializeError::Error)
                    },
                };
                assert(before.finish_step(before.as_tuple_variant(), given, InplaceSerializeError::NotSerializeTupleVariant) == (*self, r));
                r
            },
            Err(signal) => {
                let r = Err(signal);
                assert(before.finish_step(before.as_tuple_variant(), vstd::pervasive::arbitrary(), InplaceSerializeError::NotSerializeTupleVariant) == (*self, r));
                r
            },
        }
    }

    /// Takes the serializer out and hands it to `f`, which begins a map; the
    /// builder it gives back stays in the slot.
    pub fn begin_map<F>(&mut self, f: F) -> (r: Result<(), InplaceSerializeError>) where
        F: FnOnce(S) -> Result<M, E>,
        requires
            old(self).as_serializer() is Some ==> f.requires((old(self).as_serializer()->Some_0,)),
        ensures
            exists|answer: Result<M, E>|
                {
                    &&& (old(self).as_serializer() is Some ==> f.ensures((old(self).as_serializer()->Some_0,), answer))
                    &&& #[trigger] old(self).begin_step(answer, InplaceSerializer::SerializeMap(answer->Ok_0)) == (*final(self), r)
                },
    {
        let ghost before = *self;
        match self.take() {
            Ok(s) => {
                let answer = f(s);
                let ghost given = answer;
                let r = match answer {
                    Ok(b) => {
                        *self = InplaceSerializer::SerializeMap(b);
                        Ok(())
                    },
                    Err(e) => {
                        *self = InplaceSerializer::Error(e);
                        Err(InplaceSerializeError::Error)
                    },
                };
                assert(before.begin_step(given, InplaceSerializer::SerializeMap(given->Ok_0)) == (*self, r));
                r
            },
            Err(signal) => {
                let r = Err(signal);
                let ghost arb: Result<M, E> = vstd::pervasive::arbitrary();
                assert(before.begin_step(arb, InplaceSerializer::SerializeMap(arb->Ok_0)) == (*self, r));
                r
            },
        }
    }

    /// Hands the builder of a map to `f`, which feeds it one part and gives
    /// it back with the backend's answer; the builder goes back in the slot
    /// unless the backend failed.
    pub fn map_part_with<F>(&mut self, f: F) -> (r: Result<(), InplaceSerializeError>) where
        F: FnOnce(M) -> (M, Result<(), E>),
        requires
            old(self).as_map() is Some ==> f.requires((old(self).as_map()->Some_0,)),
        ensures
            exists|answer: (M, Result<(), E>)|
                {
                    &&& (old(self).as_map() is Some ==> f.ensures((old(self).as_map()->Some_0,), answer))
                    &&& #[trigger] old(self).part_step(old(self).as_map(), answer, InplaceSerializer::SerializeMap(answer.0), InplaceSerializeError::NotSerializeMap) == (*final(self), r)
                },
    {
        let ghost before = *self;
        match self.take_map() {
            Ok(b) => {
                let (b, answer) = f(b);
                let ghost given = (b, answer);
                let r = match answer {
                    Ok(()) => {
                        *self = InplaceSerializer::SerializeMap(b);
                        Ok(())
                    },
                    Err(e) => {
                        *self = InplaceSerializer::Error(e);
                        Err(InplaceSerializeError::Error)
                    },
                };
                assert(before.part_step(before.as_map(), given, InplaceSerializer::SerializeMap(given.0), InplaceSerializeError::NotSerializeMap) == (*self, r));
                r
            },
            Err(signal) => {
                let r = Err(signal);
                let ghost arb: (M, Result<(), E>) = vstd::pervasive::arbitrary();
                assert(before.part_step(before.as_map(), arb, InplaceSerializer::SerializeMap(arb.0), InplaceSerializeError::NotSerializeMap) == (*self, r));
                r
            },
        }
    }

    /// Takes the builder of a map out and hands it to `f`, which ends it; the
    /// output or the backend's error stays in the slot.
    pub fn end_map<F>(&mut self, f: F) -> (r: Result<(), InplaceSerializeError>) where
        F: FnOnce(M) -> Result<O, E>,
        requires
            old(self).as_map() is Some ==> f.requires((old(self).as_map()->Some_0,)),
        ensures
            exists|answer: Result<O, E>|
                {
                    &&& (old(self).as_map() is Some ==> f.ensures((old(self).as_map()->Some_0,), answer))
                    &&& #[trigger] old(self).finish_step(old(self).as_map(), answer, InplaceSerializeError::NotSerializeMap) == (*final(self), r)
                },
    {
        let ghost before = *self;
        match self.take_map() {
            Ok(b) => {
                let answer = f(b);
                let ghost given = answer;
                let r = match answer {
                    Ok(o) => {
                        *self = InplaceSerializer::Produced(o);
                        Ok(())
                    },
                    Err(e) => {
                        *self = InplaceSerializer::Error(e);
                        Err(InplaceSerializeError::Error)
                    },
                };
                assert(before.finish_step(before.as_map(), given, InplaceSerializeError::NotSerializeMap) == (*self, r));
                r
            },
            Err(signal) => {
                let r = Err(signal);
                assert(before.finish_step(before.as_map(), vstd::pervasive::arbitrary(), InplaceSerializeError::NotSerializeMap) == (*self, r));
                r
            },
        }
    }

    /// Takes the serializer out and hands it to `f`, which begins a struct; the
    /// builder it gives back stays in the slot.
    pub fn begin_struct<F>(&mut self, f: F) -> (r: Result<(), InplaceSerializeError>) where
        F: FnOnce(S) -> Result<R, E>,
        requires
            old(self).as_serializer() is Some ==> f.requires((old(self).as_serializer()->Some_0,)),
        ensures
            exists|answer: Result<R, E>|
                {
                    &&& (old(self).as_serializer() is Some ==> f.ensures((old(self).as_serializer()->Some_0,), answer))
                    &&& #[trigger] old(self).begin_step(answer, InplaceSerializer::SerializeStruct(answer->Ok_0)) == (*final(self), r)
                },
    {
        let ghost before = *self;
        match self.take() {
            Ok(s) => {
                let answer = f(s);
                let ghost given = answer;
                let r = match answer {
                    Ok(b) => {
                        *self = InplaceSerializer::SerializeStruct(b);
                        Ok(())
                    },
                    Err(e) => {
                        *self = InplaceSerializer::Error(e);
                        Err(InplaceSerializeError::Error)
                    },
                };
                assert(before.begin_step(given, InplaceSerializer::SerializeStruct(given->Ok_0)) == (*self, r));
                r
            },
            Err(signal) => {
                let r = Err(signal);
                let ghost arb: Result<R, E> = vstd::pervasive::arbitrary();
                assert(before.begin_step(arb, InplaceSerializer::SerializeStruct(arb->Ok_0)) == (*self, r));
                r
            },
        }
    }

    /// Hands the builder of a struct to `f`, which feeds it one part and gives
    /// it back with the backend's answer; the builder goes back in the slot
    /// unless the backend failed.
    pub fn struct_part_with<F>(&mut self, f: F) -> (r: Result<(), InplaceSerializeError>) where
        F: FnOnce(R) -> (R, Result<(), E>),
        requires
            old(self).as_struct() is Some ==> f.requires((old(self).as_struct()->Some_0,)),
        ensures
            exists|answer: (R, Result<(), E>)|
                {
                    &&& (old(self).as_struct() is Some ==> f.ensures((old(self).as_struct()->Some_0,), answer))
                    &&& #[trigger] old(self).part_step(old(self).as_struct(), answer, InplaceSerializer::SerializeStruct(answer.0), InplaceSerializeError::NotSerializeStruct) == (*final(self), r)
                },
    {
        let ghost before = *self;
        match self.take_struct() {
            Ok(b) => {
                let (b, answer) = f(b);
                let ghost given = (b, answer);
                let r = match answer {
                    Ok(()) => {
                        *self = InplaceSerializer::SerializeStruct(b);
                        Ok(())
                    },
                    Err(e) => {
                        *self = InplaceSerializer::Error(e);
                        Err(InplaceSerializeError::Error)
                    },
                };
                assert(before.part_step(before.as_struct(), given, InplaceSerializer::SerializeStruct(given.0), InplaceSerializeError::NotSerializeStruct) == (*self, r));
                r
            },
            Err(signal) => {
                let r = Err(signal);
                let ghost arb: (R, Result<(), E>) = vstd::pervasive::arbitrary();
                assert(before.part_step(before.as_struct(), arb, InplaceSerializer::SerializeStruct(arb.0), InplaceSerializeError::NotSerializeStruct) == (*self, r));
                r
            },
        }
    }

    /// Takes the builder of a struct out and hands it to `f`, which ends it; the
    /// output or the backend's error stays in the slot.
    pub fn end_struct<F>(&mut self, f: F) -> (r: Result<(), InplaceSerializeError>) where
        F: FnOnce(R) -> Result<O, E>,
        requires
            old(self).as_struct() is Some ==> f.requires((old(self).as_struct()->Some_0,)),
        ensures
            exists|answer: Result<O, E>|
                {
                    &&& (old(self).as_struct() is Some ==> f.ensures((old(self).as_struct()->Some_0,), answer))
                    &&& #[trigger] old(self).finish_step(old(self).as_struct(), answer, InplaceSerializeError::NotSerializeStruct) == (*final(self), r)
                },
    {
        let ghost before = *self;
        match self.take_struct() {
            Ok(b) => {
                let answer = f(b);
                let ghost given = answer;
                let r = match answer {
                    Ok(o) => {
                        *self = InplaceSerializer::Produced(o);
                        Ok(())
                    },
                    Err(e) => {
                        *self = InplaceSerializer::Error(e);
                        Err(InplaceSerializeError::Error)
                    },
                };
                assert(before.finish_step(before.as_struct(), given, InplaceSerializeError::NotSerializeStruct) == (*self, r));
                r
            },
            Err(signal) => {
                let r = Err(signal);
                assert(before.finish_step(before.as_struct(), vstd::pervasive::arbitrary(), InplaceSerializeError::NotSerializeStruct) == (*self, r));
                r
            },
        }
    }

    /// Takes the serializer out and hands it to `f`, which begins a struct variant; the
    /// builder it gives back stays in the slot.
    pub fn begin_struct_variant<F>(&mut self, f: F) -> (r: Result<(), InplaceSerializeError>) where
        F: FnOnce(S) -> Result<RV, E>,
        requires
            old(self).as_serializer() is Some ==> f.requires((old(self).as_serializer()->Some_0,)),
        ensures
            exists|answer: Result<RV, E>|
                {
                    &&& (old(self).as_serializer() is Some ==> f.ensures((old(self).as_serializer()->Some_0,), answer))
                    &&& #[trigger] old(self).begin_step(answer, InplaceSerializer::SerializeStructVariant(answer->Ok_0)) == (*final(self), r)
                },
    {
        let ghost before = *self;
        match self.take() {
            Ok(s) => {
                let answer = f(s);
                let ghost given = answer;
                let r = match answer {
                    Ok(b) => {
                        *self = InplaceSerializer::SerializeStructVariant(b);
                        Ok(())
                    },
                    Err(e) => {
                        *self = InplaceSerializer::Error(e);
                        Err(InplaceSerializeError::Error)
                    },
                };
                assert(before.begin_step(given, InplaceSerializer::SerializeStructVariant(given->Ok_0)) == (*self, r));
                r
            },
            Err(signal) => {
                let r = Err(signal);
                let ghost arb: Result<RV, E> = vstd::pervasive::arbitrary();
                assert(before.begin_step(arb, InplaceSerializer::SerializeStructVariant(arb->Ok_0)) == (*self, r));
                r
            },
        }
    }

    /// Hands the builder of a struct variant to `f`, which feeds it one part and gives
    /// it back with the backend's answer; the builder goes back in the slot
    /// unless the backend failed.
    pub fn struct_variant_part_with<F>(&mut self, f: F) -> (r: Result<(), InplaceSerializeError>) where
        F: FnOnce(RV) -> (RV, Result<(), E>),
        requires
            old(self).as_struct_variant() is Some ==> f.requires((old(self).as_struct_variant()->Some_0,)),
        ensures
            exists|answer: (RV, Result<(), E>)|
                {
                    &&& (old(self).as_struct_variant() is Some ==> f.ensures((old(self).as_struct_variant()->Some_0,), answer))
                    &&& #[trigger] old(self).part_step(old(self).as_struct_variant(), answer, InplaceSerializer::SerializeStructVariant(answer.0), InplaceSerializeError::NotSerializeStructVariant) == (*final(self), r)
                },
    {
        let ghost before = *self;
        match self.take_struct_variant() {
            Ok(b) => {
                let (b, answer) = f(b);
                let ghost given = (b, answer);
                let r = match answer {
                    Ok(()) => {
                        *self = InplaceSerializer::SerializeStructVariant(b);
                        Ok(())
                    },
                    Err(e) => {
                        *self = InplaceSerializer::Error(e);
                        Err(InplaceSerializeError::Error)
                    },
                };
                assert(before.part_step(before.as_struct_variant(), given, InplaceSerializer::SerializeStructVariant(given.0), InplaceSerializeError::NotSerializeStructVariant) == (*self, r));
                r
            },
            Err(signal) => {
                let r = Err(signal);
                let ghost arb: (RV, Result<(), E>) = vstd::pervasive::arbitrary();
                assert(before.part_step(before.as_struct_variant(), arb, InplaceSerializer::SerializeStructVariant(arb.0), InplaceSerializeError::NotSerializeStructVariant) == (*self, r));
                r
            },
        }
    }

    /// Takes the builder of a struct variant out and hands it to `f`, which ends it; the
    /// output or the backend's error stays in the slot.
    pub fn end_struct_variant<F>(&mut self, f: F) -> (r: Result<(), InplaceSerializeError>) where
        F: FnOnce(RV) -> Result<O, E>,
        requires
            old(self).as_struct_variant() is Some ==> f.requires((old(self).as_struct_variant()->Some_0,)),
        ensures
            exists|answer: Result<O, E>|
                {
                    &&& (old(self).as_struct_variant() is Some ==> f.ensures((old(self).as_struct_variant()->Some_0,), answer))
                    &&& #[trigger] old(self).finish_step(old(self).as_struct_variant(), answer, InplaceSerializeError::NotSerializeStructVariant) == (*final(self), r)
                },
    {
        let ghost before = *self;
        match self.take_struct_variant() {
            Ok(b) => {
                let answer = f(b);
                let ghost given = answer;
                let r = match answer {
                    Ok(o) => {
                        *self = InplaceSerializer::Produced(o);
                        Ok(())
                    },
                    Err(e) => {
                        *self = InplaceSerializer::Error(e);
                        Err(InplaceSerializeError::Error)
                    },
                };
                assert(before.finish_step(before.as_struct_variant(), given, InplaceSerializeError::NotSerializeStructVariant) == (*self, r));
                r
            },
            Err(signal) => {
                let r = Err(signal);
                assert(before.finish_step(before.as_struct_variant(), vstd::pervasive::arbitrary(), InplaceSerializeError::NotSerializeStructVariant) == (*self, r));
                r
            },
        }
    }

    /// What the serializer says of its preference for a human-readable
    /// format, asked through `f`; `true` once the serializer is gone.
    pub fn is_human_readable_with<F>(&self, f: F) -> (r: bool) where F: FnOnce(&S) -> bool,
        requires
            self is Serializer ==> f.requires((&self->Serializer_0,)),
        ensures
            self is Serializer ==> f.ensures((&self->Serializer_0,), r),
            !(self is Serializer) ==> r,
    {
        match self {
            InplaceSerializer::Serializer(s) => f(s),
            _ => true,
        }
    }

    /// The outcome of the serialization in the backend's terms: the output,
    /// else the error that the backend reported, else the signal that the
    /// call returned, else (where the call reported success and left no
    /// output) the adapter's own signal.
    pub fn into_result(self, result: Result<(), SerializeError>) -> (r: Result<O, ErrorSource<E, SerializeError>>)
        ensures
            self is Produced ==> r == Ok::<O, ErrorSource<E, SerializeError>>(self->Produced_0),
            self is Error ==> r == Err::<O, ErrorSource<E, SerializeError>>(ErrorSource::Backend(self->Error_0)),
            !(self is Produced) && !(self is Error) && result is Err ==> r == Err::<O, ErrorSource<E, SerializeError>>(ErrorSource::Adapter(result->Err_0)),
            !(self is Produced) && !(self is Error) && result is Ok ==> r is Err && r->Err_0 is Adapter
                && r->Err_0->Adapter_0@ == Err::<Seq<char>, InplaceSerializeError>(InplaceSerializeError::NotSerializer),
    {
        match self {
            InplaceSerializer::Produced(o) => Ok(o),
            InplaceSerializer::Error(e) => Err(ErrorSource::Backend(e)),
            _ => match result {
                Err(signal) => Err(ErrorSource::Adapter(signal)),
                Ok(()) => Err(ErrorSource::Adapter(SerializeError::from_signal(InplaceSerializeError::NotSerializer))),
            },
        }
    }
}

/// A call that produces the output (a value that needs no builder, or the
/// end of a builder) is made at most once: once the adapter has accepted it,
/// whatever the backend answered, the slot is settled, and every later call
/// that needs the serializer or a builder is refused with its own signal and
/// leaves the slot as it was.
pub proof fn lemma_output_is_terminal<S, O, E, Q, T, TS, TV, M, R, RV, X>(
    s: InplaceSerializer<S, O, E, Q, T, TS, TV, M, R, RV>,
    held: Option<X>,
    answer: Result<O, E>,
    refusal: InplaceSerializeError,
    later: Result<O, E>,
)
    requires
        held is Some,
    ensures
        ({
            let s1 = s.finish_step(held, answer, refusal).0;
            &&& s1.is_settled()
            &&& s1.finish_step(s1.as_serializer(), later, InplaceSerializeError::NotSerializer) == (s1, Err::<(), InplaceSerializeError>(InplaceSerializeError::NotSerializer))
            &&& s1.finish_step(s1.as_seq(), later, InplaceSerializeError::NotSerializeSeq) == (s1, Err::<(), InplaceSerializeError>(InplaceSerializeError::NotSerializeSeq))
            &&& s1.finish_step(s1.as_tuple(), later, InplaceSerializeError::NotSerializeTuple) == (s1, Err::<(), InplaceSerializeError>(InplaceSerializeError::NotSerializeTuple))
            &&& s1.finish_step(s1.as_tuple_struct(), later, InplaceSerializeError::NotSerializeTupleStruct) == (s1, Err::<(), InplaceSerializeError>(InplaceSerializeError::NotSerializeTupleStruct))
            &&& s1.finish_step(s1.as_tuple_variant(), later, InplaceSerializeError::NotSerializeTupleVariant) == (s1, Err::<(), InplaceSerializeError>(InplaceSerializeError::NotSerializeTupleVariant))
            &&& s1.finish_step(s1.as_map(), later, InplaceSerializeError::NotSerializeMap) == (s1, Err::<(), InplaceSerializeError>(InplaceSerializeError::NotSerializeMap))
            &&& s1.finish_step(s1.as_struct(), later, InplaceSerializeError::NotSerializeStruct) == (s1, Err::<(), InplaceSerializeError>(InplaceSerializeError::NotSerializeStruct))
            &&& s1.finish_step(s1.as_struct_variant(), later, InplaceSerializeError::NotSerializeStructVariant) == (s1, Err::<(), InplaceSerializeError>(InplaceSerializeError::NotSerializeStructVariant))
        }),
{
}

/// Beginning a composite value uses the serializer up: whatever the backend
/// answered, a later call that needs the serializer is refused and leaves
/// the slot as it was.
pub proof fn lemma_begin_uses_serializer<S, O, E, Q, T, TS, TV, M, R, RV, X>(
    s: InplaceSerializer<S, O, E, Q, T, TS, TV, M, R, RV>,
    answer: Result<X, E>,
    started: InplaceSerializer<S, O, E, Q, T, TS, TV, M, R, RV>,
    later: Result<O, E>,
)
    requires
        started.as_serializer() is None,
    ensures
        ({
            let s1 = s.begin_step(answer, started).0;
            s1.finish_step(s1.as_serializer(), later, InplaceSerializeError::NotSerializer) == (s1, Err::<(), InplaceSerializeError>(InplaceSerializeError::NotSerializer))
        }),
{
}

/// The adapter changes nothing in what the backend produces: once a call
/// that produces the output is accepted, the slot holds exactly the output
/// the backend returned, or exactly the error it reported, so the erased
/// path hands back what the direct call would have.
pub proof fn lemma_backend_outcome_is_kept<S, O, E, Q, T, TS, TV, M, R, RV, X>(
    s: InplaceSerializer<S, O, E, Q, T, TS, TV, M, R, RV>,
    held: Option<X>,
    answer: Result<O, E>,
    refusal: InplaceSerializeError,
)
    requires
        held is Some,
    ensures
        answer is Ok ==> s.finish_step(held, answer, refusal) == (InplaceSerializer::<S, O, E, Q, T, TS, TV, M, R, RV>::Produced(answer->Ok_0), Ok::<(), InplaceSerializeError>(())),
        answer is Err ==> s.finish_step(held, answer, refusal) == (InplaceSerializer::<S, O, E, Q, T, TS, TV, M, R, RV>::Error(answer->Err_0), Err::<(), InplaceSerializeError>(InplaceSerializeError::Error)),
{
}

} // verus!
