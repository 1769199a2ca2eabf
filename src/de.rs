//! Adapters for dynamic deserialization.
//!
//! Each adapter is a slot that holds a concrete backend value (a
//! deserializer, a seed, a visitor or an access cursor) until the one call
//! that consumes it. The backend call itself is handed in as a closure; the
//! adapter checks its own state, takes the backend out, makes the call and
//! stores what came back: a value, the next cursor, or the backend's error.
//! A call made in the wrong state returns a protocol-violation error and
//! leaves the slot as it was.
use vstd::prelude::*;
use vstd::string::StringExecFns;
use crate::error::ErrorSource;

verus! {

/// The signal that an adapter returns from a call.
#[derive(Clone, Copy, Debug, PartialEq, Eq, Structural)]
pub enum InplaceDeserializeError {
    /// The deserialization has completed successfully.
    Completed,
    /// The backend failed; its error is held by the adapter.
    Error,
    /// The deserializer adapter does not hold a deserializer.
    NotDeserializer,
    /// The seed adapter does not hold a seed.
    NotDeserializeSeed,
    /// The visitor adapter does not hold a visitor.
    NotVisitor,
    /// The sequence adapter does not hold a sequence cursor.
    NotSeqAccess,
    /// The map adapter does not hold a map cursor.
    NotMapAccess,
    /// The enum adapter does not hold an unresolved enum cursor.
    NotEnumAccess,
    /// The enum adapter does not hold a resolved variant cursor.
    NotVariantAccess,
}

/// The message of a signal.
pub open spec fn signal_text(e: InplaceDeserializeError) -> Seq<char> {
    match e {
        InplaceDeserializeError::Completed => "the deserialization has done successfully"@,
        InplaceDeserializeError::Error => "the deserialization has done unsuccessfully"@,
        InplaceDeserializeError::NotDeserializer => "the deserializer is not ready"@,
        InplaceDeserializeError::NotDeserializeSeed => "the deserialize seed is not ready"@,
        InplaceDeserializeError::NotVisitor => "the visitor is not ready"@,
        InplaceDeserializeError::NotSeqAccess =>
            "the visitor is not ready to deserialize the contents of the sequence"@,
        InplaceDeserializeError::NotMapAccess =>
            "the visitor is not ready to deserialize the contents of the map"@,
        InplaceDeserializeError::NotEnumAccess =>
            "the visitor is not ready to deserialize the contents of the enum"@,
        InplaceDeserializeError::NotVariantAccess =>
            "the visitor is not ready to deserialize the contents of the enum variant"@,
    }
}

impl InplaceDeserializeError {
    /// The message of this signal.
    pub fn message(&self) -> (r: &'static str)
        ensures
            r@ == signal_text(*self),
    {
        match self {
            InplaceDeserializeError::Completed => "the deserialization has done successfully",
            InplaceDeserializeError::Error => "the deserialization has done unsuccessfully",
            InplaceDeserializeError::NotDeserializer => "the deserializer is not ready",
            InplaceDeserializeError::NotDeserializeSeed => "the deserialize seed is not ready",
            InplaceDeserializeError::NotVisitor => "the visitor is not ready",
            InplaceDeserializeError::NotSeqAccess =>
                "the visitor is not ready to deserialize the contents of the sequence",
            InplaceDeserializeError::NotMapAccess =>
                "the visitor is not ready to deserialize the contents of the map",
            InplaceDeserializeError::NotEnumAccess =>
                "the visitor is not ready to deserialize the contents of the enum",
            InplaceDeserializeError::NotVariantAccess =>
                "the visitor is not ready to deserialize the contents of the enum variant",
        }
    }
}

/// The error of a dynamic deserialization: a message that a backend or a
/// value reported, or a signal of an adapter.
#[derive(Debug)]
pub struct DeserializeError {
    repr: Result<String, InplaceDeserializeError>,
}

impl View for DeserializeError {
    type V = Result<Seq<char>, InplaceDeserializeError>;

    closed spec fn view(&self) -> Result<Seq<char>, InplaceDeserializeError> {
        match self.repr {
            Ok(msg) => Ok(msg@),
            Err(e) => Err(e),
        }
    }
}

/// The message of a deserialization error.
pub open spec fn deserialize_error_text(e: Result<Seq<char>, InplaceDeserializeError>) -> Seq<char> {
    match e {
        Ok(msg) => msg,
        Err(signal) => signal_text(signal),
    }
}

impl DeserializeError {
    /// The error that carries an adapter's signal.
    pub fn from_signal(signal: InplaceDeserializeError) -> (r: DeserializeError)
        ensures
            r@ == Err::<Seq<char>, InplaceDeserializeError>(signal),
    {
        DeserializeError { repr: Err(signal) }
    }

    /// The error with a free-text message.
    pub fn custom(msg: String) -> (r: DeserializeError)
        ensures
            r@ == Ok::<Seq<char>, InplaceDeserializeError>(msg@),
    {
        DeserializeError { repr: Ok(msg) }
    }

    /// The adapter's signal that this error carries, if it carries one.
    pub fn signal(&self) -> (r: Option<InplaceDeserializeError>)
        ensures
            r == (match self@ {
                Ok(_) => None,
                Err(signal) => Some(signal),
            }),
    {
        match &self.repr {
            Ok(_) => None,
            Err(signal) => Some(*signal),
        }
    }

    /// The message of this error.
    pub fn message(&self) -> (r: String)
        ensures
            r@ == deserialize_error_text(self@),
    {
        match &self.repr {
            Ok(msg) => msg.clone(),
            Err(signal) => String::from_str(signal.message()),
        }
    }
}

/// A slot that holds a concrete deserializer until one hint call consumes
/// it.
pub enum InplaceDeserializer<D, E> {
    /// The deserializer has been consumed.
    Empty,
    /// The deserializer failed with this error.
    Error(E),
    /// The deserializer is ready.
    Deserializer(D),
}

impl<D, E> InplaceDeserializer<D, E> {
    /// The state after a hint call, and the signal it returns, given what the
    /// backend answered if it was asked.
    pub open spec fn hint_step(self, answer: Result<(), E>) -> (Self, Result<(), InplaceDeserializeError>) {
        match self {
            InplaceDeserializer::Deserializer(_) => match answer {
                Ok(()) => (InplaceDeserializer::Empty, Ok(())),
                Err(e) => (InplaceDeserializer::Error(e), Err(InplaceDeserializeError::Error)),
            },
            _ => (self, Err(InplaceDeserializeError::NotDeserializer)),
        }
    }

    /// Takes the deserializer out and hands it to `f`, which makes the
    /// backend call; on failure the backend's error stays in the slot.
    pub fn deserialize_with<F>(&mut self, f: F) -> (r: Result<(), InplaceDeserializeError>) where
        F: FnOnce(D) -> Result<(), E>,
        requires
            *old(self) is Deserializer ==> f.requires((old(self)->Deserializer_0,)),
        ensures
            exists|answer: Result<(), E>|
                {
                    &&& (*old(self) is Deserializer ==> f.ensures(
                        (old(self)->Deserializer_0,),
                        answer,
                    ))
                    &&& #[trigger] old(self).hint_step(answer) == (*final(self), r)
                },
    {
        let ghost before = *self;
        let mut taken = InplaceDeserializer::Empty;
        std::mem::swap(self, &mut taken);
        match taken {
            InplaceDeserializer::Deserializer(d) => {
                let answer = f(d);
                let ghost given = answer;
                let r = match answer {
                    Ok(()) => Ok(()),
                    Err(e) => {
                        *self = InplaceDeserializer::Error(e);
                        Err(InplaceDeserializeError::Error)
                    },
                };
                assert(before.hint_step(given) == (*self, r));
                r
            },
            other => {
                *self = other;
                assert(before.hint_step(Ok(())) == (*self, Err::<(), _>(InplaceDeserializeError::NotDeserializer)));
                Err(InplaceDeserializeError::NotDeserializer)
            },
        }
    }

    /// What the deserializer says of its preference for a human-readable
    /// format, asked through `f`; `true` once the deserializer is gone.
    pub fn is_human_readable_with<F>(&self, f: F) -> (r: bool) where F: FnOnce(&D) -> bool,
        requires
            self is Deserializer ==> f.requires((&self->Deserializer_0,)),
        ensures
            self is Deserializer ==> f.ensures((&self->Deserializer_0,), r),
            !(self is Deserializer) ==> r,
    {
        match self {
            InplaceDeserializer::Deserializer(d) => f(d),
            _ => true,
        }
    }

    /// The outcome of the adapted call in the backend's terms: the error
    /// that the backend reported, where there is one, comes before the
    /// call's own signal.
    pub fn into_result(self, result: Result<(), DeserializeError>) -> (r: Result<(), ErrorSource<E, DeserializeError>>)
        ensures
            result is Ok ==> r is Ok,
            result is Err ==> r == Err::<(), ErrorSource<E, DeserializeError>>(
                match self {
                    InplaceDeserializer::Error(e) => ErrorSource::Backend(e),
                    _ => ErrorSource::Adapter(result->Err_0),
                },
            ),
    {
        match result {
            Ok(()) => Ok(()),
            Err(signal) => match self {
                InplaceDeserializer::Error(e) => Err(ErrorSource::Backend(e)),
                _ => Err(ErrorSource::Adapter(signal)),
            },
        }
    }
}

/// A call's result as the contracts see it: the error by its view.
pub open spec fn result_view<U>(r: Result<U, DeserializeError>) -> Result<U, Result<Seq<char>, InplaceDeserializeError>> {
    match r {
        Ok(u) => Ok(u),
        Err(e) => Err(e@),
    }
}

/// The view of the error that carries `signal`.
pub open spec fn signalled<U>(signal: InplaceDeserializeError) -> Result<U, Result<Seq<char>, InplaceDeserializeError>> {
    Err(Err(signal))
}

/// A slot that holds a concrete visitor until one visit call consumes it
/// and leaves the value that the visitor built.
pub enum InplaceVisitor<V, T> {
    /// The visitor has been consumed without producing a value.
    Empty,
    /// The visitor produced this value.
    Value(T),
    /// The visitor is ready.
    Visitor(V),
}

impl<V, T> InplaceVisitor<V, T> {
    /// The state after a visit call, and the view of its result, given what
    /// the visitor answered if it was asked.
    pub open spec fn visit_step(self, answer: Result<T, DeserializeError>) -> (Self, Result<(), Result<Seq<char>, InplaceDeserializeError>>) {
        match self {
            InplaceVisitor::Visitor(_) => match answer {
                Ok(t) => (InplaceVisitor::Value(t), Ok(())),
                Err(e) => (InplaceVisitor::Empty, Err(e@)),
            },
            _ => (self, signalled(InplaceDeserializeError::NotVisitor)),
        }
    }

    /// Takes the visitor out and hands it to `f`, which makes the visit; the
    /// value it builds stays in the slot.
    pub fn visit_with<F>(&mut self, f: F) -> (r: Result<(), DeserializeError>) where
        F: FnOnce(V) -> Result<T, DeserializeError>,
        requires
            *old(self) is Visitor ==> f.requires((old(self)->Visitor_0,)),
        ensures
            exists|answer: Result<T, DeserializeError>|
                {
                    &&& (*old(self) is Visitor ==> f.ensures((old(self)->Visitor_0,), answer))
                    &&& #[trigger] old(self).visit_step(answer) == (*final(self), result_view(r))
                },
    {
        let ghost before = *self;
        let mut taken = InplaceVisitor::Empty;
        std::mem::swap(self, &mut taken);
        match taken {
            InplaceVisitor::Visitor(v) => {
                let answer = f(v);
                let ghost given = answer;
                let r = match answer {
                    Ok(t) => {
                        *self = InplaceVisitor::Value(t);
                        Ok(())
                    },
                    Err(e) => Err(e),
                };
                assert(before.visit_step(given) == (*self, result_view(r)));
                r
            },
            other => {
                *self = other;
                let r = Err(DeserializeError::from_signal(InplaceDeserializeError::NotVisitor));
                assert(before.visit_step(vstd::pervasive::arbitrary()) == (*self, result_view(r)));
                r
            },
        }
    }

    /// What the visitor expects, asked through `f` while the visitor is
    /// ready; otherwise a note on the state of the slot.
    pub fn expecting_with<R, F>(&self, f: F) -> (r: Result<R, &'static str>) where
        F: FnOnce(&V) -> R,
        requires
            self is Visitor ==> f.requires((&self->Visitor_0,)),
        ensures
            self is Visitor ==> r is Ok && f.ensures((&self->Visitor_0,), r->Ok_0),
            self is Empty ==> r is Err && r->Err_0@ == "nothing (the visitor is not ready)"@,
            self is Value ==> r is Err && r->Err_0@
                == "nothing (the deserialization has done successfully)"@,
    {
        match self {
            InplaceVisitor::Empty => Err("nothing (the visitor is not ready)"),
            InplaceVisitor::Value(_) => Err("nothing (the deserialization has done successfully)"),
            InplaceVisitor::Visitor(v) => Ok(f(v)),
        }
    }

    /// The value that the visit produced; otherwise the signal of the call
    /// that should have produced it, or, where that call reported success
    /// without a visit, the visitor's own signal.
    ///
    /// A produced value comes first, even where the call reported a failure
    /// after the visit: a backend that checks the rest of its input only once
    /// the visitor has returned (the end of a map, say) fails that check on
    /// the direct path, while here the visitor's value is returned.
    pub fn into_result(self, result: Result<(), InplaceDeserializeError>) -> (r: Result<T, DeserializeError>)
        ensures
            result_view(r) == (match self {
                InplaceVisitor::Value(t) => Ok(t),
                _ => match result {
                    Err(e) => signalled(e),
                    Ok(()) => signalled(InplaceDeserializeError::NotVisitor),
                },
            }),
    {
        match self {
            InplaceVisitor::Value(t) => Ok(t),
            _ => match result {
                Err(e) => Err(DeserializeError::from_signal(e)),
                Ok(()) => Err(DeserializeError::from_signal(InplaceDeserializeError::NotVisitor)),
            },
        }
    }
}

/// A slot that holds a concrete seed until one call consumes it and leaves
/// the value that the seed built.
pub enum InplaceDeserializeSeed<S, T> {
    /// The seed has been consumed without producing a value.
    Empty,
    /// The seed produced this value.
    Value(T),
    /// The seed is ready.
    DeserializeSeed(S),
}

impl<S, T> InplaceDeserializeSeed<S, T> {
    /// The state after a call on the seed, and the view of its result, given
    /// what the seed answered if it was asked.
    pub open spec fn seed_step(self, answer: Result<T, DeserializeError>) -> (Self, Result<(), Result<Seq<char>, InplaceDeserializeError>>) {
        match self {
            InplaceDeserializeSeed::DeserializeSeed(_) => match answer {
                Ok(t) => (InplaceDeserializeSeed::Value(t), Ok(())),
                Err(e) => (InplaceDeserializeSeed::Empty, Err(e@)),
            },
            _ => (self, signalled(InplaceDeserializeError::NotDeserializeSeed)),
        }
    }

    /// Takes the seed out and hands it to `f`, which runs it on a
    /// deserializer; the value it builds stays in the slot.
    pub fn deserialize_with<F>(&mut self, f: F) -> (r: Result<(), DeserializeError>) where
        F: FnOnce(S) -> Result<T, DeserializeError>,
        requires
            *old(self) is DeserializeSeed ==> f.requires((old(self)->DeserializeSeed_0,)),
        ensures
            exists|answer: Result<T, DeserializeError>|
                {
                    &&& (*old(self) is DeserializeSeed ==> f.ensures(
                        (old(self)->DeserializeSeed_0,),
                        answer,
                    ))
                    &&& #[trigger] old(self).seed_step(answer) == (*final(self), result_view(r))
                },
    {
        let ghost before = *self;
        let mut taken = InplaceDeserializeSeed::Empty;
        std::mem::swap(self, &mut taken);
        match taken {
            InplaceDeserializeSeed::DeserializeSeed(seed) => {
                let answer = f(seed);
                let ghost given = answer;
                let r = match answer {
                    Ok(t) => {
                        *self = InplaceDeserializeSeed::Value(t);
                        Ok(())
                    },
                    Err(e) => Err(e),
                };
                assert(before.seed_step(given) == (*self, result_view(r)));
                r
            },
            other => {
                *self = other;
                let r = Err(DeserializeError::from_signal(InplaceDeserializeError::NotDeserializeSeed));
                assert(before.seed_step(vstd::pervasive::arbitrary()) == (*self, result_view(r)));
                r
            },
        }
    }

    /// The value that the seed produced; otherwise the signal of the call
    /// that should have run it, or, where that call reported success without
    /// running it, the seed's own signal. As for a visitor, a produced value
    /// comes first, even where the call reported a failure after the seed ran.
    pub fn into_result(self, result: Result<(), InplaceDeserializeError>) -> (r: Result<T, DeserializeError>)
        ensures
            result_view(r) == (match self {
                InplaceDeserializeSeed::Value(t) => Ok(t),
                _ => match result {
                    Err(e) => signalled(e),
                    Ok(()) => signalled(InplaceDeserializeError::NotDeserializeSeed),
                },
            }),
    {
        match self {
            InplaceDeserializeSeed::Value(t) => Ok(t),
            _ => match result {
                Err(e) => Err(DeserializeError::from_signal(e)),
                Ok(()) => Err(DeserializeError::from_signal(InplaceDeserializeError::NotDeserializeSeed)),
            },
        }
    }

    /// The outcome of a call that may report that nothing was left to read:
    /// `None` where it did so, the call's own signal where it failed
    /// (whatever the slot holds), the seed's value where it succeeded, and,
    /// where it reported success without running the seed, the seed's own
    /// signal.
    pub fn into_result_option<U>(self, result: Result<Option<U>, InplaceDeserializeError>) -> (r: Result<Option<T>, DeserializeError>)
        ensures
            result_view(r) == (match result {
                Ok(None) => Ok(None),
                Err(e) => signalled(e),
                Ok(Some(_)) => match self {
                    InplaceDeserializeSeed::Value(t) => Ok(Some(t)),
                    _ => signalled(InplaceDeserializeError::NotDeserializeSeed),
                },
            }),
    {
        match result {
            Ok(None) => Ok(None),
            Err(e) => Err(DeserializeError::from_signal(e)),
            Ok(Some(_)) => match self {
                InplaceDeserializeSeed::Value(t) => Ok(Some(t)),
                _ => Err(DeserializeError::from_signal(InplaceDeserializeError::NotDeserializeSeed)),
            },
        }
    }

    /// The key and value of a map entry, from the key's seed `key` and this,
    /// the value's seed: `None` where the call reported that no entry was
    /// left, the call's own signal where it failed (whatever the seeds
    /// hold), and, where it reported an entry but a seed holds no value, the
    /// seed's own signal.
    pub fn into_entry<KS, K, U>(self, key: InplaceDeserializeSeed<KS, K>, result: Result<Option<U>, InplaceDeserializeError>) -> (r: Result<Option<(K, T)>, DeserializeError>)
        ensures
            result_view(r) == (match result {
                Ok(None) => Ok(None),
                Err(e) => signalled(e),
                Ok(Some(_)) => match (key, self) {
                    (InplaceDeserializeSeed::Value(k), InplaceDeserializeSeed::Value(v)) => Ok(Some((k, v))),
                    _ => signalled(InplaceDeserializeError::NotDeserializeSeed),
                },
            }),
    {
        match result {
            Ok(None) => Ok(None),
            Err(e) => Err(DeserializeError::from_signal(e)),
            Ok(Some(_)) => match (key, self) {
                (InplaceDeserializeSeed::Value(k), InplaceDeserializeSeed::Value(v)) => Ok(Some((k, v))),
                _ => Err(DeserializeError::from_signal(InplaceDeserializeError::NotDeserializeSeed)),
            },
        }
    }

    /// The value that the seed produced, paired with what the call returned.
    pub fn into_pair<R>(self, result: Result<R, InplaceDeserializeError>) -> (r: Result<(T, R), DeserializeError>)
        ensures
            result_view(r) == (match (self, result) {
                (InplaceDeserializeSeed::Value(t), Ok(x)) => Ok((t, x)),
                (_, Err(e)) => signalled(e),
                _ => signalled(InplaceDeserializeError::NotDeserializeSeed),
            }),
    {
        match (self, result) {
            (InplaceDeserializeSeed::Value(t), Ok(x)) => Ok((t, x)),
            (_, Err(e)) => Err(DeserializeError::from_signal(e)),
            _ => Err(DeserializeError::from_signal(InplaceDeserializeError::NotDeserializeSeed)),
        }
    }
}

/// Once a hint call has been made, the deserializer adapter refuses every
/// further hint call with the same signal and stays as it is.
pub proof fn lemma_hint_is_terminal<D, E>(s: InplaceDeserializer<D, E>, first: Result<(), E>, second: Result<(), E>)
    ensures
        !(s.hint_step(first).0 is Deserializer),
        s.hint_step(first).0.hint_step(second) == (s.hint_step(first).0, Err::<(), InplaceDeserializeError>(InplaceDeserializeError::NotDeserializer)),
{
}

/// Once a visit has been made, the visitor adapter refuses every further
/// visit with the same signal and stays as it is.
pub proof fn lemma_visit_is_terminal<V, T>(s: InplaceVisitor<V, T>, first: Result<T, DeserializeError>, second: Result<T, DeserializeError>)
    ensures
        !(s.visit_step(first).0 is Visitor),
        s.visit_step(first).0.visit_step(second) == (s.visit_step(first).0, signalled::<()>(InplaceDeserializeError::NotVisitor)),
{
}

/// Once a seed has been run, the seed adapter refuses every further run with
/// the same signal and stays as it is.
pub proof fn lemma_seed_is_terminal<S, T>(s: InplaceDeserializeSeed<S, T>, first: Result<T, DeserializeError>, second: Result<T, DeserializeError>)
    ensures
        !(s.seed_step(first).0 is DeserializeSeed),
        s.seed_step(first).0.seed_step(second) == (s.seed_step(first).0, signalled::<()>(InplaceDeserializeError::NotDeserializeSeed)),
{
}

/// A slot that holds a concrete sequence cursor, which stays in it for as
/// long as the sequence yields elements.
pub enum InplaceSeqAccess<A, E> {
    /// The cursor failed with this error.
    Error(E),
    /// The cursor is ready for the next element.
    SeqAccess(A),
    /// The cursor reported that no element is left.
    Exhausted,
}

impl<A, E> InplaceSeqAccess<A, E> {
    /// The state after a "next element" call, and the signal it returns,
    /// given the cursor and the answer that the backend gave back if it was
    /// asked.
    pub open spec fn next_step<T>(self, answer: (A, Result<Option<T>, E>)) -> (Self, Result<Option<T>, InplaceDeserializeError>) {
        match self {
            InplaceSeqAccess::SeqAccess(_) => match answer.1 {
                Ok(Some(t)) => (InplaceSeqAccess::SeqAccess(answer.0), Ok(Some(t))),
                Ok(None) => (InplaceSeqAccess::Exhausted, Ok(None)),
                Err(e) => (InplaceSeqAccess::Error(e), Err(InplaceDeserializeError::Error)),
            },
            InplaceSeqAccess::Exhausted => (self, Ok(None)),
            InplaceSeqAccess::Error(_) => (self, Err(InplaceDeserializeError::NotSeqAccess)),
        }
    }

    /// Hands the cursor to `f`, which reads the next element and gives the
    /// cursor back with its answer; the cursor is put back while elements
    /// come, and once the sequence is exhausted every call answers `None`.
    pub fn next_with<T, F>(&mut self, f: F) -> (r: Result<Option<T>, InplaceDeserializeError>) where
        F: FnOnce(A) -> (A, Result<Option<T>, E>),
        requires
            *old(self) is SeqAccess ==> f.requires((old(self)->SeqAccess_0,)),
        ensures
            exists|answer: (A, Result<Option<T>, E>)|
                {
                    &&& (*old(self) is SeqAccess ==> f.ensures((old(self)->SeqAccess_0,), answer))
                    &&& #[trigger] old(self).next_step(answer) == (*final(self), r)
                },
    {
        let ghost before = *self;
        let mut taken = InplaceSeqAccess::Exhausted;
        std::mem::swap(self, &mut taken);
        match taken {
            InplaceSeqAccess::SeqAccess(access) => {
                let (access, answer) = f(access);
                let ghost given = (access, answer);
                let r = match answer {
                    Ok(Some(t)) => {
                        *self = InplaceSeqAccess::SeqAccess(access);
                        Ok(Some(t))
                    },
                    Ok(None) => Ok(None),
                    Err(e) => {
                        *self = InplaceSeqAccess::Error(e);
                        Err(InplaceDeserializeError::Error)
                    },
                };
                assert(before.next_step(given) == (*self, r));
                r
            },
            InplaceSeqAccess::Exhausted => {
                let r = Ok(None);
                assert(before.next_step::<T>(vstd::pervasive::arbitrary()) == (*self, r));
                r
            },
            other => {
                *self = other;
                let r = Err(InplaceDeserializeError::NotSeqAccess);
                assert(before.next_step::<T>(vstd::pervasive::arbitrary()) == (*self, r));
                r
            },
        }
    }

    /// The number of elements left as the cursor estimates it, asked through
    /// `f` while the cursor is held; `None` once it is gone.
    pub fn size_hint_with<F>(&self, f: F) -> (r: Option<usize>) where F: FnOnce(&A) -> Option<usize>,
        requires
            self is SeqAccess ==> f.requires((&self->SeqAccess_0,)),
        ensures
            self is SeqAccess ==> f.ensures((&self->SeqAccess_0,), r),
            !(self is SeqAccess) ==> r is None,
    {
        match self {
            InplaceSeqAccess::SeqAccess(access) => f(access),
            _ => None,
        }
    }

    /// The outcome of the adapted call in the backend's terms: the error
    /// that the cursor reported, where there is one, comes before the call's
    /// own signal.
    pub fn into_result(self, result: Result<(), DeserializeError>) -> (r: Result<(), ErrorSource<E, DeserializeError>>)
        ensures
            result is Ok ==> r is Ok,
            result is Err ==> r == Err::<(), ErrorSource<E, DeserializeError>>(
                match self {
                    InplaceSeqAccess::Error(e) => ErrorSource::Backend(e),
                    _ => ErrorSource::Adapter(result->Err_0),
                },
            ),
    {
        match result {
            Ok(()) => Ok(()),
            Err(signal) => match self {
                InplaceSeqAccess::Error(e) => Err(ErrorSource::Backend(e)),
                _ => Err(ErrorSource::Adapter(signal)),
            },
        }
    }
}

/// A slot that holds a concrete map cursor, which stays in it for as long as
/// the map yields entries.
pub enum InplaceMapAccess<A, E> {
    /// The cursor failed with this error.
    Error(E),
    /// The cursor is ready for the next key, value or entry.
    MapAccess(A),
    /// The cursor reported that no entry is left.
    Exhausted,
}

impl<A, E> InplaceMapAccess<A, E> {
    /// The state after a "next key" or "next entry" call, and the signal it
    /// returns, given the cursor and the answer that the backend gave back if
    /// it was asked.
    pub open spec fn next_step<T>(self, answer: (A, Result<Option<T>, E>)) -> (Self, Result<Option<T>, InplaceDeserializeError>) {
        match self {
            InplaceMapAccess::MapAccess(_) => match answer.1 {
                Ok(Some(t)) => (InplaceMapAccess::MapAccess(answer.0), Ok(Some(t))),
                Ok(None) => (InplaceMapAccess::Exhausted, Ok(None)),
                Err(e) => (InplaceMapAccess::Error(e), Err(InplaceDeserializeError::Error)),
            },
            InplaceMapAccess::Exhausted => (self, Ok(None)),
            InplaceMapAccess::Error(_) => (self, Err(InplaceDeserializeError::NotMapAccess)),
        }
    }

    /// The state after a "next value" call, and the signal it returns, given
    /// the cursor and the answer that the backend gave back if it was asked.
    pub open spec fn value_step<T>(self, answer: (A, Result<T, E>)) -> (Self, Result<T, InplaceDeserializeError>) {
        match self {
            InplaceMapAccess::MapAccess(_) => match answer.1 {
                Ok(t) => (InplaceMapAccess::MapAccess(answer.0), Ok(t)),
                Err(e) => (InplaceMapAccess::Error(e), Err(InplaceDeserializeError::Error)),
            },
            _ => (self, Err(InplaceDeserializeError::NotMapAccess)),
        }
    }

    /// Hands the cursor to `f`, which reads the next key or entry and gives
    /// the cursor back with its answer; the cursor is put back while entries
    /// come, and once the map is exhausted every such call answers `None`.
    pub fn next_with<T, F>(&mut self, f: F) -> (r: Result<Option<T>, InplaceDeserializeError>) where
        F: FnOnce(A) -> (A, Result<Option<T>, E>),
        requires
            *old(self) is MapAccess ==> f.requires((old(self)->MapAccess_0,)),
        ensures
            exists|answer: (A, Result<Option<T>, E>)|
                {
                    &&& (*old(self) is MapAccess ==> f.ensures((old(self)->MapAccess_0,), answer))
                    &&& #[trigger] old(self).next_step(answer) == (*final(self), r)
                },
    {
        let ghost before = *self;
        let mut taken = InplaceMapAccess::Exhausted;
        std::mem::swap(self, &mut taken);
        match taken {
            InplaceMapAccess::MapAccess(access) => {
                let (access, answer) = f(access);
                let ghost given = (access, answer);
                let r = match answer {
                    Ok(Some(t)) => {
                        *self = InplaceMapAccess::MapAccess(access);
                        Ok(Some(t))
                    },
                    Ok(None) => Ok(None),
                    Err(e) => {
                        *self = InplaceMapAccess::Error(e);
                        Err(InplaceDeserializeError::Error)
                    },
                };
                assert(before.next_step(given) == (*self, r));
                r
            },
            InplaceMapAccess::Exhausted => {
                let r = Ok(None);
                assert(before.next_step::<T>(vstd::pervasive::arbitrary()) == (*self, r));
                r
            },
            other => {
                *self = other;
                let r = Err(InplaceDeserializeError::NotMapAccess);
                assert(before.next_step::<T>(vstd::pervasive::arbitrary()) == (*self, r));
                r
            },
        }
    }

    /// Hands the cursor to `f`, which reads the value of the current entry
    /// and gives the cursor back with its answer.
    pub fn next_value_with<T, F>(&mut self, f: F) -> (r: Result<T, InplaceDeserializeError>) where
        F: FnOnce(A) -> (A, Result<T, E>),
        requires
            *old(self) is MapAccess ==> f.requires((old(self)->MapAccess_0,)),
        ensures
            exists|answer: (A, Result<T, E>)|
                {
                    &&& (*old(self) is MapAccess ==> f.ensures((old(self)->MapAccess_0,), answer))
                    &&& #[trigger] old(self).value_step(answer) == (*final(self), r)
                },
    {
        let ghost before = *self;
        let mut taken = InplaceMapAccess::Exhausted;
        std::mem::swap(self, &mut taken);
        match taken {
            InplaceMapAccess::MapAccess(access) => {
                let (access, answer) = f(access);
                let ghost given = (access, answer);
                let r = match answer {
                    Ok(t) => {
                        *self = InplaceMapAccess::MapAccess(access);
                        Ok(t)
                    },
                    Err(e) => {
                        *self = InplaceMapAccess::Error(e);
                        Err(InplaceDeserializeError::Error)
                    },
                };
                assert(before.value_step(given) == (*self, r));
                r
            },
            other => {
                *self = other;
                let r = Err(InplaceDeserializeError::NotMapAccess);
                assert(before.value_step::<T>(vstd::pervasive::arbitrary()) == (*self, r));
                r
            },
        }
    }

    /// The number of entries left as the cursor estimates it, asked through
    /// `f` while the cursor is held; `None` once it is gone.
    pub fn size_hint_with<F>(&self, f: F) -> (r: Option<usize>) where F: FnOnce(&A) -> Option<usize>,
        requires
            self is MapAccess ==> f.requires((&self->MapAccess_0,)),
        ensures
            self is MapAccess ==> f.ensures((&self->MapAccess_0,), r),
            !(self is MapAccess) ==> r is None,
    {
        match self {
            InplaceMapAccess::MapAccess(access) => f(access),
            _ => None,
        }
    }

    /// The outcome of the adapted call in the backend's terms: the error
    /// that the cursor reported, where there is one, comes before the call's
    /// own signal.
    pub fn into_result(self, result: Result<(), DeserializeError>) -> (r: Result<(), ErrorSource<E, DeserializeError>>)
        ensures
            result is Ok ==> r is Ok,
            result is Err ==> r == Err::<(), ErrorSource<E, DeserializeError>>(
                match self {
                    InplaceMapAccess::Error(e) => ErrorSource::Backend(e),
                    _ => ErrorSource::Adapter(result->Err_0),
                },
            ),
    {
        match result {
            Ok(()) => Ok(()),
            Err(signal) => match self {
                InplaceMapAccess::Error(e) => Err(ErrorSource::Backend(e)),
                _ => Err(ErrorSource::Adapter(signal)),
            },
        }
    }
}

/// A slot that holds a concrete enum cursor: first unresolved, then, once
/// the variant is known, the cursor over the variant's payload.
pub enum InplaceEnumAccess<A, V, E> {
    /// The payload has been consumed.
    Empty,
    /// The cursor failed with this error.
    Error(E),
    /// The variant is not resolved yet.
    EnumAccess(A),
    /// The variant is resolved; its payload is next.
    VariantAccess(V),
}

impl<A, V, E> InplaceEnumAccess<A, V, E> {
    /// The state after a "resolve variant" call, and the signal it returns,
    /// given what the backend answered if it was asked.
    pub open spec fn variant_step(self, answer: Result<V, E>) -> (Self, Result<(), InplaceDeserializeError>) {
        match self {
            InplaceEnumAccess::EnumAccess(_) => match answer {
                Ok(v) => (InplaceEnumAccess::VariantAccess(v), Ok(())),
                Err(e) => (InplaceEnumAccess::Error(e), Err(InplaceDeserializeError::Error)),
            },
            _ => (self, Err(InplaceDeserializeError::NotEnumAccess)),
        }
    }

    /// The state after a payload call, and the signal it returns, given what
    /// the backend answered if it was asked.
    pub open spec fn payload_step(self, answer: Result<(), E>) -> (Self, Result<(), InplaceDeserializeError>) {
        match self {
            InplaceEnumAccess::VariantAccess(_) => match answer {
                Ok(()) => (InplaceEnumAccess::Empty, Ok(())),
                Err(e) => (InplaceEnumAccess::Error(e), Err(InplaceDeserializeError::Error)),
            },
            _ => (self, Err(InplaceDeserializeError::NotVariantAccess)),
        }
    }

    /// Takes the unresolved cursor out and hands it to `f`, which resolves
    /// the variant; the payload cursor it gives back stays in the slot.
    pub fn variant_with<F>(&mut self, f: F) -> (r: Result<(), InplaceDeserializeError>) where
        F: FnOnce(A) -> Result<V, E>,
        requires
            *old(self) is EnumAccess ==> f.requires((old(self)->EnumAccess_0,)),
        ensures
            exists|answer: Result<V, E>|
                {
                    &&& (*old(self) is EnumAccess ==> f.ensures((old(self)->EnumAccess_0,), answer))
                    &&& #[trigger] old(self).variant_step(answer) == (*final(self), r)
                },
    {
        let ghost before = *self;
        let mut taken = InplaceEnumAccess::Empty;
        std::mem::swap(self, &mut taken);
        match taken {
            InplaceEnumAccess::EnumAccess(access) => {
                let answer = f(access);
                let ghost given = answer;
                let r = match answer {
                    Ok(variant) => {
                        *self = InplaceEnumAccess::VariantAccess(variant);
                        Ok(())
                    },
                    Err(e) => {
                        *self = InplaceEnumAccess::Error(e);
                        Err(InplaceDeserializeError::Error)
                    },
                };
                assert(before.variant_step(given) == (*self, r));
                r
            },
            other => {
                *self = other;
                let r = Err(InplaceDeserializeError::NotEnumAccess);
                assert(before.variant_step(vstd::pervasive::arbitrary()) == (*self, r));
                r
            },
        }
    }

    /// Takes the payload cursor out and hands it to `f`, which reads the
    /// payload (none, one value, a tuple or named fields).
    pub fn payload_with<F>(&mut self, f: F) -> (r: Result<(), InplaceDeserializeError>) where
        F: FnOnce(V) -> Result<(), E>,
        requires
            *old(self) is VariantAccess ==> f.requires((old(self)->VariantAccess_0,)),
        ensures
            exists|answer: Result<(), E>|
                {
                    &&& (*old(self) is VariantAccess ==> f.ensures(
                        (old(self)->VariantAccess_0,),
                        answer,
                    ))
                    &&& #[trigger] old(self).payload_step(answer) == (*final(self), r)
                },
    {
        let ghost before = *self;
        let mut taken = InplaceEnumAccess::Empty;
        std::mem::swap(self, &mut taken);
        match taken {
            InplaceEnumAccess::VariantAccess(variant) => {
                let answer = f(variant);
                let ghost given = answer;
                let r = match answer {
                    Ok(()) => Ok(()),
                    Err(e) => {
                        *self = InplaceEnumAccess::Error(e);
                        Err(InplaceDeserializeError::Error)
                    },
                };
                assert(before.payload_step(given) == (*self, r));
                r
            },
            other => {
                *self = other;
                let r = Err(InplaceDeserializeError::NotVariantAccess);
                assert(before.payload_step(vstd::pervasive::arbitrary()) == (*self, r));
                r
            },
        }
    }

    /// The outcome of the adapted call in the backend's terms: the error
    /// that the cursor reported, where there is one, comes before the call's
    /// own signal.
    pub fn into_result(self, result: Result<(), DeserializeError>) -> (r: Result<(), ErrorSource<E, DeserializeError>>)
        ensures
            result is Ok ==> r is Ok,
            result is Err ==> r == Err::<(), ErrorSource<E, DeserializeError>>(
                match self {
                    InplaceEnumAccess::Error(e) => ErrorSource::Backend(e),
                    _ => ErrorSource::Adapter(result->Err_0),
                },
            ),
    {
        match result {
            Ok(()) => Ok(()),
            Err(signal) => match self {
                InplaceEnumAccess::Error(e) => Err(ErrorSource::Backend(e)),
                _ => Err(ErrorSource::Adapter(signal)),
            },
        }
    }
}

/// An enum is read in two phases, in this order: a payload call before the
/// variant is resolved fails, resolving a second time fails, and a second
/// payload call fails; each refusal leaves the adapter as it was.
pub proof fn lemma_enum_two_phase<A, V, E>(
    s: InplaceEnumAccess<A, V, E>,
    early: Result<(), E>,
    resolved: Result<V, E>,
    again: Result<V, E>,
    payload: Result<(), E>,
    second: Result<(), E>,
)
    requires
        s is EnumAccess,
    ensures
        s.payload_step(early) == (s, Err::<(), InplaceDeserializeError>(InplaceDeserializeError::NotVariantAccess)),
        ({
            let s1 = s.variant_step(resolved).0;
            &&& s1.variant_step(again) == (s1, Err::<(), InplaceDeserializeError>(InplaceDeserializeError::NotEnumAccess))
            &&& ({
                let s2 = s1.payload_step(payload).0;
                s2.payload_step(second) == (s2, Err::<(), InplaceDeserializeError>(InplaceDeserializeError::NotVariantAccess))
            })
        }),
{
}

/// A sequence adapter passes on every element that the cursor yields and
/// stays ready; once the cursor reports exhaustion, that report comes
/// back, without error, from every later call, whatever the cursor would
/// have said.
pub proof fn lemma_seq_exhaustion<A, E, T>(s: InplaceSeqAccess<A, E>, answer: (A, Result<Option<T>, E>), later: (A, Result<Option<T>, E>))
    requires
        s is SeqAccess,
    ensures
        answer.1 is Ok && answer.1->Ok_0 is Some ==> s.next_step(answer) == (InplaceSeqAccess::<A, E>::SeqAccess(answer.0), Ok::<Option<T>, InplaceDeserializeError>(answer.1->Ok_0)),
        answer.1 == Ok::<Option<T>, E>(None) ==> {
            let s1 = s.next_step(answer).0;
            &&& s.next_step(answer).1 == Ok::<Option<T>, InplaceDeserializeError>(None)
            &&& s1.next_step(later) == (s1, Ok::<Option<T>, InplaceDeserializeError>(None))
        },
{
}

} // verus!
