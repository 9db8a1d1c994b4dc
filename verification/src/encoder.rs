//! The encoder capability, its descriptor, and the context that drives it.

use vstd::prelude::*;
use vstd::std_specs::convert::IntoSpec;
use crate::data::{Frame, Packet, Value};
use crate::error::ErrorKind;
use crate::instance::Instance;
use crate::registry::{first_registered, Codecs};

verus! {

/// What a concrete encoder offers.
///
/// An encoder is configured through `set_option`, checked once by `validate`,
/// and from then on fed with `send_frame` and drained with `receive_packet`.
///
/// Beside each method stands a relation that says which answers the method
/// may give in a state and, where the method may change the encoder, in
/// which state it may leave it. States are told apart by their `model`. An
/// implementation that defines a relation is held to it; one that leaves
/// the default allows every answer and every state.
pub trait Encoder {
    /// A description of the state that the encoder is in, in numbers of the
    /// implementation's own choosing. An encoder that says nothing of its
    /// state describes every state alike.
    open spec fn model(&self) -> Seq<int> {
        Seq::empty()
    }

    /// Whether `answer` is what `get_extradata` may give in this state. An
    /// encoder that says nothing of it allows every answer.
    open spec fn gives_extradata(&self, answer: Option<Seq<u8>>) -> bool {
        true
    }

    /// Whether `validate` may, in this state, answer `outcome` and leave the
    /// encoder in a state described by `after`. An encoder that says nothing
    /// of it allows all.
    open spec fn validates(&self, outcome: Result<(), ErrorKind>, after: Seq<int>) -> bool {
        true
    }

    /// Whether `set_option` may, in this state, answer `outcome` to `key`
    /// and `val` and leave the encoder in a state described by `after`. An
    /// encoder that says nothing of it allows all.
    open spec fn takes_option<'a>(
        &self,
        key: Seq<char>,
        val: Value<'a>,
        outcome: Result<(), ErrorKind>,
        after: Seq<int>,
    ) -> bool {
        true
    }

    /// Whether `send_frame` may, in this state, answer `outcome` to `frame`
    /// and leave the encoder in a state described by `after`. An encoder
    /// that says nothing of it allows all.
    open spec fn sends(
        &self,
        frame: Frame,
        outcome: Result<(), ErrorKind>,
        after: Seq<int>,
    ) -> bool {
        true
    }

    /// Whether `receive_packet` may, in this state, answer `outcome` and
    /// leave the encoder in a state described by `after`. An encoder that
    /// says nothing of it allows all.
    open spec fn receives(&self, outcome: Result<Packet, ErrorKind>, after: Seq<int>) -> bool {
        true
    }

    /// Out-of-band initialisation data to be stored in the container, if the
    /// encoder has any.
    fn get_extradata(&self) -> (extradata: Option<Vec<u8>>)
        ensures
            self.gives_extradata(bytes_of(extradata)),
    ;

    /// Submits one unit of raw media. The encoder may hold it back: output
    /// comes from `receive_packet` alone.
    fn send_frame(&mut self, pkt: &Frame) -> (outcome: Result<(), ErrorKind>)
        ensures
            old(self).sends(*pkt, outcome, final(self).model()),
    ;

    /// Retrieves one encoded unit, or says with `MoreDataNeeded` that more
    /// frames are wanted first, or with `Eof` that none will ever follow.
    fn receive_packet(&mut self) -> (outcome: Result<Packet, ErrorKind>)
        ensures
            old(self).receives(outcome, final(self).model()),
    ;

    /// Checks that every option needed to begin encoding is set, and reports
    /// `NotConfigured` if one is missing.
    fn validate(&mut self) -> (outcome: Result<(), ErrorKind>)
        ensures
            old(self).validates(outcome, final(self).model()),
    ;

    /// Assigns one configuration value. A later value for the same key
    /// replaces the earlier one. An unknown key is an `UnsupportedOption`, a
    /// value of the wrong kind an `InvalidValue`.
    fn set_option<'a>(&mut self, key: &str, val: Value<'a>) -> (outcome: Result<(), ErrorKind>)
        ensures
            old(self).takes_option(key@, val, outcome, final(self).model()),
    ;
}

/// The bytes of an optional buffer.
pub open spec fn bytes_of(buffer: Option<Vec<u8>>) -> Option<Seq<u8>> {
    match buffer {
        Some(bytes) => Some(bytes@),
        None => None,
    }
}

/// What is known of one implementation of a codec.
#[derive(Debug)]
pub struct Descr {
    /// The family: the codec that is implemented.
    pub codec: &'static str,
    /// The name of this implementation.
    pub name: &'static str,
    /// A description for people.
    pub desc: &'static str,
    /// The MIME type of what is produced.
    pub mime: &'static str,
}

/// The factory of one encoder implementation.
pub trait Descriptor {
    /// The family that `describe` reports, for a descriptor that commits to
    /// one. The default commits to nothing.
    open spec fn family(&self) -> Option<Seq<char>> {
        None
    }

    /// Whether `made` is an encoder that `create` may build. A descriptor
    /// that says nothing of it allows every encoder.
    open spec fn creates(&self, made: Instance<dyn Encoder>) -> bool {
        true
    }

    /// Builds a fresh encoder with no option set.
    fn create(&self) -> (made: Instance<dyn Encoder>)
        ensures
            self.creates(made),
    ;

    /// The record that describes the implementation.
    fn describe<'a>(&'a self) -> (descr: &'a Descr)
        ensures
            self.family() matches Some(family) ==> descr.codec@ == family,
    ;
}

/// The caller's handle on one encoder.
///
/// A context owns its encoder and is the only way to reach it. It passes
/// configuration and streaming calls on, and holds the encoder to the order
/// of use: nothing is streamed before validation has succeeded once. Every
/// answer that it passes back, and the state in which it leaves the encoder,
/// is one that the encoder inside allows for that one call, by the encoder's
/// own relations.
pub struct Context {
    enc: Instance<dyn Encoder>,
    validated: bool,
}

impl Context {
    /// Whether validation has succeeded on this context.
    pub closed spec fn validated(&self) -> bool {
        self.validated
    }

    /// The encoder inside.
    pub closed spec fn encoder(&self) -> Instance<dyn Encoder> {
        self.enc
    }

    /// Builds a context around a fresh encoder of the implementation that
    /// was registered first under `name`. There is none where nothing is
    /// registered under that name.
    pub fn by_name<D: Descriptor + ?Sized>(codecs: &Codecs<D>, name: &str) -> (context: Option<
        Context,
    >)
        ensures
            context is Some <==> codecs@.contains_key(name@),
            context matches Some(fresh) ==> {
                &&& !fresh.validated()
                &&& first_registered(codecs@, name@) matches Some(first) && first.creates(
                    fresh.encoder(),
                )
            },
    {
        if let Some(builder) = codecs.by_name(name) {
            let enc = builder.create();
            Some(Context { enc, validated: false })
        } else {
            None
        }
    }

    /// Passes one configuration value on to the encoder, and its answer back.
    ///
    /// The encoder is handed `key` as it is and `val` converted; the outcome
    /// is the encoder's answer to the two.
    pub fn set_option<'a, V>(&mut self, key: &str, val: V) -> (outcome: Result<(), ErrorKind>)
        where V: Into<Value<'a>>
        ensures
            final(self).validated() == old(self).validated(),
            exists|handed: Value<'a>|
                (V::obeys_into_spec() ==> handed == val.into_spec()) && #[trigger] old(
                    self,
                ).encoder().0.takes_option(
                    key@,
                    handed,
                    outcome,
                    final(self).encoder().0.model(),
                ),
    {
        let handed = val.into();
        let outcome = self.enc.0.set_option(key, handed);
        assert(old(self).encoder().0.takes_option(
            key@,
            handed,
            outcome,
            self.encoder().0.model(),
        ));
        outcome
    }

    /// Has the encoder check its configuration, and passes its answer back.
    /// Once the answer has been `Ok`, the context is validated for good.
    pub fn validate(&mut self) -> (outcome: Result<(), ErrorKind>)
        ensures
            old(self).encoder().0.validates(outcome, final(self).encoder().0.model()),
            final(self).validated() == (old(self).validated() || outcome is Ok),
    {
        let outcome = self.enc.0.validate();
        if outcome.is_ok() {
            self.validated = true;
        }
        outcome
    }

    /// The encoder's out-of-band initialisation data, if it has any.
    pub fn get_extradata(&mut self) -> (extradata: Option<Vec<u8>>)
        ensures
            old(self).encoder().0.gives_extradata(bytes_of(extradata)),
            *final(self) == *old(self),
    {
        self.enc.0.get_extradata()
    }

    /// Submits one frame to the encoder and passes its answer back.
    ///
    /// Before validation has succeeded the frame goes nowhere: the answer is
    /// `NotReady` and the encoder is not touched.
    pub fn send_frame(&mut self, frame: &Frame) -> (outcome: Result<(), ErrorKind>)
        ensures
            final(self).validated() == old(self).validated(),
            !old(self).validated() ==> outcome == Err::<(), ErrorKind>(ErrorKind::NotReady)
                && *final(self) == *old(self),
            old(self).validated() ==> old(self).encoder().0.sends(
                *frame,
                outcome,
                final(self).encoder().0.model(),
            ),
    {
        if self.validated {
            self.enc.0.send_frame(frame)
        } else {
            Err(ErrorKind::NotReady)
        }
    }

    /// Asks the encoder for one packet and passes its answer back.
    ///
    /// Before validation has succeeded nothing is asked: the answer is
    /// `NotReady` and the encoder is not touched.
    pub fn receive_packet(&mut self) -> (outcome: Result<Packet, ErrorKind>)
        ensures
            final(self).validated() == old(self).validated(),
            !old(self).validated() ==> outcome == Err::<Packet, ErrorKind>(ErrorKind::NotReady)
                && *final(self) == *old(self),
            old(self).validated() ==> old(self).encoder().0.receives(
                outcome,
                final(self).encoder().0.model(),
            ),
    {
        if self.validated {
            self.enc.0.receive_packet()
        } else {
            Err(ErrorKind::NotReady)
        }
    }
}

} // verus!
