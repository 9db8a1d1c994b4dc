use av_core::data::{FormatRef, Frame, Packet, Value};
use av_core::encoder::{Context, Descr, Descriptor, Encoder};
use av_core::error::ErrorKind;
use av_core::instance::Instance;
use av_core::registry::Codecs;

struct Enc {
    state: usize,
    w: Option<usize>,
    h: Option<usize>,
    format: Option<FormatRef>,
}

struct Des {
    descr: Descr,
}

impl Descriptor for Des {
    fn create(&self) -> Instance<dyn Encoder> {
        Instance(Box::new(Enc { state: 0, w: None, h: None, format: None }))
    }

    fn describe<'a>(&'a self) -> &'a Descr {
        &self.descr
    }
}

impl Encoder for Enc {
    fn validate(&mut self) -> Result<(), ErrorKind> {
        if self.h.is_some() && self.w.is_some() && self.format.is_some() {
            Ok(())
        } else {
            Err(ErrorKind::NotConfigured)
        }
    }

    fn get_extradata(&self) -> Option<Vec<u8>> {
        Some(vec![self.state as u8; 1])
    }

    fn send_frame(&mut self, _frame: &Frame) -> Result<(), ErrorKind> {
        self.state += 1;
        Ok(())
    }

    fn receive_packet(&mut self) -> Result<Packet, ErrorKind> {
        if self.state == 0 {
            return Err(ErrorKind::MoreDataNeeded);
        }
        let mut p = Packet::with_capacity(1);

        p.data.push(self.state as u8);

        Ok(p)
    }

    fn set_option<'a>(&mut self, key: &str, val: Value<'a>) -> Result<(), ErrorKind> {
        match (key, val) {
            ("w", Value::U64(v)) => self.w = Some(v as usize),
            ("h", Value::U64(v)) => self.h = Some(v as usize),
            ("format", Value::Formaton(f)) => self.format = Some(f),
            ("w", _) | ("h", _) | ("format", _) => return Err(ErrorKind::InvalidValue),
            _ => return Err(ErrorKind::UnsupportedOption),
        }

        Ok(())
    }
}

const DUMMY_DESCR: &Des = &Des {
    descr: Descr {
        codec: "dummy",
        name: "dummy",
        desc: "Dummy encoder",
        mime: "x-application/dummy",
    },
};

const DUMMY_TWIN: &Des = &Des {
    descr: Descr {
        codec: "dummy",
        name: "dummy-twin",
        desc: "Another dummy encoder",
        mime: "x-application/dummy",
    },
};

const OTHER_DESCR: &Des = &Des {
    descr: Descr {
        codec: "other",
        name: "other",
        desc: "Yet another dummy encoder",
        mime: "x-application/other",
    },
};

/// An encoder that has nothing left to give.
struct Spent;

impl Encoder for Spent {
    fn validate(&mut self) -> Result<(), ErrorKind> {
        Ok(())
    }

    fn get_extradata(&self) -> Option<Vec<u8>> {
        None
    }

    fn send_frame(&mut self, _frame: &Frame) -> Result<(), ErrorKind> {
        Err(ErrorKind::Eof)
    }

    fn receive_packet(&mut self) -> Result<Packet, ErrorKind> {
        Err(ErrorKind::Eof)
    }

    fn set_option<'a>(&mut self, _key: &str, _val: Value<'a>) -> Result<(), ErrorKind> {
        Err(ErrorKind::UnsupportedOption)
    }
}

struct SpentDes {
    descr: Descr,
}

impl Descriptor for SpentDes {
    fn create(&self) -> Instance<dyn Encoder> {
        Instance(Box::new(Spent))
    }

    fn describe<'a>(&'a self) -> &'a Descr {
        &self.descr
    }
}

const SPENT_DESCR: &SpentDes = &SpentDes {
    descr: Descr { codec: "spent", name: "spent", desc: "Spent encoder", mime: "x-application/spent" },
};

fn frame() -> Frame {
    Frame { data: vec![0u8; 16], pts: Some(0) }
}

fn configured() -> Context {
    let mut codecs = Codecs::new();
    codecs.append(DUMMY_DESCR);
    let mut ctx = Context::by_name(&codecs, "dummy").unwrap();
    ctx.set_option("w", 640u64).unwrap();
    ctx.set_option("h", 480u64).unwrap();
    ctx.set_option("format", FormatRef { id: 7 }).unwrap();
    ctx
}

#[test]
fn lookup() {
    let mut codecs = Codecs::new();

    codecs.append(DUMMY_DESCR);

    let _enc = codecs.by_name("dummy");
}

#[test]
fn lookup_finds_what_was_registered() {
    let mut codecs = Codecs::new();
    codecs.append(DUMMY_DESCR);
    let found = codecs.by_name("dummy").unwrap();
    assert_eq!(found.describe().name, "dummy");
    assert_eq!(found.describe().codec, "dummy");
    assert_eq!(found.describe().desc, "Dummy encoder");
    assert_eq!(found.describe().mime, "x-application/dummy");
}

#[test]
fn lookup_of_unregistered_name_finds_nothing() {
    let empty: Codecs<Des> = Codecs::new();
    assert!(empty.by_name("dummy").is_none());

    let mut codecs = Codecs::new();
    codecs.append(DUMMY_DESCR);
    assert!(codecs.by_name("other").is_none());
    assert!(codecs.by_name("").is_none());
    assert!(codecs.by_name("dumm").is_none());
    assert!(codecs.by_name("dummy ").is_none());
}

#[test]
fn lookup_yields_first_registered() {
    let mut codecs = Codecs::new();
    codecs.append(DUMMY_DESCR);
    codecs.append(OTHER_DESCR);
    codecs.append(DUMMY_TWIN);
    codecs.append(DUMMY_TWIN);
    assert_eq!(codecs.by_name("dummy").unwrap().describe().name, "dummy");
    assert_eq!(codecs.by_name("other").unwrap().describe().name, "other");

    let mut reversed = Codecs::new();
    reversed.append(DUMMY_TWIN);
    reversed.append(DUMMY_DESCR);
    assert_eq!(reversed.by_name("dummy").unwrap().describe().name, "dummy-twin");
}

#[test]
fn duplicates_are_kept_and_first_stays_first() {
    let mut codecs = Codecs::new();
    codecs.append(DUMMY_DESCR);
    codecs.append(DUMMY_DESCR);
    codecs.append(DUMMY_TWIN);
    assert_eq!(codecs.by_name("dummy").unwrap().describe().name, "dummy");
}

#[test]
fn append_to_files_under_the_given_family() {
    let mut codecs = Codecs::new();
    codecs.append_to("alias", DUMMY_DESCR);
    assert!(codecs.by_name("dummy").is_none());
    assert_eq!(codecs.by_name("alias").unwrap().describe().name, "dummy");
    codecs.append_to("alias", DUMMY_TWIN);
    codecs.append_to("second", DUMMY_TWIN);
    assert_eq!(codecs.by_name("alias").unwrap().describe().name, "dummy");
    assert_eq!(codecs.by_name("second").unwrap().describe().name, "dummy-twin");
}

#[test]
fn registry_of_trait_objects_mixes_implementations() {
    let mut codecs: Codecs<dyn Descriptor> = Codecs::new();
    codecs.append(SPENT_DESCR);
    codecs.append(DUMMY_DESCR);
    codecs.append(DUMMY_TWIN);
    assert_eq!(codecs.by_name("spent").unwrap().describe().name, "spent");
    assert_eq!(codecs.by_name("dummy").unwrap().describe().name, "dummy");
    assert!(codecs.by_name("other").is_none());
}

#[test]
fn context_by_name_of_unknown_family_is_none() {
    let mut codecs = Codecs::new();
    codecs.append(DUMMY_DESCR);
    assert!(Context::by_name(&codecs, "unknown").is_none());
    assert!(Context::by_name(&codecs, "dummy").is_some());
}

#[test]
fn context_uses_first_registered_implementation() {
    let mut codecs: Codecs<dyn Descriptor> = Codecs::new();
    codecs.append_to("codec", SPENT_DESCR);
    codecs.append_to("codec", DUMMY_DESCR);
    let mut ctx = Context::by_name(&codecs, "codec").unwrap();
    assert_eq!(ctx.get_extradata(), None);
    assert_eq!(ctx.set_option("w", 1u64), Err(ErrorKind::UnsupportedOption));
}

#[test]
fn codec_round_trip() {
    let mut codecs = Codecs::new();
    codecs.append(DUMMY_DESCR);
    let mut ctx = Context::by_name(&codecs, "dummy").unwrap();

    assert_eq!(ctx.set_option("w", 640u64), Ok(()));
    assert_eq!(ctx.set_option("h", 480u64), Ok(()));
    assert_eq!(ctx.set_option("format", FormatRef { id: 7 }), Ok(()));
    assert_eq!(ctx.validate(), Ok(()));

    assert_eq!(ctx.send_frame(&frame()), Ok(()));

    let packet = ctx.receive_packet().unwrap();
    assert_eq!(packet.data, vec![1u8]);
    assert_eq!(ctx.get_extradata(), Some(vec![1u8]));
}

#[test]
fn streaming_before_validation_is_not_ready() {
    let mut ctx = configured();
    assert_eq!(ctx.send_frame(&frame()), Err(ErrorKind::NotReady));
    assert_eq!(ctx.receive_packet(), Err(ErrorKind::NotReady));
    // the refused frame never reached the encoder
    assert_eq!(ctx.get_extradata(), Some(vec![0u8]));

    assert_eq!(ctx.validate(), Ok(()));
    assert_eq!(ctx.send_frame(&frame()), Ok(()));
    assert_eq!(ctx.get_extradata(), Some(vec![1u8]));
}

#[test]
fn failed_validation_leaves_the_context_unready() {
    let mut codecs = Codecs::new();
    codecs.append(DUMMY_DESCR);
    let mut ctx = Context::by_name(&codecs, "dummy").unwrap();
    assert_eq!(ctx.validate(), Err(ErrorKind::NotConfigured));
    assert_eq!(ctx.send_frame(&frame()), Err(ErrorKind::NotReady));

    ctx.set_option("w", 640u64).unwrap();
    ctx.set_option("h", 480u64).unwrap();
    assert_eq!(ctx.validate(), Err(ErrorKind::NotConfigured));
    assert_eq!(ctx.receive_packet(), Err(ErrorKind::NotReady));

    ctx.set_option("format", FormatRef { id: 1 }).unwrap();
    assert_eq!(ctx.validate(), Ok(()));
    assert_eq!(ctx.receive_packet(), Err(ErrorKind::MoreDataNeeded));
}

#[test]
fn validated_context_passes_answers_on_unchanged() {
    let mut ctx = configured();
    assert_eq!(ctx.validate(), Ok(()));
    assert_eq!(ctx.receive_packet(), Err(ErrorKind::MoreDataNeeded));
    assert_eq!(ctx.send_frame(&frame()), Ok(()));
    assert_eq!(ctx.send_frame(&frame()), Ok(()));
    assert_eq!(ctx.receive_packet().unwrap().data, vec![2u8]);

    let mut codecs = Codecs::new();
    codecs.append(SPENT_DESCR);
    let mut spent = Context::by_name(&codecs, "spent").unwrap();
    assert_eq!(spent.validate(), Ok(()));
    assert_eq!(spent.send_frame(&frame()), Err(ErrorKind::Eof));
    assert_eq!(spent.receive_packet(), Err(ErrorKind::Eof));
}

#[test]
fn options_are_passed_on_with_their_kind() {
    let mut codecs = Codecs::new();
    codecs.append(DUMMY_DESCR);
    let mut ctx = Context::by_name(&codecs, "dummy").unwrap();
    assert_eq!(ctx.set_option("w", Value::U64(640)), Ok(()));
    assert_eq!(ctx.set_option("w", 640i64), Err(ErrorKind::InvalidValue));
    assert_eq!(ctx.set_option("h", true), Err(ErrorKind::InvalidValue));
    assert_eq!(ctx.set_option("h", "480"), Err(ErrorKind::InvalidValue));
    assert_eq!(ctx.set_option("format", (4i64, 3i64)), Err(ErrorKind::InvalidValue));
    assert_eq!(ctx.set_option("depth", 8u64), Err(ErrorKind::UnsupportedOption));
    // a later value for the same key replaces the earlier one
    assert_eq!(ctx.set_option("w", 320u64), Ok(()));
}

#[test]
fn values_are_built_from_plain_types() {
    assert_eq!(Value::from(-3i64), Value::I64(-3));
    assert_eq!(Value::from(3u64), Value::U64(3));
    assert_eq!(Value::from("yuv"), Value::Str("yuv"));
    assert_eq!(Value::from(true), Value::Bool(true));
    assert_eq!(Value::from((16i64, 9i64)), Value::Pair(16, 9));
    assert_eq!(Value::from(FormatRef { id: 2 }), Value::Formaton(FormatRef { id: 2 }));
}

#[test]
fn only_more_data_needed_is_transient() {
    assert!(ErrorKind::MoreDataNeeded.is_transient());
    assert!(!ErrorKind::NotConfigured.is_transient());
    assert!(!ErrorKind::NotReady.is_transient());
    assert!(!ErrorKind::UnsupportedOption.is_transient());
    assert!(!ErrorKind::InvalidValue.is_transient());
    assert!(!ErrorKind::InvalidData.is_transient());
    assert!(!ErrorKind::Eof.is_transient());
}

#[test]
fn packet_with_capacity_is_empty_and_unbound() {
    let p = Packet::with_capacity(32);
    assert!(p.data.is_empty());
    assert!(p.data.capacity() >= 32);
    assert_eq!(p.pos, None);
    assert_eq!(p.stream_index, -1);
    assert!(!p.is_key);
    assert!(!p.is_corrupted);
}

#[test]
fn fresh_context_wraps_a_fresh_encoder() {
    let mut codecs = Codecs::new();
    codecs.append(DUMMY_DESCR);
    let mut ctx = Context::by_name(&codecs, "dummy").unwrap();
    assert_eq!(ctx.get_extradata(), Some(vec![0u8]));
}

#[test]
fn each_lookup_owns_its_own_encoder() {
    let mut codecs = Codecs::new();
    codecs.append(DUMMY_DESCR);
    let mut first = Context::by_name(&codecs, "dummy").unwrap();
    first.set_option("w", 640u64).unwrap();
    first.set_option("h", 480u64).unwrap();
    first.set_option("format", FormatRef { id: 7 }).unwrap();
    assert_eq!(first.validate(), Ok(()));
    assert_eq!(first.send_frame(&frame()), Ok(()));

    let mut second = Context::by_name(&codecs, "dummy").unwrap();
    assert_eq!(second.get_extradata(), Some(vec![0u8]));
    assert_eq!(second.validate(), Err(ErrorKind::NotConfigured));
    assert_eq!(first.get_extradata(), Some(vec![1u8]));
}

#[test]
fn frames_are_counted_one_by_one() {
    let mut ctx = configured();
    assert_eq!(ctx.validate(), Ok(()));
    let sent = frame();
    assert_eq!(ctx.send_frame(&sent), Ok(()));
    assert_eq!(ctx.receive_packet().unwrap().data, vec![1u8]);
    assert_eq!(ctx.get_extradata(), Some(vec![1u8]));
    assert_eq!(ctx.send_frame(&sent), Ok(()));
    assert_eq!(ctx.receive_packet().unwrap().data, vec![2u8]);
    assert_eq!(ctx.get_extradata(), Some(vec![2u8]));
    assert_eq!(sent, frame());
}
