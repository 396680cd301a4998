use codec_bench::codec::{Backend, DecodeError, EncodeError, Operation};
use codec_bench::datasets::mk48::Update;
use codec_bench::family::{group_label, Family};
use codec_bench::registry::Registry;
use codec_bench::report::{Report, SizeEntry};
use codec_bench::roundtrip::{decoded, encoded};
use codec_bench::run::Run;
use codec_bench::session::{Action, Event, Fault, Phase, Session};

fn verified(family: Family, backend: Backend, size: usize) -> Session {
    let mut session = Session::new(family, backend);
    session.handle(Event::Encoded { size });
    session.handle(Event::Decoded { equal: true });
    session
}

fn complete(family: Family, backend: Backend, size: usize) -> Session {
    let mut session = verified(family, backend, size);
    session.handle(Event::Measured);
    session.handle(Event::Measured);
    assert_eq!(session.phase(), Phase::Complete { size });
    session
}

fn failed(family: Family, backend: Backend, fault: Fault) -> Session {
    let mut session = Session::new(family, backend);
    match fault {
        Fault::Encode(error) => {
            session.handle(Event::EncodeFailed(error));
        }
        Fault::Decode(error) => {
            session.handle(Event::Encoded { size: 1 });
            session.handle(Event::DecodeFailed(error));
        }
        Fault::Mismatch => {
            session.handle(Event::Encoded { size: 1 });
            session.handle(Event::Decoded { equal: false });
        }
    }
    assert_eq!(session.phase(), Phase::Failed(fault));
    session
}

#[test]
fn names_of_families() {
    assert_eq!(Family::Log.name(), "log");
    assert_eq!(Family::Mesh.name(), "mesh");
    assert_eq!(Family::MinecraftSavedata.name(), "minecraft_savedata");
    assert_eq!(Family::Mk48.name(), "mk48");
}

#[test]
fn names_of_backends() {
    assert_eq!(Backend::Bitcode.name(), "bitcode");
    assert_eq!(Backend::BitcodeRkyv.name(), "bitcode + rkyv");
    assert_ne!(Backend::Bitcode.name(), Backend::BitcodeRkyv.name());
}

#[test]
fn names_of_operations_are_the_same_for_every_backend() {
    assert_eq!(Operation::Serialize.name(), "serialize");
    assert_eq!(Operation::Deserialize.name(), "deserialize");
}

#[test]
fn group_label_is_family_slash_backend() {
    assert_eq!(group_label(Family::Log, Backend::Bitcode), "log/bitcode");
    assert_eq!(group_label(Family::Log, Backend::BitcodeRkyv), "log/bitcode + rkyv");
    assert_eq!(group_label(Family::Mesh, Backend::Bitcode), "mesh/bitcode");
    assert_eq!(group_label(Family::Mesh, Backend::BitcodeRkyv), "mesh/bitcode + rkyv");
    assert_eq!(
        group_label(Family::MinecraftSavedata, Backend::Bitcode),
        "minecraft_savedata/bitcode"
    );
    assert_eq!(
        group_label(Family::MinecraftSavedata, Backend::BitcodeRkyv),
        "minecraft_savedata/bitcode + rkyv"
    );
    assert_eq!(group_label(Family::Mk48, Backend::Bitcode), "mk48/bitcode");
    assert_eq!(group_label(Family::Mk48, Backend::BitcodeRkyv), "mk48/bitcode + rkyv");
}

#[test]
fn group_label_ends_in_the_name_the_size_is_reported_under() {
    let families = [Family::Log, Family::Mesh, Family::MinecraftSavedata, Family::Mk48];
    let backends = [Backend::Bitcode, Backend::BitcodeRkyv];
    let mut labels: Vec<String> = Vec::new();
    for family in families {
        for backend in backends {
            let label = group_label(family, backend);
            assert_eq!(label, format!("{}/{}", family.name(), backend.name()));
            assert!(!labels.contains(&label));
            labels.push(label);
        }
    }
    assert_eq!(labels.len(), 8);
}

#[test]
fn session_verifies_before_it_measures() {
    let mut session = Session::new(Family::Log, Backend::Bitcode);
    assert_eq!(session.phase(), Phase::Encoding);
    assert_eq!(session.pending(), Action::Encode);
    assert_eq!(session.handle(Event::Encoded { size: 4711 }), Action::Decode);
    assert_eq!(session.phase(), Phase::Decoding { size: 4711 });
    assert_eq!(
        session.handle(Event::Decoded { equal: true }),
        Action::Measure(Operation::Serialize)
    );
    assert_eq!(session.handle(Event::Measured), Action::Measure(Operation::Deserialize));
    assert_eq!(session.handle(Event::Measured), Action::Report { size: 4711 });
    assert_eq!(session.phase(), Phase::Complete { size: 4711 });
    assert_eq!(session.family(), Family::Log);
    assert_eq!(session.backend(), Backend::Bitcode);
}

#[test]
fn session_ignores_what_it_does_not_wait_for() {
    let mut session = Session::new(Family::Mesh, Backend::BitcodeRkyv);
    assert_eq!(session.handle(Event::Measured), Action::Encode);
    assert_eq!(session.handle(Event::Decoded { equal: true }), Action::Encode);
    assert_eq!(session.handle(Event::DecodeFailed(DecodeError::Codec)), Action::Encode);
    assert_eq!(session.handle(Event::Encoded { size: 1 }), Action::Decode);
    assert_eq!(session.handle(Event::Encoded { size: 2 }), Action::Decode);
    assert_eq!(session.handle(Event::EncodeFailed(EncodeError::Codec)), Action::Decode);
    assert_eq!(session.handle(Event::Measured), Action::Decode);
    assert_eq!(session.phase(), Phase::Decoding { size: 1 });
    session.handle(Event::Decoded { equal: true });
    assert_eq!(
        session.handle(Event::Decoded { equal: false }),
        Action::Measure(Operation::Serialize)
    );
    session.handle(Event::Measured);
    session.handle(Event::Measured);
    assert_eq!(session.handle(Event::Measured), Action::Report { size: 1 });
    assert_eq!(session.handle(Event::Decoded { equal: false }), Action::Report { size: 1 });
}

#[test]
fn encode_error_skips_the_backend() {
    for error in [EncodeError::Codec, EncodeError::PayloadTooLarge, EncodeError::Envelope] {
        let mut session = Session::new(Family::Mk48, Backend::BitcodeRkyv);
        assert_eq!(session.handle(Event::EncodeFailed(error)), Action::Skip);
        assert_eq!(session.phase(), Phase::Failed(Fault::Encode(error)));
        assert_eq!(session.handle(Event::Encoded { size: 3 }), Action::Skip);
        assert_eq!(session.handle(Event::Measured), Action::Skip);
    }
}

#[test]
fn decode_error_skips_the_backend() {
    for error in [DecodeError::Codec, DecodeError::Envelope] {
        let mut session = Session::new(Family::Mk48, Backend::Bitcode);
        session.handle(Event::Encoded { size: 3 });
        assert_eq!(session.handle(Event::DecodeFailed(error)), Action::Skip);
        assert_eq!(session.phase(), Phase::Failed(Fault::Decode(error)));
        assert_eq!(session.handle(Event::Decoded { equal: true }), Action::Skip);
    }
}

#[test]
fn mismatch_aborts_and_is_never_measured() {
    let mut session = Session::new(Family::Log, Backend::Bitcode);
    session.handle(Event::Encoded { size: 3 });
    assert_eq!(session.handle(Event::Decoded { equal: false }), Action::Abort);
    assert_eq!(session.phase(), Phase::Failed(Fault::Mismatch));
    assert_eq!(session.handle(Event::Decoded { equal: true }), Action::Abort);
    assert_eq!(session.handle(Event::Measured), Action::Abort);
}

#[test]
fn events_are_made_from_outcomes() {
    assert_eq!(encoded(Ok(17)), Event::Encoded { size: 17 });
    assert_eq!(encoded(Err(EncodeError::Codec)), Event::EncodeFailed(EncodeError::Codec));
    let original = vec![Update::Despawn { entity: 1 }, Update::Spawn { entity: 2, kind: 3 }];
    assert_eq!(decoded(&original, &Ok(original.clone())), Event::Decoded { equal: true });
    let other = vec![Update::Despawn { entity: 1 }, Update::Spawn { entity: 2, kind: 4 }];
    assert_eq!(decoded(&original, &Ok(other)), Event::Decoded { equal: false });
    assert_eq!(decoded(&original, &Ok(vec![])), Event::Decoded { equal: false });
    assert_eq!(
        decoded(&original, &Err(DecodeError::Envelope)),
        Event::DecodeFailed(DecodeError::Envelope)
    );
}

#[test]
fn report_keeps_the_first_size_of_a_pair() {
    let mut report = Report::new();
    assert_eq!(report.len(), 0);
    assert_eq!(report.size(Family::Log, Backend::Bitcode), None);
    assert_eq!(report.entry(0), None);
    assert!(report.record(Family::Log, Backend::Bitcode, 100));
    assert!(report.record(Family::Log, Backend::BitcodeRkyv, 108));
    assert!(report.record(Family::Mesh, Backend::Bitcode, 6_000_000));
    assert!(!report.record(Family::Log, Backend::Bitcode, 999));
    assert_eq!(report.len(), 3);
    assert_eq!(report.size(Family::Log, Backend::Bitcode), Some(100));
    assert_eq!(report.size(Family::Log, Backend::BitcodeRkyv), Some(108));
    assert_eq!(report.size(Family::Mesh, Backend::Bitcode), Some(6_000_000));
    assert_eq!(report.size(Family::Mesh, Backend::BitcodeRkyv), None);
    assert_eq!(
        report.entry(1),
        Some(SizeEntry { family: Family::Log, backend: Backend::BitcodeRkyv, bytes: 108 })
    );
    assert_eq!(report.entry(3), None);
}

#[test]
fn run_records_complete_sessions_only() {
    let mut run = Run::new();
    assert!(run.may_continue());
    assert_eq!(run.report().len(), 0);
    run.conclude(&Session::new(Family::Log, Backend::Bitcode));
    let mut unfinished = verified(Family::Log, Backend::Bitcode, 5);
    run.conclude(&unfinished);
    unfinished.handle(Event::Measured);
    assert_eq!(
        unfinished.phase(),
        Phase::Measuring { size: 5, operation: Operation::Deserialize }
    );
    run.conclude(&unfinished);
    run.conclude(&failed(Family::Log, Backend::Bitcode, Fault::Encode(EncodeError::Codec)));
    run.conclude(&failed(Family::Log, Backend::Bitcode, Fault::Decode(DecodeError::Codec)));
    assert_eq!(run.report().len(), 0);
    assert!(run.may_continue());
    run.conclude(&complete(Family::Log, Backend::Bitcode, 5));
    run.conclude(&complete(Family::Log, Backend::Bitcode, 6));
    run.conclude(&complete(Family::Mesh, Backend::Bitcode, 7));
    assert_eq!(run.report().len(), 2);
    assert_eq!(run.reported(Family::Log, Backend::Bitcode), Some(5));
    assert_eq!(run.reported(Family::Mesh, Backend::Bitcode), Some(7));
    assert_eq!(run.reported(Family::Mesh, Backend::BitcodeRkyv), None);
}

#[test]
fn mismatch_voids_the_run() {
    let mut run = Run::new();
    run.conclude(&complete(Family::Log, Backend::Bitcode, 5));
    run.conclude(&failed(Family::Log, Backend::BitcodeRkyv, Fault::Mismatch));
    assert!(!run.may_continue());
    assert_eq!(run.reported(Family::Log, Backend::Bitcode), None);
    run.conclude(&complete(Family::Mesh, Backend::Bitcode, 7));
    assert_eq!(run.report().len(), 1);
    assert_eq!(run.report().size(Family::Log, Backend::Bitcode), Some(5));
    assert_eq!(run.reported(Family::Mesh, Backend::Bitcode), None);
    assert!(!run.may_continue());
}

#[test]
fn order_of_backends_does_not_show() {
    let sessions = [
        complete(Family::Log, Backend::Bitcode, 5),
        complete(Family::Log, Backend::BitcodeRkyv, 13),
        failed(Family::Mesh, Backend::Bitcode, Fault::Decode(DecodeError::Codec)),
        failed(Family::Mesh, Backend::BitcodeRkyv, Fault::Mismatch),
    ];
    for (at, first) in sessions.iter().enumerate() {
        for (other_at, second) in sessions.iter().enumerate() {
            if at == other_at {
                continue;
            }
            let mut one = Run::new();
            one.conclude(first);
            one.conclude(second);
            let mut other = Run::new();
            other.conclude(second);
            other.conclude(first);
            assert_eq!(one.may_continue(), other.may_continue());
            for family in [Family::Log, Family::Mesh, Family::MinecraftSavedata, Family::Mk48] {
                for backend in [Backend::Bitcode, Backend::BitcodeRkyv] {
                    assert_eq!(one.reported(family, backend), other.reported(family, backend));
                }
            }
        }
    }
}

#[test]
fn registry_lists_what_is_registered() {
    let mut registry = Registry::new();
    assert!(!registry.is_registered(Backend::Bitcode));
    assert!(!registry.is_registered(Backend::BitcodeRkyv));
    assert_eq!(registry.backends(), vec![]);
    registry.register(Backend::BitcodeRkyv);
    assert!(!registry.is_registered(Backend::Bitcode));
    assert!(registry.is_registered(Backend::BitcodeRkyv));
    assert_eq!(registry.backends(), vec![Backend::BitcodeRkyv]);
    registry.register(Backend::Bitcode);
    registry.register(Backend::Bitcode);
    assert_eq!(registry.backends(), vec![Backend::Bitcode, Backend::BitcodeRkyv]);
}
