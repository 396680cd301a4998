use codec_bench::codec::{Backend, Bytes, DecodeError, EncodeError, Operation};
use codec_bench::datasets::log::{Level, Log};
use codec_bench::datasets::mesh::{Triangle, Vector3};
use codec_bench::envelope::{de_archive, envelope_len, ser_archive};
use codec_bench::family::Family;
use codec_bench::generator::generate_dataset;
use codec_bench::record::StructuralEq;
use codec_bench::registry::Registry;
use codec_bench::roundtrip::{decoded, encoded, verify};
use codec_bench::run::Run;
use codec_bench::seed::GenerationSeed;
use codec_bench::session::{Action, Event, Fault, Phase, Session};
use codec_bench::stream::CountRange;

type LogRow = (u8, u64, Vec<u8>);
type TriangleRow = [f32; 12];

fn pi() -> GenerationSeed {
    GenerationSeed::new(3141592653, 5897932384)
}

fn log_row(log: &Log) -> LogRow {
    let level = match log.level {
        Level::Trace => 0,
        Level::Debug => 1,
        Level::Info => 2,
        Level::Warn => 3,
        Level::Error => 4,
    };
    (level, log.timestamp, log.message.clone())
}

fn row_log(row: LogRow) -> Log {
    let level = match row.0 {
        0 => Level::Trace,
        1 => Level::Debug,
        2 => Level::Info,
        3 => Level::Warn,
        _ => Level::Error,
    };
    Log { level, timestamp: row.1, message: row.2 }
}

fn triangle_row(triangle: &Triangle) -> TriangleRow {
    let corners = [triangle.v0, triangle.v1, triangle.v2, triangle.normal];
    let mut row = [0.0f32; 12];
    for (at, corner) in corners.iter().enumerate() {
        row[3 * at] = f32::from_bits(corner.x);
        row[3 * at + 1] = f32::from_bits(corner.y);
        row[3 * at + 2] = f32::from_bits(corner.z);
    }
    row
}

fn row_triangle(row: TriangleRow) -> Triangle {
    let corner = |at: usize| Vector3 {
        x: row[3 * at].to_bits(),
        y: row[3 * at + 1].to_bits(),
        z: row[3 * at + 2].to_bits(),
    };
    Triangle { v0: corner(0), v1: corner(1), v2: corner(2), normal: corner(3) }
}

fn encode_logs(logs: &Vec<Log>) -> Result<Vec<u8>, EncodeError> {
    let rows: Vec<LogRow> = logs.iter().map(log_row).collect();
    bitcode::serialize(&rows).map_err(|_| EncodeError::Codec)
}

fn decode_logs(bytes: &[u8]) -> Result<Vec<Log>, DecodeError> {
    bitcode::deserialize::<Vec<LogRow>>(bytes)
        .map(|rows| rows.into_iter().map(row_log).collect())
        .map_err(|_| DecodeError::Codec)
}

fn encode_mesh(mesh: &Vec<Triangle>) -> Result<Vec<u8>, EncodeError> {
    let rows: Vec<TriangleRow> = mesh.iter().map(triangle_row).collect();
    bitcode::serialize(&rows).map_err(|_| EncodeError::Codec)
}

fn decode_mesh(bytes: &[u8]) -> Result<Vec<Triangle>, DecodeError> {
    bitcode::deserialize::<Vec<TriangleRow>>(bytes)
        .map(|rows| rows.into_iter().map(row_triangle).collect())
        .map_err(|_| DecodeError::Codec)
}

/// Drives a session to its end and takes it into the run; the two codec
/// closures stand for the backend under test.
fn drive<T: StructuralEq>(
    run: &mut Run,
    family: Family,
    backend: Backend,
    data: &Vec<T>,
    encode: impl Fn(&Vec<T>) -> Result<Vec<u8>, EncodeError>,
    decode: impl Fn(&[u8]) -> Result<Vec<T>, DecodeError>,
) -> (Session, Vec<Action>) {
    let mut session = Session::new(family, backend);
    let mut buffer: Vec<u8> = Vec::new();
    let mut actions = vec![session.pending()];
    loop {
        let next = match *actions.last().unwrap() {
            Action::Encode => {
                let outcome = encode(data);
                let size = outcome.as_ref().map(|bytes| bytes.len()).map_err(|error| *error);
                buffer = outcome.unwrap_or_default();
                session.handle(encoded(size))
            }
            Action::Decode => session.handle(decoded(data, &decode(&buffer))),
            Action::Measure(Operation::Serialize) => {
                assert_eq!(encode(data).map(|bytes| bytes.len()), Ok(buffer.len()));
                session.handle(Event::Measured)
            }
            Action::Measure(Operation::Deserialize) => {
                assert!(decode(&buffer).is_ok());
                session.handle(Event::Measured)
            }
            Action::Report { .. } | Action::Skip | Action::Abort => break,
        };
        actions.push(next);
    }
    run.conclude(&session);
    (session, actions)
}

fn layered_encode_logs(logs: &Vec<Log>) -> Result<Vec<u8>, EncodeError> {
    let inner = Bytes::from(encode_logs(logs)?);
    ser_archive(&inner).map(|envelope| envelope.as_slice().to_vec())
}

fn layered_decode_logs(bytes: &[u8]) -> Result<Vec<Log>, DecodeError> {
    let mut envelope = rkyv::util::AlignedVec::new();
    envelope.extend_from_slice(bytes);
    decode_logs(de_archive(&envelope)?)
}

#[test]
fn ten_thousand_logs() {
    let range = CountRange::exactly(10_000).unwrap();
    let logs: Vec<Log> = generate_dataset(pi(), range);
    assert_eq!(logs.len(), 10_000);
    let again: Vec<Log> = generate_dataset(pi(), range);
    assert_eq!(logs, again);
    assert!(verify(&logs, &again));

    let buffer = encode_logs(&logs).unwrap();
    let back = decode_logs(&buffer).unwrap();
    assert_eq!(back.len(), 10_000);
    assert_eq!(back, logs);
    assert!(verify(&logs, &back));

    let mut run = Run::new();
    let (session, actions) =
        drive(&mut run, Family::Log, Backend::Bitcode, &logs, encode_logs, decode_logs);
    assert_eq!(
        actions,
        vec![
            Action::Encode,
            Action::Decode,
            Action::Measure(Operation::Serialize),
            Action::Measure(Operation::Deserialize),
            Action::Report { size: buffer.len() },
        ]
    );
    assert_eq!(session.phase(), Phase::Complete { size: buffer.len() });
    assert_eq!(run.reported(Family::Log, Backend::Bitcode), Some(buffer.len()));
    assert_eq!(run.report().len(), 1);
}

#[test]
fn ten_thousand_logs_layered() {
    let logs: Vec<Log> = generate_dataset(pi(), CountRange::exactly(10_000).unwrap());
    let inner = Bytes::from(encode_logs(&logs).unwrap());
    let envelope = ser_archive(&inner).unwrap();
    let payload = de_archive(&envelope).unwrap();
    assert_eq!(payload, inner.bytes.as_slice());
    assert_eq!(decode_logs(payload).unwrap(), logs);
    assert!(envelope_len(&envelope) >= inner.bytes.len() + 8);

    let mut run = Run::new();
    let (session, _) = drive(
        &mut run,
        Family::Log,
        Backend::BitcodeRkyv,
        &logs,
        layered_encode_logs,
        layered_decode_logs,
    );
    assert_eq!(session.phase(), Phase::Complete { size: envelope_len(&envelope) });
    assert_eq!(run.reported(Family::Log, Backend::BitcodeRkyv), Some(envelope.len()));
}

#[test]
fn mesh_of_125000_triangles() {
    let range = CountRange::exactly(125_000).unwrap();
    let mesh: Vec<Triangle> = generate_dataset(pi(), range);
    assert_eq!(mesh.len(), 125_000);
    assert_eq!(mesh, generate_dataset::<Triangle>(pi(), range));

    let buffer = encode_mesh(&mesh).unwrap();
    let back = decode_mesh(&buffer).unwrap();
    assert_eq!(back.len(), 125_000);
    assert!(verify(&mesh, &back));

    let envelope = ser_archive(&Bytes::from(buffer.clone())).unwrap();
    assert_eq!(envelope_len(&envelope), envelope.len());
    assert!(envelope.len() >= buffer.len() + 8);
    assert!(verify(&mesh, &decode_mesh(de_archive(&envelope).unwrap()).unwrap()));

    let mut run = Run::new();
    drive(&mut run, Family::Mesh, Backend::Bitcode, &mesh, encode_mesh, decode_mesh);
    assert_eq!(run.reported(Family::Mesh, Backend::Bitcode), Some(buffer.len()));
}

#[test]
fn encoded_size_grows_with_the_count() {
    let mut last_plain = 0;
    let mut last_layered = 0;
    for count in [0usize, 1, 2, 10, 100, 1000, 5000] {
        let logs: Vec<Log> = generate_dataset(pi(), CountRange::exactly(count).unwrap());
        let plain = encode_logs(&logs).unwrap();
        let layered = ser_archive(&Bytes::from(plain.clone())).unwrap();
        assert!(plain.len() >= last_plain);
        assert!(envelope_len(&layered) >= last_layered);
        last_plain = plain.len();
        last_layered = envelope_len(&layered);
    }
}

#[test]
fn a_codec_that_loses_a_record_aborts_the_run() {
    let logs: Vec<Log> = generate_dataset(pi(), CountRange::exactly(100).unwrap());
    let lossy = |bytes: &[u8]| {
        decode_logs(bytes).map(|mut logs| {
            logs.pop();
            logs
        })
    };
    let mut run = Run::new();
    let (session, actions) =
        drive(&mut run, Family::Log, Backend::Bitcode, &logs, encode_logs, lossy);
    assert_eq!(actions, vec![Action::Encode, Action::Decode, Action::Abort]);
    assert_eq!(session.phase(), Phase::Failed(Fault::Mismatch));
    assert!(!run.may_continue());
    assert_eq!(run.reported(Family::Log, Backend::Bitcode), None);
}

#[test]
fn a_codec_that_fails_is_left_out() {
    let logs: Vec<Log> = generate_dataset(pi(), CountRange::exactly(100).unwrap());
    let mut run = Run::new();
    let (_, actions) = drive(
        &mut run,
        Family::Log,
        Backend::Bitcode,
        &logs,
        |_: &Vec<Log>| Err(EncodeError::Codec),
        decode_logs,
    );
    assert_eq!(actions, vec![Action::Encode, Action::Skip]);
    let (_, actions) = drive(
        &mut run,
        Family::Log,
        Backend::BitcodeRkyv,
        &logs,
        encode_logs,
        layered_decode_logs,
    );
    assert_eq!(actions, vec![Action::Encode, Action::Decode, Action::Skip]);
    assert!(run.may_continue());
    assert_eq!(run.report().len(), 0);
    drive(&mut run, Family::Log, Backend::Bitcode, &logs, encode_logs, decode_logs);
    assert_eq!(run.report().len(), 1);
}

#[test]
fn backends_in_either_order_give_the_same_verdicts() {
    let logs: Vec<Log> = generate_dataset(pi(), CountRange::exactly(300).unwrap());
    let before = logs.clone();

    let mut one = Run::new();
    drive(&mut one, Family::Log, Backend::Bitcode, &logs, encode_logs, decode_logs);
    drive(
        &mut one,
        Family::Log,
        Backend::BitcodeRkyv,
        &logs,
        layered_encode_logs,
        layered_decode_logs,
    );

    let mut other = Run::new();
    drive(
        &mut other,
        Family::Log,
        Backend::BitcodeRkyv,
        &logs,
        layered_encode_logs,
        layered_decode_logs,
    );
    drive(&mut other, Family::Log, Backend::Bitcode, &logs, encode_logs, decode_logs);

    assert_eq!(logs, before);
    assert_eq!(one.may_continue(), other.may_continue());
    for backend in [Backend::Bitcode, Backend::BitcodeRkyv] {
        assert!(one.reported(Family::Log, backend).is_some());
        assert_eq!(one.reported(Family::Log, backend), other.reported(Family::Log, backend));
    }
}

#[test]
fn an_unregistered_backend_reports_nothing() {
    let logs: Vec<Log> = generate_dataset(pi(), CountRange::exactly(10).unwrap());
    let mut registry = Registry::new();
    registry.register(Backend::Bitcode);
    let mut run = Run::new();
    for backend in registry.backends() {
        assert_eq!(backend, Backend::Bitcode);
        drive(&mut run, Family::Log, backend, &logs, encode_logs, decode_logs);
    }
    assert!(run.reported(Family::Log, Backend::Bitcode).is_some());
    assert_eq!(run.reported(Family::Log, Backend::BitcodeRkyv), None);
    assert!(run.may_continue());
}
