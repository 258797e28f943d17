use std::sync::Arc;

use arrow::array::{Int32Array, RecordBatch, StringArray};
use arrow::datatypes::{DataType, Field, Schema};
use arrow_flight::error::FlightError;
use dremio_rs::error::{
    DecodeCause, DremioClientError, RejectionCause, StreamFailure, TransportCause,
};
use dremio_rs::query::{QueryDescriptor, ResultEndpoint, Ticket};
use dremio_rs::session::Client;
use dremio_rs::stream::{Batch, Frame, Progress};
use tokio::runtime::{Builder, Runtime};
use tonic::transport::Endpoint;

fn runtime() -> Runtime {
    Builder::new_current_thread().build().unwrap()
}

/// A session over a channel that never dials.
fn session(runtime: &Runtime) -> Client {
    let _context = runtime.enter();
    let channel = Endpoint::from_static("http://localhost:32010").connect_lazy();
    let handle = Client::connected(Ok(channel)).unwrap();
    Client::new(handle, Ok(())).unwrap()
}

fn numbers(values: Vec<i32>) -> RecordBatch {
    let schema = Arc::new(Schema::new(vec![Field::new("n", DataType::Int32, false)]));
    RecordBatch::try_new(schema, vec![Arc::new(Int32Array::from(values))]).unwrap()
}

fn names(values: Vec<&str>) -> RecordBatch {
    let schema = Arc::new(Schema::new(vec![Field::new("name", DataType::Utf8, false)]));
    RecordBatch::try_new(schema, vec![Arc::new(StringArray::from(values))]).unwrap()
}

fn delivered(batch: &RecordBatch) -> Frame {
    Some(Ok(Batch { data: batch.clone() }))
}

fn failed(error: FlightError) -> Frame {
    Some(Err(StreamFailure::of(error)))
}

/// Feeds a retrieval the frames one by one, as a driver of the stream would,
/// and stops where the retrieval ends.
fn fetch(
    client: &Client,
    frames: Vec<Frame>,
) -> Option<Result<Vec<RecordBatch>, DremioClientError>> {
    let ((), mut collected) = client.opened(Ok(())).unwrap();
    for frame in frames {
        match client.get_record_batches(collected, frame) {
            Progress::Pull(next) => collected = next,
            Progress::Complete(all) => {
                return Some(Ok(all.into_batches().into_iter().map(|b| b.data).collect()))
            }
            Progress::Abort(e) => return Some(Err(e)),
        }
    }
    None
}

fn endpoint(ticket: Option<&[u8]>) -> ResultEndpoint {
    ResultEndpoint {
        locations: vec!["grpc://localhost:32010".to_string()],
        ticket: ticket.map(|bytes| Ticket { bytes: bytes.to_vec() }),
    }
}

#[test]
fn submission_resolves_to_the_first_ticket() {
    let runtime = runtime();
    let client = session(&runtime);
    let descriptor = QueryDescriptor { endpoints: vec![endpoint(Some(b"first"))] };
    assert_eq!(client.submitted(Ok(descriptor)).unwrap(), Ticket { bytes: b"first".to_vec() });
}

#[test]
fn endpoints_after_the_first_are_never_consulted() {
    let runtime = runtime();
    let client = session(&runtime);
    let descriptor = QueryDescriptor {
        endpoints: vec![endpoint(Some(b"a")), endpoint(Some(b"b")), endpoint(None)],
    };
    assert_eq!(client.submitted(Ok(descriptor)).unwrap().bytes, b"a".to_vec());
    let descriptor = QueryDescriptor { endpoints: vec![endpoint(Some(b"")), endpoint(Some(b"b"))] };
    assert_eq!(descriptor.first_ticket().unwrap().bytes, Vec::<u8>::new());
}

#[test]
fn answer_without_endpoints_is_a_rejection() {
    let runtime = runtime();
    let client = session(&runtime);
    let descriptor = QueryDescriptor { endpoints: vec![] };
    assert!(matches!(
        client.submitted(Ok(descriptor)),
        Err(DremioClientError::RemoteRejection(RejectionCause::NoEndpoint))
    ));
}

#[test]
fn first_endpoint_without_ticket_is_a_rejection() {
    let runtime = runtime();
    let client = session(&runtime);
    let descriptor = QueryDescriptor { endpoints: vec![endpoint(None), endpoint(Some(b"late"))] };
    assert!(matches!(
        client.submitted(Ok(descriptor)),
        Err(DremioClientError::RemoteRejection(RejectionCause::MissingTicket))
    ));
}

#[test]
fn refused_statement_is_a_rejection_with_its_cause() {
    let runtime = runtime();
    let client = session(&runtime);
    let refusal = FlightError::Tonic(Box::new(tonic::Status::invalid_argument("syntax error")));
    match client.submitted(Err(refusal)) {
        Err(DremioClientError::RemoteRejection(RejectionCause::Flight(FlightError::Tonic(s)))) => {
            assert_eq!(s.message(), "syntax error")
        }
        _ => panic!("a refused statement must give a RemoteRejection"),
    }
}

#[test]
fn stream_that_cannot_be_opened_is_a_transport_failure() {
    let runtime = runtime();
    let client = session(&runtime);
    let cause = FlightError::ProtocolError("no such ticket".to_string());
    let answer: Result<(), FlightError> = Err(cause);
    match client.opened(answer) {
        Err(DremioClientError::Transport(TransportCause::Flight(e))) => {
            assert_eq!(e.to_string(), "Protocol error: no such ticket")
        }
        _ => panic!("a stream that cannot be opened must give a Transport failure"),
    }
}

#[test]
fn opened_stream_starts_with_nothing_collected() {
    let runtime = runtime();
    let client = session(&runtime);
    let (stream, retrieval) = client.opened(Ok("stream")).unwrap();
    assert_eq!(stream, "stream");
    assert_eq!(retrieval.len(), 0);
}

#[test]
fn clean_stream_gives_its_batches_in_order() {
    let runtime = runtime();
    let client = session(&runtime);
    let sent = vec![numbers(vec![1, 2, 3]), numbers(vec![]), numbers(vec![4]), numbers(vec![5, 6])];
    let mut frames: Vec<Frame> = sent.iter().map(delivered).collect();
    frames.push(None);
    let got = fetch(&client, frames).unwrap().unwrap();
    assert_eq!(got, sent);
    let rows: Vec<i32> = got
        .iter()
        .flat_map(|b| {
            let column = b.column(0).as_any().downcast_ref::<Int32Array>().unwrap();
            column.values().to_vec()
        })
        .collect();
    assert_eq!(rows, vec![1, 2, 3, 4, 5, 6]);
}

#[test]
fn each_frame_is_appended_at_the_end() {
    let runtime = runtime();
    let client = session(&runtime);
    let ((), retrieval) = client.opened(Ok(())).unwrap();
    let retrieval = match client.get_record_batches(retrieval, delivered(&numbers(vec![7]))) {
        Progress::Pull(next) => next,
        _ => panic!("a first batch must be taken"),
    };
    assert_eq!(retrieval.len(), 1);
    let retrieval = match client.get_record_batches(retrieval, delivered(&numbers(vec![8, 9]))) {
        Progress::Pull(next) => next,
        _ => panic!("a batch of the same schema must be taken"),
    };
    assert_eq!(retrieval.len(), 2);
    let all = match client.get_record_batches(retrieval, None) {
        Progress::Complete(all) => all,
        _ => panic!("the end of the stream must complete the retrieval"),
    };
    assert_eq!(all.len(), 2);
    assert_eq!(all.get(0).data, numbers(vec![7]));
    assert_eq!(all.get(1).data, numbers(vec![8, 9]));
}

#[test]
fn frames_at_hand_are_collected_as_a_stream_is() {
    let runtime = runtime();
    let client = session(&runtime);
    let sent = vec![numbers(vec![1]), numbers(vec![2, 3])];
    let clean = || {
        let mut frames: Vec<Frame> = sent.iter().map(delivered).collect();
        frames.push(None);
        frames
    };
    let all = client.drain(clean()).unwrap().unwrap();
    let all: Vec<RecordBatch> = all.into_batches().into_iter().map(|b| b.data).collect();
    assert_eq!(all, sent);
    assert_eq!(all, fetch(&client, clean()).unwrap().unwrap());
    assert!(client.drain(vec![delivered(&numbers(vec![1]))]).is_none());
    assert!(client.drain(vec![]).is_none());
    let broken = vec![
        delivered(&numbers(vec![1])),
        failed(FlightError::DecodeError("cut".to_string())),
        None,
    ];
    assert!(matches!(
        client.drain(broken),
        Some(Err(DremioClientError::Decode(DecodeCause::Flight(FlightError::DecodeError(_)))))
    ));
    let drifting = vec![delivered(&numbers(vec![1])), delivered(&names(vec!["x"])), None];
    assert!(matches!(
        client.drain(drifting),
        Some(Err(DremioClientError::Decode(DecodeCause::SchemaDrift { position: 1 })))
    ));
}

#[test]
fn retrieval_tells_which_batch_may_follow() {
    let runtime = runtime();
    let client = session(&runtime);
    let ((), retrieval) = client.opened(Ok(())).unwrap();
    let first = Batch { data: names(vec!["a"]) };
    assert!(retrieval.fits(&first));
    assert!(retrieval.fits(&Batch { data: numbers(vec![1]) }));
    let retrieval = retrieval.append(first);
    assert_eq!(retrieval.len(), 1);
    let second = Batch { data: names(vec!["b", "c"]) };
    assert!(retrieval.fits(&second));
    assert!(!retrieval.fits(&Batch { data: numbers(vec![1]) }));
    let all = retrieval.append(second).complete();
    assert_eq!(all.len(), 2);
    assert_eq!(all.get(0).data, names(vec!["a"]));
    assert_eq!(all.get(1).data, names(vec!["b", "c"]));
}

#[test]
fn stream_without_end_has_no_outcome_yet() {
    let runtime = runtime();
    let client = session(&runtime);
    let frames = vec![delivered(&numbers(vec![1])), delivered(&numbers(vec![2]))];
    assert!(fetch(&client, frames).is_none());
}

#[test]
fn empty_stream_gives_an_empty_result() {
    let runtime = runtime();
    let client = session(&runtime);
    let got = fetch(&client, vec![None]).unwrap().unwrap();
    assert!(got.is_empty());
}

#[test]
fn batches_of_a_result_share_one_schema() {
    let runtime = runtime();
    let client = session(&runtime);
    let sent = vec![names(vec!["a"]), names(vec!["b", "c"]), names(vec![])];
    let mut frames: Vec<Frame> = sent.iter().map(delivered).collect();
    frames.push(None);
    let got = fetch(&client, frames).unwrap().unwrap();
    for one in &got {
        for other in &got {
            assert_eq!(one.schema(), other.schema());
        }
    }
}

#[test]
fn batch_of_another_schema_aborts_with_its_position() {
    let runtime = runtime();
    let client = session(&runtime);
    let frames = vec![
        delivered(&numbers(vec![1])),
        delivered(&numbers(vec![2])),
        delivered(&names(vec!["three"])),
        delivered(&numbers(vec![4])),
        None,
    ];
    match fetch(&client, frames) {
        Some(Err(DremioClientError::Decode(DecodeCause::SchemaDrift { position }))) => {
            assert_eq!(position, 2)
        }
        _ => panic!("a batch of another schema must abort the retrieval"),
    }
}

#[test]
fn same_columns_with_another_nullability_are_another_schema() {
    let runtime = runtime();
    let client = session(&runtime);
    let schema = Arc::new(Schema::new(vec![Field::new("n", DataType::Int32, true)]));
    let nullable =
        RecordBatch::try_new(schema, vec![Arc::new(Int32Array::from(vec![1]))]).unwrap();
    let frames = vec![delivered(&numbers(vec![1])), delivered(&nullable), None];
    assert!(matches!(
        fetch(&client, frames),
        Some(Err(DremioClientError::Decode(DecodeCause::SchemaDrift { position: 1 })))
    ));
}

#[test]
fn failure_after_some_batches_discards_them() {
    let runtime = runtime();
    let client = session(&runtime);
    let frames = vec![
        delivered(&numbers(vec![1])),
        delivered(&numbers(vec![2])),
        failed(FlightError::DecodeError("batch 3 of 10".to_string())),
        delivered(&numbers(vec![4])),
        None,
    ];
    match fetch(&client, frames) {
        Some(Err(DremioClientError::Decode(DecodeCause::Flight(FlightError::DecodeError(m))))) => {
            assert_eq!(m, "batch 3 of 10")
        }
        _ => panic!("a failing frame must fail the retrieval as a whole"),
    }
}

#[test]
fn failing_frame_after_batches_of_two_schemas_gives_no_result() {
    let runtime = runtime();
    let client = session(&runtime);
    let frames = vec![
        delivered(&numbers(vec![1])),
        delivered(&names(vec!["two"])),
        failed(FlightError::Tonic(Box::new(tonic::Status::unavailable("reset")))),
        None,
    ];
    assert!(matches!(
        fetch(&client, frames),
        Some(Err(DremioClientError::Decode(DecodeCause::SchemaDrift { position: 1 })))
    ));
}

#[test]
fn batches_of_two_schemas_fail_whatever_follows() {
    let runtime = runtime();
    let client = session(&runtime);
    let mixed = || vec![delivered(&names(vec!["a"])), delivered(&numbers(vec![1]))];
    let mut ended = mixed();
    ended.push(None);
    let mut unended = mixed();
    unended.push(delivered(&names(vec!["b"])));
    for frames in vec![mixed(), ended, unended] {
        assert!(matches!(
            client.drain(frames),
            Some(Err(DremioClientError::Decode(DecodeCause::SchemaDrift { position: 1 })))
        ));
    }
}

#[test]
fn network_failure_in_a_stream_is_a_transport_failure() {
    let runtime = runtime();
    let client = session(&runtime);
    let frames = vec![
        delivered(&numbers(vec![1])),
        failed(FlightError::Tonic(Box::new(tonic::Status::unavailable("reset")))),
    ];
    match fetch(&client, frames) {
        Some(Err(DremioClientError::Transport(TransportCause::Flight(FlightError::Tonic(s))))) => {
            assert_eq!(s.code(), tonic::Code::Unavailable)
        }
        _ => panic!("a network failure must give a Transport failure"),
    }
}

#[test]
fn failure_on_the_first_frame_fails_the_retrieval() {
    let runtime = runtime();
    let client = session(&runtime);
    let frames = vec![failed(FlightError::ProtocolError("no schema".to_string())), None];
    assert!(matches!(
        fetch(&client, frames),
        Some(Err(DremioClientError::Decode(DecodeCause::Flight(FlightError::ProtocolError(_)))))
    ));
}

#[test]
fn frames_after_the_end_are_not_consumed() {
    let runtime = runtime();
    let client = session(&runtime);
    let frames = vec![
        delivered(&numbers(vec![1])),
        None,
        delivered(&numbers(vec![2])),
        failed(FlightError::DecodeError("late".to_string())),
    ];
    assert_eq!(fetch(&client, frames).unwrap().unwrap(), vec![numbers(vec![1])]);
}

#[test]
fn two_retrievals_on_one_session_do_not_touch_each_other() {
    let runtime = runtime();
    let client = session(&runtime);
    let sent = vec![numbers(vec![1, 2]), numbers(vec![3])];
    let frames = || {
        let mut frames: Vec<Frame> = sent.iter().map(delivered).collect();
        frames.push(None);
        frames
    };
    let first = fetch(&client, frames()).unwrap().unwrap();
    let second = fetch(&client, frames()).unwrap().unwrap();
    assert_eq!(first, sent);
    assert_eq!(second, first);
    let broken = vec![failed(FlightError::DecodeError("once".to_string()))];
    assert!(fetch(&client, broken).unwrap().is_err());
    assert_eq!(fetch(&client, frames()).unwrap().unwrap(), sent);
}
