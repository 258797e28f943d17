use arrow::error::ArrowError;
use arrow_flight::error::FlightError;
use dremio_rs::error::{
    DecodeCause, DremioClientError, FlightFault, StreamFailure, TransportCause,
};

fn fault_of(error: FlightError) -> FlightFault {
    StreamFailure::of(error).fault()
}

#[test]
fn fault_is_read_off_the_variant_of_the_error() {
    let arrow = FlightError::Arrow(ArrowError::ParseError("x".to_string()));
    assert_eq!(fault_of(arrow), FlightFault::Arrow);
    let unfinished = FlightError::NotYetImplemented("x".to_string());
    assert_eq!(fault_of(unfinished), FlightFault::NotYetImplemented);
    let status = FlightError::Tonic(Box::new(tonic::Status::unavailable("x")));
    assert_eq!(fault_of(status), FlightFault::Tonic);
    assert_eq!(fault_of(FlightError::ProtocolError("x".to_string())), FlightFault::Protocol);
    assert_eq!(fault_of(FlightError::DecodeError("x".to_string())), FlightFault::Decode);
    let outside = FlightError::ExternalError(Box::new(std::fmt::Error));
    assert_eq!(fault_of(outside), FlightFault::External);
}

#[test]
fn failed_frame_keeps_its_error() {
    let failure = StreamFailure::of(FlightError::ProtocolError("two schemas".to_string()));
    match failure.error() {
        FlightError::ProtocolError(m) => assert_eq!(m, "two schemas"),
        _ => panic!("the error of a failed frame must be the one it was made of"),
    }
}

#[test]
fn faults_of_the_network_are_told_from_faults_of_the_data() {
    assert!(FlightFault::Tonic.is_transport());
    assert!(FlightFault::External.is_transport());
    assert!(!FlightFault::Arrow.is_transport());
    assert!(!FlightFault::NotYetImplemented.is_transport());
    assert!(!FlightFault::Protocol.is_transport());
    assert!(!FlightFault::Decode.is_transport());
}

#[test]
fn decode_fault_of_a_frame_is_a_decode_failure() {
    let failure = StreamFailure::of(FlightError::DecodeError("bad header".to_string()));
    match failure.into_error() {
        DremioClientError::Decode(DecodeCause::Flight(FlightError::DecodeError(m))) => {
            assert_eq!(m, "bad header")
        }
        _ => panic!("a decode fault must give a Decode failure"),
    }
}

#[test]
fn status_of_a_frame_is_a_transport_failure() {
    let status = FlightError::Tonic(Box::new(tonic::Status::unavailable("gone")));
    match StreamFailure::of(status).into_error() {
        DremioClientError::Transport(TransportCause::Flight(FlightError::Tonic(s))) => {
            assert_eq!(s.message(), "gone")
        }
        _ => panic!("a status of the remote call must give a Transport failure"),
    }
}

#[test]
fn verdict_goes_by_the_variant_of_the_error() {
    let network = vec![
        FlightError::Tonic(Box::new(tonic::Status::aborted("x"))),
        FlightError::ExternalError(Box::new(std::fmt::Error)),
    ];
    for error in network {
        assert!(matches!(
            StreamFailure::of(error).into_error(),
            DremioClientError::Transport(TransportCause::Flight(_))
        ));
    }
    let data = vec![
        FlightError::Arrow(ArrowError::ParseError("x".to_string())),
        FlightError::NotYetImplemented("x".to_string()),
        FlightError::ProtocolError("x".to_string()),
        FlightError::DecodeError("x".to_string()),
    ];
    for error in data {
        assert!(matches!(
            StreamFailure::of(error).into_error(),
            DremioClientError::Decode(DecodeCause::Flight(_))
        ));
    }
}
