use apca::endpoint::Exchange;
use apca::endpoint::complete_issue;
use apca::endpoint::convert_result;
use apca::mock::Flag;
use apca::mock::FlagError;
use apca::mock::GetFlag;
use apca::mock::GetNotFound;
use apca::mock::GetNotFoundError;
use apca::mock::encode_flag;

#[test]
fn unexpected_status_code_return() {
    let err = convert_result::<GetNotFound>(404, &Vec::new()).unwrap_err();
    match err {
        GetNotFoundError::UnexpectedStatus(status) => {
            assert_eq!(status, 404);
        },
        _ => panic!("Received unexpected error: {:?}", err),
    };
}

#[test]
fn success_body_decodes() {
    let up = convert_result::<GetFlag>(200, &vec![b'1']);
    assert_eq!(up, Ok(Flag { up: true }));
    let down = convert_result::<GetFlag>(204, &vec![b'0']);
    assert_eq!(down, Ok(Flag { up: false }));
}

#[test]
fn invalid_body_is_a_decode_error() {
    let r = convert_result::<GetFlag>(200, &vec![b'x', b'y', b'z']);
    assert_eq!(r, Err(FlagError::MalformedBody));
    let empty = convert_result::<GetFlag>(200, &Vec::new());
    assert_eq!(empty, Err(FlagError::MalformedBody));
}

#[test]
fn recognized_status_gives_documented_error() {
    let r = convert_result::<GetFlag>(400, &Vec::new());
    assert_eq!(r, Err(FlagError::BadRequest));
}

#[test]
fn unrecognized_status_carries_raw_code() {
    let r = convert_result::<GetFlag>(418, &vec![b'1']);
    assert_eq!(r, Err(FlagError::UnexpectedStatus(418)));
}

#[test]
fn encode_then_convert_round_trips() {
    for up in [true, false] {
        let flag = Flag { up };
        let body = encode_flag(&flag);
        assert_eq!(convert_result::<GetFlag>(200, &body), Ok(flag));
    }
}

#[test]
fn conversion_is_total_over_statuses_and_bodies() {
    let bodies: Vec<Vec<u8>> = vec![
        Vec::new(),
        vec![b'1'],
        vec![b'0'],
        vec![b'2'],
        vec![0xff, 0x00],
        vec![b'1', b'1'],
    ];
    for status in 0u16..600 {
        for body in &bodies {
            // Every pair must land in exactly one arm of the closed result
            // set; in particular the call must not panic.
            match convert_result::<GetFlag>(status, body) {
                Ok(flag) => {
                    assert!((200..300).contains(&status));
                    assert_eq!(body, &encode_flag(&flag));
                },
                Err(FlagError::MalformedBody) => {
                    assert!((200..300).contains(&status) || status == 400);
                },
                Err(FlagError::BadRequest) => assert_eq!(status, 400),
                Err(FlagError::UnexpectedStatus(code)) => {
                    assert_eq!(code, status);
                    assert!(!(200..300).contains(&status) && status != 400);
                },
                Err(FlagError::TransportFailed) => {
                    panic!("conversion saw no transport");
                },
            }
        }
    }
}

#[test]
fn conversion_is_deterministic() {
    let body = vec![b'1'];
    assert_eq!(
        convert_result::<GetFlag>(200, &body),
        convert_result::<GetFlag>(200, &body),
    );
    assert_eq!(
        convert_result::<GetNotFound>(503, &Vec::new()),
        convert_result::<GetNotFound>(503, &Vec::new()),
    );
}

#[test]
fn transport_failure_maps_into_error_domain() {
    let r = complete_issue::<GetFlag>(Exchange::TransportFailure(
        "connection refused".to_string(),
    ));
    assert_eq!(r, Err(FlagError::TransportFailed));
}

#[test]
fn received_response_converts_as_usual() {
    let r = complete_issue::<GetFlag>(Exchange::Response(200, vec![b'1']));
    assert_eq!(r, Ok(Flag { up: true }));
    let e = complete_issue::<GetNotFound>(Exchange::Response(404, Vec::new()));
    assert_eq!(e, Err(GetNotFoundError::UnexpectedStatus(404)));
}
