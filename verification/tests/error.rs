use control_plane::error::render_with_detail;
use control_plane::error::ServerError;

fn not_found_error() -> std::io::Error {
    std::io::Error::new(std::io::ErrorKind::NotFound, "missing file")
}

/// Obtains a real transport failure from the HTTP engine: a request over a
/// connection that cannot be established (nothing listens on the port).
fn transport_failure() -> hyper::Error {
    let rt = tokio::runtime::Builder::new_current_thread()
        .enable_all()
        .build()
        .unwrap();
    rt.block_on(async {
        let client = hyper::Client::new();
        let uri: hyper::Uri = "http://127.0.0.1:1/".parse().unwrap();
        client.get(uri).await.unwrap_err()
    })
}

#[test]
fn io_failure_lifts_to_io_variant() {
    let e = ServerError::from(not_found_error());
    assert!(e.is_io());
    assert!(!e.is_transport());
    match e {
        ServerError::IoError(inner) => {
            assert_eq!(inner.kind(), std::io::ErrorKind::NotFound);
            assert_eq!(inner.to_string(), "missing file");
        }
        ServerError::TransportError(_) => panic!("wrong variant"),
    }
}

#[test]
fn io_round_trip_keeps_not_found() {
    let e = ServerError::from(not_found_error());
    let text = e.render();
    assert!(text.starts_with("IoError("));
    assert!(text.ends_with(")"));
    assert!(text.contains("NotFound"));
    assert!(text.contains("missing file"));
}

#[test]
fn transport_failure_lifts_to_transport_variant() {
    let e = ServerError::from(transport_failure());
    assert!(e.is_transport());
    assert!(!e.is_io());
    assert!(matches!(e, ServerError::TransportError(_)));
}

#[test]
fn transport_round_trip_keeps_detail() {
    let e = ServerError::from(transport_failure());
    let text = e.render();
    assert!(text.starts_with("TransportError("));
    assert!(text.ends_with(")"));
    assert!(text.contains("hyper::Error"));
    assert!(text.contains("Connect"));
}

fn failing_sub_operation() -> control_plane::error::Result<u32> {
    Err(ServerError::from(not_found_error()))
}

fn composed_operation() -> control_plane::error::Result<u32> {
    let payload = failing_sub_operation()?;
    Ok(payload + 1)
}

#[test]
fn propagation_is_transparent() {
    let outcome = composed_operation();
    match outcome {
        Err(ServerError::IoError(inner)) => {
            assert_eq!(inner.kind(), std::io::ErrorKind::NotFound);
            assert_eq!(inner.to_string(), "missing file");
        }
        _ => panic!("the first sub-operation's failure was not propagated unchanged"),
    }
}

#[test]
fn conversion_is_total_over_io_kinds() {
    let kinds = vec![
        std::io::ErrorKind::NotFound,
        std::io::ErrorKind::PermissionDenied,
        std::io::ErrorKind::ConnectionRefused,
        std::io::ErrorKind::UnexpectedEof,
    ];
    for kind in kinds {
        let e = ServerError::from(std::io::Error::new(kind, "failure"));
        match e {
            ServerError::IoError(inner) => assert_eq!(inner.kind(), kind),
            ServerError::TransportError(_) => panic!("wrong variant"),
        }
    }
}

#[test]
fn rendering_formats_tag_and_detail_exactly() {
    assert_eq!(render_with_detail(true, "Kind(NotFound)"), "IoError(Kind(NotFound))");
    assert_eq!(render_with_detail(false, "hyper::Error(Connect)"), "TransportError(hyper::Error(Connect))");
}

#[test]
fn rendering_keeps_an_empty_detail() {
    assert_eq!(render_with_detail(true, ""), "IoError()");
    assert_eq!(render_with_detail(false, ""), "TransportError()");
}
