use pbskids_dl::errors::{http_kind_exit_code, AppError, HttpErrorKind, LinuxExitCodes};

#[test]
fn fixed_errors() {
    let ok = AppError::sucess();
    assert_eq!(ok.error_code, 0);
    assert_eq!(ok.to_string(), "OK");
    let bad = AppError::bad_address();
    assert_eq!(bad.exit_code(), 14);
    assert_eq!(AppError::drm_error().error_code, 29);
}

#[test]
fn exit_code_numbers() {
    let all = [
        (LinuxExitCodes::SUCCESS, 0u8),
        (LinuxExitCodes::EIO, 5),
        (LinuxExitCodes::EFAULT, 14),
        (LinuxExitCodes::EINVAL, 22),
        (LinuxExitCodes::ESPIPE, 29),
        (LinuxExitCodes::EMLINK, 31),
        (LinuxExitCodes::ENOMSG, 42),
        (LinuxExitCodes::EBADE, 52),
        (LinuxExitCodes::ETIME, 62),
        (LinuxExitCodes::ENONET, 64),
        (LinuxExitCodes::UNKNOWN, 255),
    ];
    for (c, n) in all.iter() {
        assert_eq!(c.code(), *n);
    }
}

#[test]
fn http_kinds_map_to_codes() {
    assert_eq!(http_kind_exit_code(HttpErrorKind::TlsEngine), LinuxExitCodes::EBADE);
    assert_eq!(http_kind_exit_code(HttpErrorKind::ClientInitialization), LinuxExitCodes::EINVAL);
    assert_eq!(http_kind_exit_code(HttpErrorKind::NameResolution), LinuxExitCodes::ENONET);
    assert_eq!(http_kind_exit_code(HttpErrorKind::Io), LinuxExitCodes::EIO);
    assert_eq!(http_kind_exit_code(HttpErrorKind::Timeout), LinuxExitCodes::ETIME);
    assert_eq!(http_kind_exit_code(HttpErrorKind::TooManyRedirects), LinuxExitCodes::EMLINK);
    assert_eq!(http_kind_exit_code(HttpErrorKind::ProtocolViolation), LinuxExitCodes::UNKNOWN);
}

#[test]
fn client_error_is_mapped() {
    let e = isahc::Error::from(isahc::error::ErrorKind::Timeout);
    let r = AppError::from_client_error(&e);
    assert_eq!(r.error_code, 62);
    assert_eq!(
        r.to_string(),
        "Failed to access the web site! Error: request or operation took longer than the configured timeout time"
    );
    let e = isahc::Error::from(isahc::error::ErrorKind::ConnectionFailed);
    assert_eq!(AppError::from_client_error(&e).error_code, 64);
    let e = isahc::Error::from(isahc::error::ErrorKind::TooManyRedirects);
    let r = AppError::from_client_error(&e);
    assert_eq!(r.error_code, 31);
    assert_eq!(
        r.to_string(),
        "Failed to access the web site! Error: number of redirects hit the maximum amount"
    );
}

#[test]
fn request_error_is_mapped() {
    let e = isahc::http::Request::builder().uri("not a uri ::").body(()).unwrap_err();
    let r = AppError::from_request_error(&e);
    assert_eq!(r.error_code, 42);
    assert_eq!(r.to_string(), format!("Failed to access the web site! Error: {}", e));
}

#[test]
fn template_error_is_mapped() {
    let e = match indicatif::ProgressStyle::default_bar().template("{bar:x}") {
        Ok(_) => panic!("template accepted"),
        Err(e) => e,
    };
    let r = AppError::from_template_error(&e);
    assert_eq!(r.error_code, 5);
    assert!(r
        .to_string()
        .starts_with("Failed to show the progress bar! Error: TemplateError: unexpected character "));
    assert_eq!(r.to_string(), format!("Failed to show the progress bar! Error: {}", e));
}

#[test]
fn io_error_is_mapped() {
    let e = std::io::Error::from_raw_os_error(2);
    let r = AppError::from_io_error(&e);
    assert_eq!(r.error_code, 2);
    let e = std::io::Error::from_raw_os_error(512);
    assert_eq!(AppError::from_io_error(&e).error_code, 255);
    assert!(r.to_string().starts_with("Failed to open. Error: "));
    let e = std::io::Error::new(std::io::ErrorKind::NotFound, "gone");
    let r = AppError::from_io_error(&e);
    assert_eq!(r.error_code, 255);
    assert_eq!(r.to_string(), "Failed to open. Error: gone");
}

#[test]
fn os_error_number_is_cut_to_a_byte() {
    assert_eq!(AppError::from_os_error(Some(300), "x").error_code, 44);
    assert_eq!(AppError::from_os_error(Some(256), "x").error_code, 255);
    assert_eq!(AppError::from_os_error(Some(0), "x").error_code, 255);
    assert_eq!(AppError::from_os_error(Some(255), "x").error_code, 255);
    assert_eq!(AppError::from_os_error(Some(1), "x").error_code, 1);
    assert_eq!(AppError::from_os_error(Some(13), "x").error_code, 13);
    assert_eq!(AppError::from_os_error(None, "x").error_code, 255);
}

#[test]
fn json_error_is_mapped() {
    let e = serde_json::from_str::<serde_json::Value>("{").unwrap_err();
    let r = AppError::from_json_error(&e);
    assert_eq!(r.error_code, 255);
    assert_eq!(r.to_string(), format!("Failed to parse. Error: {}", e));
    assert_eq!(AppError::from_json_parts(Some(7), "t").error_code, 7);
    assert_eq!(AppError::from_json_parts(Some(0), "t").error_code, 255);
}

#[test]
fn config_not_found_error() {
    let r = AppError::config_not_found();
    assert_eq!(r.error_code, 255);
    assert_eq!(r.to_string(), "Failed to open. Error: Config file not found!");
}
