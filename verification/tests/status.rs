use hyper::StatusCode;
use local_compute::{AppError, ComputeResponse, GenericStatusCode};

#[test]
fn from_u16_names_the_known_codes() {
    assert_eq!(GenericStatusCode::from_u16(200), GenericStatusCode::Success);
    assert_eq!(GenericStatusCode::from_u16(400), GenericStatusCode::BadRequest);
    assert_eq!(GenericStatusCode::from_u16(404), GenericStatusCode::NotFound);
    assert_eq!(GenericStatusCode::from_u16(409), GenericStatusCode::Conflict);
    assert_eq!(GenericStatusCode::from_u16(412), GenericStatusCode::PreconditionFailed);
    assert_eq!(GenericStatusCode::from_u16(500), GenericStatusCode::InternalError);
    assert_eq!(GenericStatusCode::from_u16(0), GenericStatusCode::Unknown);
}

#[test]
fn from_u16_keeps_every_other_code() {
    assert_eq!(GenericStatusCode::from_u16(302), GenericStatusCode::Other(302));
    assert_eq!(GenericStatusCode::from_u16(1), GenericStatusCode::Other(1));
    assert_eq!(GenericStatusCode::from_u16(u16::MAX), GenericStatusCode::Other(u16::MAX));
}

#[test]
fn to_u16_gives_each_class_its_code() {
    assert_eq!(GenericStatusCode::Success.to_u16(), 200);
    assert_eq!(GenericStatusCode::NotFound.to_u16(), 404);
    assert_eq!(GenericStatusCode::Conflict.to_u16(), 409);
    assert_eq!(GenericStatusCode::PreconditionFailed.to_u16(), 412);
    assert_eq!(GenericStatusCode::BadRequest.to_u16(), 400);
    assert_eq!(GenericStatusCode::InternalError.to_u16(), 500);
    assert_eq!(GenericStatusCode::Other(799).to_u16(), 799);
    assert_eq!(GenericStatusCode::Unknown.to_u16(), 0);
}

#[test]
fn every_code_round_trips() {
    for code in 0..=u16::MAX {
        assert_eq!(GenericStatusCode::from_u16(code).to_u16(), code);
    }
}

#[test]
fn a_class_that_is_not_canonical_reads_back_as_its_named_class() {
    let odd = GenericStatusCode::Other(200);
    assert_eq!(GenericStatusCode::from_u16(odd.to_u16()), GenericStatusCode::Success);
}

#[test]
fn from_trait_agrees_with_from_u16() {
    let status: GenericStatusCode = 412u16.into();
    assert_eq!(status, GenericStatusCode::PreconditionFailed);
}

#[test]
fn to_status_code_gives_the_http_code_of_the_class() {
    assert_eq!(GenericStatusCode::Success.to_status_code(), StatusCode::OK);
    assert_eq!(GenericStatusCode::NotFound.to_status_code(), StatusCode::NOT_FOUND);
    assert_eq!(GenericStatusCode::BadRequest.to_status_code(), StatusCode::BAD_REQUEST);
    assert_eq!(
        GenericStatusCode::InternalError.to_status_code(),
        StatusCode::INTERNAL_SERVER_ERROR
    );
    assert_eq!(GenericStatusCode::Conflict.to_status_code(), StatusCode::CONFLICT);
    assert_eq!(
        GenericStatusCode::PreconditionFailed.to_status_code(),
        StatusCode::PRECONDITION_FAILED
    );
    assert_eq!(GenericStatusCode::Other(204).to_status_code(), StatusCode::NO_CONTENT);
}

#[test]
fn to_status_code_falls_back_to_the_teapot() {
    assert_eq!(GenericStatusCode::Unknown.to_status_code(), StatusCode::IM_A_TEAPOT);
    assert_eq!(GenericStatusCode::Other(99).to_status_code(), StatusCode::IM_A_TEAPOT);
    assert_eq!(GenericStatusCode::Other(1000).to_status_code(), StatusCode::IM_A_TEAPOT);
    assert_eq!(GenericStatusCode::Other(100).to_status_code().as_u16(), 100);
    assert_eq!(GenericStatusCode::Other(999).to_status_code().as_u16(), 999);
}

#[test]
fn from_status_code_names_six_classes() {
    assert_eq!(GenericStatusCode::from_status_code(StatusCode::OK), GenericStatusCode::Success);
    assert_eq!(
        GenericStatusCode::from_status_code(StatusCode::NOT_FOUND),
        GenericStatusCode::NotFound
    );
    assert_eq!(
        GenericStatusCode::from_status_code(StatusCode::BAD_REQUEST),
        GenericStatusCode::BadRequest
    );
    assert_eq!(
        GenericStatusCode::from_status_code(StatusCode::INTERNAL_SERVER_ERROR),
        GenericStatusCode::InternalError
    );
    assert_eq!(
        GenericStatusCode::from_status_code(StatusCode::CONFLICT),
        GenericStatusCode::Conflict
    );
    assert_eq!(
        GenericStatusCode::from_status_code(StatusCode::PRECONDITION_FAILED),
        GenericStatusCode::PreconditionFailed
    );
    assert_eq!(GenericStatusCode::from(StatusCode::CREATED), GenericStatusCode::Other(201));
}

#[test]
fn a_response_round_trips_through_its_code_and_content() {
    let sent = ComputeResponse::json(
        GenericStatusCode::Conflict,
        serde_json::Value::from("taken"),
    );
    let code = sent.status().to_u16();
    let data = sent.data();
    assert_eq!(code, 409);
    let read = match data {
        Some(data) => ComputeResponse::json(GenericStatusCode::from_u16(code), data),
        None => ComputeResponse::status_only(GenericStatusCode::from_u16(code)),
    };
    assert_eq!(read.status(), GenericStatusCode::Conflict);
    assert_eq!(read.data(), Some(serde_json::Value::from("taken")));

    let empty = ComputeResponse::ok();
    assert_eq!(GenericStatusCode::from_u16(empty.status().to_u16()), GenericStatusCode::Success);
    assert_eq!(empty.data(), None);
}

#[test]
fn a_response_keeps_its_status_through_http() {
    let sent = ComputeResponse::status_only(GenericStatusCode::NotFound);
    assert_eq!(sent.http_status(), StatusCode::NOT_FOUND);
    assert_eq!(GenericStatusCode::from(sent.http_status()), GenericStatusCode::NotFound);
}

#[test]
fn every_error_has_one_status_class() {
    assert_eq!(
        AppError::other("boom").as_generic_status_code(),
        GenericStatusCode::InternalError
    );
    assert_eq!(AppError::Unspecified.as_generic_status_code(), GenericStatusCode::InternalError);
    let status: GenericStatusCode = AppError::other("boom").into();
    assert_eq!(status, GenericStatusCode::InternalError);
}

#[test]
fn every_named_class_survives_http() {
    for class in [
        GenericStatusCode::Success,
        GenericStatusCode::NotFound,
        GenericStatusCode::BadRequest,
        GenericStatusCode::InternalError,
        GenericStatusCode::Conflict,
        GenericStatusCode::PreconditionFailed,
    ] {
        assert_eq!(GenericStatusCode::from(class.to_status_code()), class);
    }
    assert_eq!(
        GenericStatusCode::from(GenericStatusCode::Other(302).to_status_code()),
        GenericStatusCode::Other(302)
    );
}

#[test]
fn a_class_without_an_http_number_comes_back_as_the_teapot() {
    assert_eq!(
        GenericStatusCode::from(GenericStatusCode::Unknown.to_status_code()),
        GenericStatusCode::Other(418)
    );
    assert_eq!(
        GenericStatusCode::from(GenericStatusCode::Other(7).to_status_code()),
        GenericStatusCode::Other(418)
    );
}
