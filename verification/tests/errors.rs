use freelance_market::error::{ErrorResponse, MyError};

fn text(s: &str) -> String {
    s.to_string()
}

fn reported(error: MyError) -> (u16, &'static str, String) {
    let (status, body) = error.into_response();
    (status, body.status, body.message)
}

#[test]
fn a_repeated_key_is_a_conflict() {
    let error = MyError::MongoDuplicateError(text("E11000 duplicate key error collection: x"));
    assert_eq!(error.status(), 409);
    assert_eq!(error.label(), "Fail");
    assert_eq!(error.message(), "resource already exists");
    assert_eq!(reported(error), (409, "Fail", text("resource already exists")));
}

#[test]
fn what_is_not_there_is_not_found() {
    assert_eq!(
        reported(MyError::NotFoundError(text("12"))),
        (404, "Fail", text("Facet with id: 12 not found"))
    );
    assert_eq!(
        reported(MyError::NotFoundError(text(""))),
        (404, "Fail", text("Facet with id:  not found"))
    );
}

#[test]
fn a_fault_of_the_request_is_a_bad_request() {
    assert_eq!(reported(MyError::InvalidPasswordError), (400, "Fail", text("invalid password")));
    assert_eq!(reported(MyError::InvalidRoleError), (400, "Fail", text("invalid role")));
    assert_eq!(reported(MyError::InvalidIDError(text("x1"))), (400, "Fail", text("invalid id: x1")));
}

#[test]
fn a_fault_of_the_store_is_an_error_of_the_service() {
    assert_eq!(
        reported(MyError::MongoError(text("down"))),
        (500, "Error", text("MongoDB error: down"))
    );
    assert_eq!(
        reported(MyError::MongoErrorKind(text("io"))),
        (500, "Error", text("MongoDB error kind: io"))
    );
    assert_eq!(
        reported(MyError::MongoQueryError(text("timeout"))),
        (500, "Error", text("MongoDB error: timeout"))
    );
    assert_eq!(
        reported(MyError::MongoSerializeBsonError(text("too large"))),
        (500, "Error", text("MongoDB error: too large"))
    );
    assert_eq!(
        reported(MyError::MongoDataError(text("description"))),
        (500, "Error", text("MongoDB error: description"))
    );
}

#[test]
fn an_error_is_copied_as_it_is() {
    let error = MyError::NotFoundError(text("3"));
    assert_eq!(error.clone(), error);
    assert_ne!(error, MyError::NotFoundError(text("4")));
    assert_eq!(MyError::InvalidRoleError.clone(), MyError::InvalidRoleError);
    let body = ErrorResponse { status: "Fail", message: text("m") };
    assert_eq!(body, ErrorResponse { status: "Fail", message: text("m") });
}
