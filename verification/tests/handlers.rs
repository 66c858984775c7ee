use freelance_market::error::MyError;
use freelance_market::handler::{
    add_client_handler, api_login_handler, create_task_handler, get_task_handler,
    list_deals_handler, update_deal_handler, when_user_added, AppState, Payload, Reply, Served,
};
use freelance_market::model::{ClientModel, DealModel, TaskModel, UserModel};
use freelance_market::schema::{
    CreateClientSchema, CreateTaskSchema, CreateUserSchema, LoginUserSchema,
};
use freelance_market::settings::{look_up, required};
use freelance_market::store::{Collection, Filter, Record, StoreRequest, StoreResponse};
use freelance_market::text::split_commas;
use freelance_market::web::token::{generate_auth_cookie, AuthConfig};

const NOW: u64 = 1_700_000_000;

fn text(s: &str) -> String {
    s.to_string()
}

fn settings() -> Vec<(String, String)> {
    [
        ("DATABASE_URL", "mongodb://localhost:27017"),
        ("MONGO_INIT_DATABASE", "market"),
        ("MONGODB_CLIENTS_COLLECTION", "clients"),
        ("MONGODB_TASKS_COLLECTION", "tasks"),
        ("MONGODB_FREELANCERS_COLLECTION", "freelancers"),
        ("MONGODB_REVIEW_COLLECTION", "reviews"),
        ("MONGODB_PROPOSALS_COLLECTION", "proposals"),
        ("MONGODB_DEALS_COLLECTION", "deals"),
        ("MONGODB_MILESTONES_COLLECTION", "milestones"),
        ("AUTH_SECRET", "secret"),
        ("AUTH_AUDIENCE", "http://localhost:8080,http://localhost:3000"),
    ]
    .iter()
    .map(|(name, value)| (text(name), text(value)))
    .collect()
}

fn state() -> AppState {
    AppState::init(&settings()).unwrap()
}

fn done<T: std::fmt::Debug>(served: Served<T>) -> Reply<T> {
    match served {
        Served::Done(reply) => reply,
        other => panic!("not done: {:?}", other),
    }
}

fn user() -> UserModel {
    UserModel {
        id: text("3"),
        role: text("client"),
        user_name: text("alice"),
        description: Some(text("d")),
        password: text("p"),
    }
}

#[test]
fn the_service_is_set_up_from_the_settings() {
    let state = state();
    assert_eq!(state.db.database, "market");
    assert_eq!(state.auth.secret, "secret");
    assert_eq!(state.auth.audience, vec!["http://localhost:8080", "http://localhost:3000"]);
    // the settings of the store are looked for first
    assert_eq!(
        AppState::init(&vec![]),
        Err(MyError::MongoError(text("DATABASE_URL must be set.")))
    );
    let mut without_secret = settings();
    without_secret.remove(9);
    assert_eq!(
        AppState::init(&without_secret),
        Err(MyError::MongoError(text("AUTH_SECRET must be set.")))
    );
}

#[test]
fn a_setting_is_the_first_of_its_name() {
    let settings = vec![
        (text("A"), text("1")),
        (text("B"), text("2")),
        (text("A"), text("3")),
        (text(""), text("4")),
    ];
    assert_eq!(look_up(&settings, "A"), Some(text("1")));
    assert_eq!(look_up(&settings, "B"), Some(text("2")));
    assert_eq!(look_up(&settings, ""), Some(text("4")));
    assert_eq!(look_up(&settings, "a"), None);
    assert_eq!(look_up(&vec![], "A"), None);
    assert_eq!(required(&settings, "B"), Ok(text("2")));
    assert_eq!(required(&settings, "C"), Err(MyError::MongoError(text("C must be set."))));
}

#[test]
fn a_list_is_cut_at_its_commas() {
    assert_eq!(split_commas("a,b,c"), vec!["a", "b", "c"]);
    assert_eq!(split_commas("abc"), vec!["abc"]);
    assert_eq!(split_commas(""), vec![""]);
    assert_eq!(split_commas(","), vec!["", ""]);
    assert_eq!(split_commas("a,"), vec!["a", ""]);
    assert_eq!(split_commas(",a"), vec!["", "a"]);
    assert_eq!(split_commas("a,,b"), vec!["a", "", "b"]);
    assert_eq!(split_commas("é,ü ö, "), vec!["é", "ü ö", " "]);
}

#[test]
fn writing_is_answered_with_created_and_reading_with_ok() {
    let state = state();
    let body = CreateTaskSchema {
        client_id: text("1"),
        title: text("t"),
        start_time: text("s"),
        deadline: text("e"),
        description: text("d"),
        skills: vec![],
        bounty: 1,
        proposals_id: None,
    };
    let stored = TaskModel {
        id: text("1"),
        client_id: text("1"),
        title: text("t"),
        start_time: text("s"),
        deadline: text("e"),
        description: text("d"),
        skills: vec![],
        bounty: 1,
        proposals_id: None,
    };
    assert_eq!(
        create_task_handler(&state, &body, &vec![]),
        Served::Call(StoreRequest::Reserve { collection: Collection::Tasks, many: 1 })
    );
    let answers = vec![
        StoreResponse::Count(0),
        StoreResponse::IndexCreated,
        StoreResponse::Inserted(text("1")),
        StoreResponse::One(Some(Record::Task(stored.clone()))),
    ];
    let reply = done(create_task_handler(&state, &body, &answers));
    assert_eq!(reply.status, 201);
    assert_eq!(reply.cookie, None);
    assert!(matches!(reply.payload, Payload::Data(shown) if shown.data.task.id == "1"));
    assert_eq!(
        get_task_handler(&state, &text("rust"), &vec![]),
        Served::Call(StoreRequest::Find {
            collection: Collection::Tasks,
            filter: Filter::Skill(text("rust"))
        })
    );
    let found = vec![StoreResponse::Many(vec![Record::Task(stored)])];
    let reply = done(get_task_handler(&state, &text("rust"), &found));
    assert_eq!(reply.status, 200);
    assert!(matches!(reply.payload, Payload::Data(list) if list.results == 1));
    let reply = done(list_deals_handler(&state, &vec![StoreResponse::Many(vec![])]));
    assert_eq!(reply.status, 200);
}

#[test]
fn a_failure_is_answered_with_its_status_and_its_report() {
    let state = state();
    let answers = vec![StoreResponse::One(None)];
    let reply = done(update_deal_handler(&state, &text("9"), &text("0xabc"), &answers));
    assert_eq!(reply.status, 404);
    assert_eq!(reply.cookie, None);
    match reply.payload {
        Payload::Fault(fault) => {
            assert_eq!(fault.status, "Fail");
            assert_eq!(fault.message, "Facet with id: 9 not found");
        }
        other => panic!("unexpected payload: {:?}", other),
    }
    let answers = vec![StoreResponse::Failed(text("connection reset"))];
    let reply = done(update_deal_handler(&state, &text("9"), &text("0xabc"), &answers));
    assert_eq!(reply.status, 500);
    match reply.payload {
        Payload::Fault(fault) => {
            assert_eq!(fault.status, "Error");
            assert_eq!(fault.message, "MongoDB error: connection reset");
        }
        other => panic!("unexpected payload: {:?}", other),
    }
    let stored = DealModel {
        id: text("9"),
        task_id: text("t"),
        proposal_id: text("p"),
        freelancer_id: text("f"),
        client_id: text("c"),
        price: 5,
        status: text("Initialized"),
        address: text("0xabc"),
    };
    let answers = vec![StoreResponse::One(Some(Record::Deal(stored)))];
    let reply = done(update_deal_handler(&state, &text("9"), &text("0xabc"), &answers));
    assert_eq!(reply.status, 201);
    assert!(matches!(reply.payload, Payload::Data(shown) if shown.data.deal.address == "0xabc"));
}

#[test]
fn registering_and_logging_in_open_a_session() {
    let state = state();
    let client = ClientModel { user: user(), tasks_ids: None };
    let body = CreateClientSchema {
        user: CreateUserSchema { user_name: text("alice"), description: None, password: text("p") },
        task_ids: None,
    };
    let answers = vec![
        StoreResponse::Count(2),
        StoreResponse::IndexCreated,
        StoreResponse::Inserted(text("3")),
        StoreResponse::One(Some(Record::Client(client.clone()))),
    ];
    let expected = generate_auth_cookie(text("3"), None, "secret", NOW);
    assert!(expected.is_some());
    let reply = done(add_client_handler(&state, &body, &answers, NOW));
    assert_eq!(reply.status, 201);
    assert_eq!(reply.cookie, expected);
    // no session before the end, nor for a failure
    assert!(matches!(add_client_handler(&state, &body, &answers[..3].to_vec(), NOW), Served::Call(_)));
    let failed = done(add_client_handler(&state, &body, &vec![StoreResponse::Failed(text("x"))], NOW));
    assert_eq!(failed.status, 500);
    assert_eq!(failed.cookie, None);
    let login = LoginUserSchema { role: text("client"), user_name: text("alice"), password: text("p") };
    let found = vec![StoreResponse::One(Some(Record::Client(client)))];
    let reply = done(api_login_handler(&state, &login, &found, NOW));
    assert_eq!(reply.status, 200);
    assert_eq!(reply.cookie, expected);
    let wrong = LoginUserSchema { role: text("client"), user_name: text("alice"), password: text("x") };
    let reply = done(api_login_handler(&state, &wrong, &found, NOW));
    assert_eq!(reply.status, 400);
    assert_eq!(reply.cookie, None);
}

#[test]
fn a_session_that_cannot_be_opened_is_an_error_of_the_service() {
    let auth = AuthConfig { secret: text("secret"), audience: vec![] };
    let reply: Reply<u8> = Reply { status: 201, cookie: None, payload: Payload::Data(7) };
    // the expiry would lie past the largest time
    let served = when_user_added(Served::Done(reply), Some(text("1")), &auth, u64::MAX);
    let failed = done(served);
    assert_eq!(failed.status, 500);
    assert_eq!(failed.cookie, None);
    match failed.payload {
        Payload::Fault(fault) => {
            assert_eq!(fault.status, "Error");
            assert_eq!(fault.message, "Couldn't generate token");
        }
        other => panic!("unexpected payload: {:?}", other),
    }
    // without a user, the answer is as it was
    let reply: Reply<u8> = Reply { status: 404, cookie: None, payload: Payload::Empty };
    let served = when_user_added(Served::Done(reply), None, &auth, NOW);
    assert_eq!(done(served), Reply { status: 404, cookie: None, payload: Payload::Empty });
    let call = StoreRequest::CountDocuments { collection: Collection::Deals };
    let served = when_user_added(Served::<u8>::Call(call), Some(text("1")), &auth, NOW);
    assert!(matches!(served, Served::Call(_)));
}
