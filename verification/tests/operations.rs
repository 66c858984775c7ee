use freelance_market::db::DB;
use freelance_market::steps::next_id;
use freelance_market::error::MyError;
use freelance_market::model::{
    ClientModel, DealModel, FreelancerModel, MilestoneModel, ProposalModel, TaskModel, UserModel,
};
use freelance_market::schema::{
    CreateClientSchema, CreateMilestoneSchema, CreateProposalSchema, CreateReviewSchema,
    CreateTaskSchema, CreateUserSchema, LoginUserSchema,
};
use freelance_market::store::{
    Collection, Filter, Record, Step, StoreRequest, StoreResponse, Update,
};

fn text(s: &str) -> String {
    s.to_string()
}

fn settings() -> Vec<(String, String)> {
    vec![
        (text("DATABASE_URL"), text("mongodb://localhost:27017")),
        (text("MONGO_INIT_DATABASE"), text("market")),
        (text("MONGODB_CLIENTS_COLLECTION"), text("clients")),
        (text("MONGODB_TASKS_COLLECTION"), text("tasks")),
        (text("MONGODB_FREELANCERS_COLLECTION"), text("freelancers")),
        (text("MONGODB_REVIEW_COLLECTION"), text("reviews")),
        (text("MONGODB_PROPOSALS_COLLECTION"), text("proposals")),
        (text("MONGODB_DEALS_COLLECTION"), text("deals")),
        (text("MONGODB_MILESTONES_COLLECTION"), text("milestones")),
    ]
}

fn db() -> DB {
    DB::init(&settings()).unwrap()
}

fn task() -> CreateTaskSchema {
    CreateTaskSchema {
        client_id: text("1"),
        title: text("t1"),
        start_time: text("2025-01-01"),
        deadline: text("2025-02-01"),
        description: text("about"),
        skills: vec![text("rust")],
        bounty: 100,
        proposals_id: None,
    }
}

fn stored_task(id: &str) -> TaskModel {
    TaskModel {
        id: text(id),
        client_id: text("1"),
        title: text("t1"),
        start_time: text("2025-01-01"),
        deadline: text("2025-02-01"),
        description: text("about"),
        skills: vec![text("rust")],
        bounty: 100,
        proposals_id: None,
    }
}

fn stored_user(name: &str, password: &str) -> UserModel {
    UserModel {
        id: text("1"),
        role: text("client"),
        user_name: text(name),
        description: Some(text("d")),
        password: text(password),
    }
}

fn stored_proposal(accepted: bool, price: u64) -> ProposalModel {
    ProposalModel {
        id: text("1"),
        client_id: text("c"),
        task_id: text("t"),
        freelancer_id: text("f"),
        milestones_id: None,
        proposal_price: price,
        accepted,
    }
}

fn milestone(proposal: &str, price: u64) -> CreateMilestoneSchema {
    CreateMilestoneSchema {
        proposal_id: text(proposal),
        description: text("m"),
        deadline: text("d"),
        price,
    }
}

fn failed<T: std::fmt::Debug>(step: Step<T>) -> MyError {
    match step {
        Step::Done(Err(error)) => error,
        other => panic!("no error: {:?}", other),
    }
}

fn call<T: std::fmt::Debug>(step: Step<T>) -> StoreRequest {
    match step {
        Step::Call(request) => request,
        other => panic!("no call: {:?}", other),
    }
}

fn done<T: std::fmt::Debug>(step: Step<T>) -> T {
    match step {
        Step::Done(Ok(value)) => value,
        other => panic!("not done: {:?}", other),
    }
}

const DUPLICATE: &str = "E11000 duplicate key error collection: market.tasks index: title_1";

#[test]
fn the_next_identifier_is_one_more_than_the_count() {
    assert_eq!(next_id(0), Ok(text("1")));
    assert_eq!(next_id(9), Ok(text("10")));
    assert_eq!(next_id(u64::MAX - 1), Ok(text("18446744073709551615")));
    assert_eq!(next_id(u64::MAX), Err(MyError::InvalidIDError(text("18446744073709551615"))));
}

#[test]
fn the_configuration_names_the_collections() {
    let db = db();
    assert_eq!(db.uri, "mongodb://localhost:27017");
    assert_eq!(db.database, "market");
    assert_eq!(db.clients_collection, "clients");
    assert_eq!(db.tasks_collection, "tasks");
    assert_eq!(db.freelancers_collection, "freelancers");
    assert_eq!(db.review_collection, "reviews");
    assert_eq!(db.proposals_collection, "proposals");
    assert_eq!(db.deals_collection, "deals");
    assert_eq!(db.milestones_collection, "milestones");
    assert_eq!(db.review_key, vec![text("deal_id")]);
    let mut with_key = settings();
    with_key.push((text("MONGODB_REVIEW_UNIQUE_KEY"), text("deal_id,client_id")));
    assert_eq!(DB::init(&with_key).unwrap().review_key, vec![text("deal_id"), text("client_id")]);
    // of two settings of one name, the first counts
    let mut twice = settings();
    twice.push((text("DATABASE_URL"), text("elsewhere")));
    assert_eq!(DB::init(&twice).unwrap().uri, "mongodb://localhost:27017");
}

#[test]
fn the_first_missing_setting_is_reported() {
    assert_eq!(DB::init(&vec![]), Err(MyError::MongoError(text("DATABASE_URL must be set."))));
    let mut some = settings();
    some.remove(7);
    some.remove(3);
    assert_eq!(
        DB::init(&some),
        Err(MyError::MongoError(text("MONGODB_TASKS_COLLECTION must be set.")))
    );
    let mut some = settings();
    some.remove(8);
    assert_eq!(
        DB::init(&some),
        Err(MyError::MongoError(text("MONGODB_MILESTONES_COLLECTION must be set.")))
    );
}

#[test]
fn a_task_is_posted_in_four_calls() {
    let db = db();
    let mut answers = vec![];
    assert_eq!(
        call(db.create_task(&task(), &answers)),
        StoreRequest::Reserve { collection: Collection::Tasks, many: 1 }
    );
    answers.push(StoreResponse::Count(41));
    assert_eq!(
        call(db.create_task(&task(), &answers)),
        StoreRequest::CreateIndex { collection: Collection::Tasks, keys: vec![text("title")] }
    );
    answers.push(StoreResponse::IndexCreated);
    match call(db.create_task(&task(), &answers)) {
        StoreRequest::InsertOne { collection, document } => {
            assert_eq!(collection, Collection::Tasks);
            assert_eq!(document.get_str("_id"), Ok("42"));
            assert_eq!(document.get_str("title"), Ok("t1"));
        }
        other => panic!("unexpected call: {:?}", other),
    }
    answers.push(StoreResponse::Inserted(text("42")));
    assert_eq!(
        call(db.create_task(&task(), &answers)),
        StoreRequest::FindOne { collection: Collection::Tasks, filter: Filter::Id(text("42")) }
    );
    answers.push(StoreResponse::One(Some(Record::Task(stored_task("42")))));
    let shown = done(db.create_task(&task(), &answers));
    assert_eq!(shown.status, "Success");
    assert_eq!(shown.data.task.id, "42");
    assert_eq!(shown.data.task.title, "t1");
    // answers after the end are not looked at
    answers.push(StoreResponse::Failed(text("late")));
    assert_eq!(done(db.create_task(&task(), &answers)).data.task.id, "42");
}

#[test]
fn a_failed_call_ends_the_posting_of_a_task() {
    let db = db();
    let body = task();
    let failure = || StoreResponse::Failed(text("connection reset"));
    let query = MyError::MongoQueryError(text("connection reset"));
    assert_eq!(failed(db.create_task(&body, &vec![failure()])), query);
    let mut answers = vec![StoreResponse::Count(0), failure()];
    assert_eq!(failed(db.create_task(&body, &answers)), query);
    answers[1] = StoreResponse::IndexCreated;
    answers.push(failure());
    assert_eq!(failed(db.create_task(&body, &answers)), query);
    answers[2] = StoreResponse::Failed(text(DUPLICATE));
    assert_eq!(
        failed(db.create_task(&body, &answers)),
        MyError::MongoDuplicateError(text(DUPLICATE))
    );
    answers[2] = StoreResponse::Inserted(text("1"));
    answers.push(failure());
    assert_eq!(failed(db.create_task(&body, &answers)), query);
    answers[3] = StoreResponse::One(None);
    assert_eq!(failed(db.create_task(&body, &answers)), MyError::NotFoundError(text("1")));
    // an answer of another kind than was asked for
    let unexpected = MyError::MongoError(text("unexpected answer from the store"));
    assert_eq!(failed(db.create_task(&body, &vec![StoreResponse::IndexCreated])), unexpected);
    answers[3] = StoreResponse::One(Some(Record::Deal(DealModel {
        id: text("1"),
        task_id: text(""),
        proposal_id: text(""),
        freelancer_id: text(""),
        client_id: text(""),
        price: 0,
        status: text(""),
        address: text(""),
    })));
    assert_eq!(failed(db.create_task(&body, &answers)), unexpected);
    // no identifier past the largest
    assert_eq!(
        failed(db.create_task(&body, &vec![StoreResponse::Count(u64::MAX)])),
        MyError::InvalidIDError(text("18446744073709551615"))
    );
}

#[test]
fn a_client_is_registered_under_the_next_identifier() {
    let db = db();
    let body = CreateClientSchema {
        user: CreateUserSchema { user_name: text("alice"), description: None, password: text("p") },
        task_ids: None,
    };
    let mut answers = vec![StoreResponse::Count(2)];
    assert_eq!(
        call(db.add_client(&body, &answers)),
        StoreRequest::CreateIndex {
            collection: Collection::Clients,
            keys: vec![text("user_name")]
        }
    );
    answers.push(StoreResponse::IndexCreated);
    match call(db.add_client(&body, &answers)) {
        StoreRequest::InsertOne { collection, document } => {
            assert_eq!(collection, Collection::Clients);
            assert_eq!(document.get_str("_id"), Ok("3"));
            assert_eq!(document.get_str("role"), Ok("client"));
            assert_eq!(document.get_str("description"), Ok(""));
            assert_eq!(document.get_array("tasks_ids"), Ok(&vec![]));
        }
        other => panic!("unexpected call: {:?}", other),
    }
    answers.push(StoreResponse::Inserted(text("3")));
    answers.push(StoreResponse::One(Some(Record::Client(ClientModel {
        user: stored_user("alice", "p"),
        tasks_ids: None,
    }))));
    let shown = done(db.add_client(&body, &answers));
    assert_eq!(shown.data.client.user.user_name, "alice");
    // a stored user without a description cannot be shown
    let mut nameless = stored_user("alice", "p");
    nameless.description = None;
    answers[3] = StoreResponse::One(Some(Record::Client(ClientModel {
        user: nameless,
        tasks_ids: None,
    })));
    assert_eq!(
        failed(db.add_client(&body, &answers)),
        MyError::MongoDataError(text("description"))
    );
}

#[test]
fn a_proposal_is_stored_without_an_index() {
    let db = db();
    let body = CreateProposalSchema {
        client_id: text("1"),
        task_id: text("1"),
        freelancer_id: text("2"),
    };
    let mut answers = vec![StoreResponse::Count(0)];
    match call(db.submit_proposal(&body, &answers)) {
        StoreRequest::InsertOne { collection, document } => {
            assert_eq!(collection, Collection::Proposals);
            assert_eq!(document.get_str("_id"), Ok("1"));
        }
        other => panic!("unexpected call: {:?}", other),
    }
    answers.push(StoreResponse::Inserted(text("1")));
    assert_eq!(
        call(db.submit_proposal(&body, &answers)),
        StoreRequest::FindOne { collection: Collection::Proposals, filter: Filter::Id(text("1")) }
    );
}

#[test]
fn reviews_are_kept_apart_by_the_configured_key() {
    let mut db = db();
    let body = CreateReviewSchema {
        freelancer_id: text("2"),
        client_id: text("1"),
        deal_id: text("1"),
        review: text("fine"),
        stars: 9,
    };
    let answers = vec![StoreResponse::Count(0)];
    assert_eq!(
        call(db.add_review(&body, &answers)),
        StoreRequest::CreateIndex { collection: Collection::Reviews, keys: vec![text("deal_id")] }
    );
    db.review_key = vec![text("deal_id"), text("client_id")];
    assert_eq!(
        call(db.add_review(&body, &answers)),
        StoreRequest::CreateIndex {
            collection: Collection::Reviews,
            keys: vec![text("deal_id"), text("client_id")]
        }
    );
    // without a key, reviews are stored without an index
    db.review_key = vec![];
    match call(db.add_review(&body, &answers)) {
        StoreRequest::InsertOne { collection, document } => {
            assert_eq!(collection, Collection::Reviews);
            assert_eq!(document.get_i64("stars"), Ok(5));
        }
        other => panic!("unexpected call: {:?}", other),
    }
}

#[test]
fn login_looks_in_the_collection_of_the_role() {
    let db = db();
    let login = |role: &str, password: &str| LoginUserSchema {
        role: text(role),
        user_name: text("alice"),
        password: text(password),
    };
    assert_eq!(
        call(db.api_login(&login("client", "p"), &vec![])),
        StoreRequest::FindOne {
            collection: Collection::Clients,
            filter: Filter::UserName(text("alice"))
        }
    );
    assert_eq!(
        call(db.api_login(&login("freelancer", "p"), &vec![])),
        StoreRequest::FindOne {
            collection: Collection::Freelancers,
            filter: Filter::UserName(text("alice"))
        }
    );
    assert_eq!(failed(db.api_login(&login("admin", "p"), &vec![])), MyError::InvalidRoleError);
    assert_eq!(failed(db.api_login(&login("Client", "p"), &vec![])), MyError::InvalidRoleError);
    assert_eq!(failed(db.api_login(&login("", "p"), &vec![])), MyError::InvalidRoleError);
    let found = vec![StoreResponse::One(Some(Record::Client(ClientModel {
        user: stored_user("alice", "p"),
        tasks_ids: None,
    })))];
    let shown = done(db.api_login(&login("client", "p"), &found));
    assert_eq!(shown.status, "Success");
    assert_eq!(shown.data.user.user_name, "alice");
    assert_eq!(failed(db.api_login(&login("client", "q"), &found)), MyError::InvalidPasswordError);
    assert_eq!(failed(db.api_login(&login("client", ""), &found)), MyError::InvalidPasswordError);
    assert_eq!(failed(db.api_login(&login("client", "pp"), &found)), MyError::InvalidPasswordError);
    assert_eq!(
        failed(db.api_login(&login("client", "p"), &vec![StoreResponse::One(None)])),
        MyError::NotFoundError(text("alice"))
    );
    // a freelancer is no answer to a search among the clients
    let other = vec![StoreResponse::One(Some(Record::Freelancer(FreelancerModel {
        user: stored_user("alice", "p"),
        skills: None,
    })))];
    assert_eq!(
        failed(db.api_login(&login("client", "p"), &other)),
        MyError::MongoError(text("unexpected answer from the store"))
    );
    assert!(matches!(db.api_login(&login("freelancer", "p"), &other), Step::Done(Ok(_))));
}

fn stored_milestone(id: &str, price: u64) -> Record {
    Record::Milestone(MilestoneModel {
        id: text(id),
        proposal_id: text("1"),
        description: text("m"),
        deadline: text("d"),
        price,
        link: text(""),
        status: text("Initialized"),
    })
}

fn found_proposal() -> StoreResponse {
    StoreResponse::One(Some(Record::Proposal(stored_proposal(false, 0))))
}

#[test]
fn milestones_are_attached_in_five_calls() {
    let db = db();
    let batch = vec![milestone("1", 40), milestone("1", 60)];
    let mut answers = vec![];
    assert_eq!(
        call(db.add_milestones(&batch, &answers)),
        StoreRequest::FindOne { collection: Collection::Proposals, filter: Filter::Id(text("1")) }
    );
    answers.push(found_proposal());
    assert_eq!(
        call(db.add_milestones(&batch, &answers)),
        StoreRequest::Find {
            collection: Collection::Milestones,
            filter: Filter::Proposal(text("1"))
        }
    );
    answers.push(StoreResponse::Many(vec![]));
    assert_eq!(
        call(db.add_milestones(&batch, &answers)),
        StoreRequest::Reserve { collection: Collection::Milestones, many: 2 }
    );
    answers.push(StoreResponse::Count(3));
    match call(db.add_milestones(&batch, &answers)) {
        StoreRequest::InsertMany { collection, documents } => {
            assert_eq!(collection, Collection::Milestones);
            assert_eq!(documents.len(), 2);
            assert_eq!(documents[0].get_str("_id"), Ok("4"));
            assert_eq!(documents[1].get_str("_id"), Ok("5"));
            assert_eq!(documents[0].get_str("proposal_id"), Ok("1"));
            assert_eq!(documents[1].get_i64("price"), Ok(60));
        }
        other => panic!("unexpected call: {:?}", other),
    }
    answers.push(StoreResponse::InsertedMany(vec![text("4"), text("5")]));
    assert_eq!(
        call(db.add_milestones(&batch, &answers)),
        StoreRequest::FindOneAndUpdate {
            collection: Collection::Proposals,
            filter: Filter::Id(text("1")),
            update: Update::Milestones { ids: vec![text("4"), text("5")], price: 100 },
        }
    );
    let mut funded = stored_proposal(false, 100);
    funded.milestones_id = Some(vec![text("4"), text("5")]);
    answers.push(StoreResponse::One(Some(Record::Proposal(funded))));
    let shown = done(db.add_milestones(&batch, &answers));
    assert_eq!(shown.status, "Success");
    assert_eq!(shown.data.proposal.id, "1");
    assert_eq!(shown.data.proposal.proposal_price, 100);
    assert_eq!(shown.data.proposal.milestones_id, vec![text("4"), text("5")]);
    answers[4] = StoreResponse::One(None);
    assert_eq!(failed(db.add_milestones(&batch, &answers)), MyError::NotFoundError(text("1")));
    answers[3] = StoreResponse::Failed(text("E11000 duplicate key error collection: market.milestones"));
    assert_eq!(
        failed(db.add_milestones(&batch, &answers)),
        MyError::MongoDuplicateError(text("E11000 duplicate key error collection: market.milestones"))
    );
}

#[test]
fn milestones_are_stored_only_for_a_proposal_that_is_there() {
    let db = db();
    let batch = vec![milestone("1", 40)];
    assert_eq!(
        failed(db.add_milestones(&batch, &vec![StoreResponse::One(None)])),
        MyError::NotFoundError(text("1"))
    );
    // whatever else the store might go on to say
    assert_eq!(
        failed(db.add_milestones(
            &batch,
            &vec![StoreResponse::One(None), StoreResponse::Many(vec![]), StoreResponse::Count(0)]
        )),
        MyError::NotFoundError(text("1"))
    );
    assert_eq!(
        failed(db.add_milestones(&batch, &vec![StoreResponse::Failed(text("down"))])),
        MyError::MongoQueryError(text("down"))
    );
    assert_eq!(
        failed(db.add_milestones(&batch, &vec![StoreResponse::One(Some(stored_milestone("1", 40)))])),
        MyError::MongoError(text("unexpected answer from the store"))
    );
    assert_eq!(
        failed(db.add_milestones(&batch, &vec![found_proposal(), StoreResponse::Failed(text("down"))])),
        MyError::MongoQueryError(text("down"))
    );
}

#[test]
fn the_same_batch_once_more_is_shown_and_not_stored_again() {
    let db = db();
    let batch = vec![milestone("1", 40), milestone("1", 60)];
    let mut funded = stored_proposal(true, 100);
    funded.milestones_id = Some(vec![text("4"), text("5")]);
    let listed = StoreResponse::Many(vec![stored_milestone("4", 40), stored_milestone("5", 60)]);
    let answers = vec![StoreResponse::One(Some(Record::Proposal(funded))), listed.clone()];
    let shown = done(db.add_milestones(&batch, &answers));
    assert_eq!(shown.data.proposal.proposal_price, 100);
    assert_eq!(shown.data.proposal.milestones_id, vec![text("4"), text("5")]);
    assert!(shown.data.proposal.accepted);
    // a milestone that was handed in meanwhile is still the same milestone
    let mut handed_in = MilestoneModel {
        id: text("5"),
        proposal_id: text("1"),
        description: text("m"),
        deadline: text("d"),
        price: 60,
        link: text("l"),
        status: text("Submitted"),
    };
    let mut funded = stored_proposal(false, 100);
    funded.milestones_id = Some(vec![text("4"), text("5")]);
    let answers = vec![
        StoreResponse::One(Some(Record::Proposal(funded))),
        StoreResponse::Many(vec![stored_milestone("4", 40), Record::Milestone(handed_in.clone())]),
    ];
    assert_eq!(done(db.add_milestones(&batch, &answers)).data.proposal.proposal_price, 100);
    // stored, but not attached yet: the proposal is given them, and nothing is stored
    let answers = vec![found_proposal(), listed.clone()];
    assert_eq!(
        call(db.add_milestones(&batch, &answers)),
        StoreRequest::FindOneAndUpdate {
            collection: Collection::Proposals,
            filter: Filter::Id(text("1")),
            update: Update::Milestones { ids: vec![text("4"), text("5")], price: 100 },
        }
    );
    // other milestones than those of the batch: attached once is attached for good
    handed_in.price = 61;
    for stored in [
        vec![stored_milestone("4", 41)],
        vec![stored_milestone("4", 60), stored_milestone("5", 40)],
        vec![stored_milestone("4", 40), Record::Milestone(handed_in)],
        vec![stored_milestone("4", 40), stored_milestone("5", 60), stored_milestone("6", 1)],
    ] {
        let answers = vec![found_proposal(), StoreResponse::Many(stored)];
        let refused = failed(db.add_milestones(&batch, &answers));
        assert_eq!(refused, MyError::MongoDuplicateError(text("1")));
        assert_eq!(refused.status(), 409);
    }
}

#[test]
fn a_batch_that_was_cut_short_is_made_good() {
    let db = db();
    let batch = vec![milestone("1", 40), milestone("1", 60), milestone("1", 5)];
    // the first milestone is stored already, the others are not
    let mut answers = vec![found_proposal(), StoreResponse::Many(vec![stored_milestone("4", 40)])];
    assert_eq!(
        call(db.add_milestones(&batch, &answers)),
        StoreRequest::Reserve { collection: Collection::Milestones, many: 2 }
    );
    answers.push(StoreResponse::Count(7));
    match call(db.add_milestones(&batch, &answers)) {
        StoreRequest::InsertMany { collection, documents } => {
            assert_eq!(collection, Collection::Milestones);
            assert_eq!(documents.len(), 2);
            assert_eq!(documents[0].get_str("_id"), Ok("8"));
            assert_eq!(documents[0].get_i64("price"), Ok(60));
            assert_eq!(documents[1].get_str("_id"), Ok("9"));
            assert_eq!(documents[1].get_i64("price"), Ok(5));
        }
        other => panic!("unexpected call: {:?}", other),
    }
    answers.push(StoreResponse::InsertedMany(vec![text("8"), text("9")]));
    assert_eq!(
        call(db.add_milestones(&batch, &answers)),
        StoreRequest::FindOneAndUpdate {
            collection: Collection::Proposals,
            filter: Filter::Id(text("1")),
            update: Update::Milestones { ids: vec![text("4"), text("8"), text("9")], price: 105 },
        }
    );
    let mut funded = stored_proposal(false, 105);
    funded.milestones_id = Some(vec![text("4"), text("8"), text("9")]);
    answers.push(StoreResponse::One(Some(Record::Proposal(funded))));
    let shown = done(db.add_milestones(&batch, &answers));
    assert_eq!(shown.data.proposal.proposal_price, 105);
    assert_eq!(shown.data.proposal.milestones_id, vec![text("4"), text("8"), text("9")]);
}

#[test]
fn a_batch_must_be_for_one_proposal() {
    let db = db();
    let batch = vec![milestone("1", 40), milestone("1", 60), milestone("2", 1), milestone("3", 1)];
    assert_eq!(failed(db.add_milestones(&batch, &vec![])), MyError::InvalidIDError(text("2")));
    let batch = vec![milestone("1", 40), milestone("", 60)];
    assert_eq!(failed(db.add_milestones(&batch, &vec![])), MyError::InvalidIDError(text("")));
}

#[test]
fn a_batch_that_cannot_be_stored_is_refused_before_any_write() {
    let db = db();
    let most = i64::MAX as u64;
    let too_large = MyError::MongoSerializeBsonError(text("unsigned integer out of range"));
    let counted = vec![found_proposal(), StoreResponse::Many(vec![]), StoreResponse::Count(0)];
    // a price that no document can hold
    let batch = vec![milestone("1", most + 1)];
    assert_eq!(failed(db.add_milestones(&batch, &counted)), too_large);
    // prices whose sum no document can hold
    let batch = vec![milestone("1", most), milestone("1", 1)];
    assert_eq!(failed(db.add_milestones(&batch, &counted)), too_large);
    let batch = vec![milestone("1", most - 1), milestone("1", 1)];
    assert!(matches!(db.add_milestones(&batch, &counted), Step::Call(_)));
    // identifiers past the largest
    let batch = vec![milestone("1", 1), milestone("1", 1)];
    let counted =
        vec![found_proposal(), StoreResponse::Many(vec![]), StoreResponse::Count(u64::MAX - 1)];
    assert_eq!(
        failed(db.add_milestones(&batch, &counted)),
        MyError::InvalidIDError(text("18446744073709551614"))
    );
}

#[test]
fn an_empty_batch_is_refused_before_anything_is_asked_of_the_store() {
    let db = db();
    let refused = failed(db.add_milestones(&vec![], &vec![]));
    assert_eq!(refused, MyError::InvalidIDError(text("")));
    assert_eq!(refused.status(), 400);
    assert_eq!(
        failed(db.add_milestones(&vec![], &vec![found_proposal(), StoreResponse::Many(vec![])])),
        MyError::InvalidIDError(text(""))
    );
}

#[test]
fn a_proposal_is_accepted_only_if_it_is_pending() {
    let db = db();
    let id = text("1");
    let mut answers = vec![];
    assert_eq!(
        call(db.approve_proposal(&id, &answers)),
        StoreRequest::FindOneAndUpdate {
            collection: Collection::Proposals,
            filter: Filter::Pending(text("1")),
            update: Update::Accept,
        }
    );
    answers.push(StoreResponse::One(Some(Record::Proposal(stored_proposal(true, 250)))));
    assert_eq!(
        call(db.approve_proposal(&id, &answers)),
        StoreRequest::Reserve { collection: Collection::Deals, many: 1 }
    );
    answers.push(StoreResponse::Count(6));
    match call(db.approve_proposal(&id, &answers)) {
        StoreRequest::InsertOne { collection, document } => {
            assert_eq!(collection, Collection::Deals);
            assert_eq!(document.get_str("_id"), Ok("7"));
            assert_eq!(document.get_str("proposal_id"), Ok("1"));
            assert_eq!(document.get_i64("price"), Ok(250));
            assert_eq!(document.get_str("status"), Ok("Initialized"));
            assert_eq!(document.get_str("address"), Ok("0x0"));
        }
        other => panic!("unexpected call: {:?}", other),
    }
    answers.push(StoreResponse::Inserted(text("7")));
    assert_eq!(
        call(db.approve_proposal(&id, &answers)),
        StoreRequest::FindOne { collection: Collection::Deals, filter: Filter::Id(text("7")) }
    );
    answers.push(StoreResponse::One(Some(Record::Deal(DealModel {
        id: text("7"),
        task_id: text("t"),
        proposal_id: text("1"),
        freelancer_id: text("f"),
        client_id: text("c"),
        price: 250,
        status: text("Initialized"),
        address: text("0x0"),
    }))));
    let shown = done(db.approve_proposal(&id, &answers));
    assert!(shown.data.proposal.accepted);
    assert_eq!(shown.data.deal.id, "7");
    assert_eq!(shown.data.deal.price, 250);
}

#[test]
fn a_proposal_that_was_not_marked_is_missing_or_accepted_before() {
    let db = db();
    let id = text("1");
    let mut answers = vec![StoreResponse::One(None)];
    assert_eq!(
        call(db.approve_proposal(&id, &answers)),
        StoreRequest::FindOne { collection: Collection::Proposals, filter: Filter::Id(text("1")) }
    );
    answers.push(StoreResponse::One(None));
    assert_eq!(failed(db.approve_proposal(&id, &answers)), MyError::NotFoundError(text("1")));
    answers[1] = StoreResponse::One(Some(Record::Proposal(stored_proposal(true, 0))));
    assert_eq!(failed(db.approve_proposal(&id, &answers)), MyError::MongoDuplicateError(text("1")));
    answers[1] = StoreResponse::Failed(text("down"));
    assert_eq!(failed(db.approve_proposal(&id, &answers)), MyError::MongoQueryError(text("down")));
}

#[test]
fn a_deal_is_stored_under_the_next_identifier() {
    let db = db();
    let deal = freelance_market::response::PartialDealResponse {
        task_id: text("t"),
        proposal_id: text("p"),
        freelancer_id: text("f"),
        client_id: text("c"),
        price: u64::MAX,
        status: text("Initialized"),
        address: text("0x0"),
    };
    assert_eq!(
        call(db.add_deal(&deal, &vec![])),
        StoreRequest::Reserve { collection: Collection::Deals, many: 1 }
    );
    assert_eq!(
        failed(db.add_deal(&deal, &vec![StoreResponse::Count(0)])),
        MyError::MongoSerializeBsonError(text("unsigned integer out of range"))
    );
}

#[test]
fn changes_are_made_in_one_call() {
    let db = db();
    assert_eq!(
        call(db.update_deal(&text("1"), &text("0xabc"), &vec![])),
        StoreRequest::FindOneAndUpdate {
            collection: Collection::Deals,
            filter: Filter::Id(text("1")),
            update: Update::Address(text("0xabc")),
        }
    );
    assert_eq!(
        failed(db.update_deal(&text("1"), &text("0xabc"), &vec![StoreResponse::One(None)])),
        MyError::NotFoundError(text("1"))
    );
    assert_eq!(
        call(db.submit_milestone(&text("1"), &text("2"), &text("l"), &vec![])),
        StoreRequest::FindOneAndUpdate {
            collection: Collection::Milestones,
            filter: Filter::Milestone { proposal_id: text("1"), milestone_id: text("2") },
            update: Update::Link(text("l")),
        }
    );
    // where the proposal has no such milestone, the proposal is reported
    assert_eq!(
        failed(db.submit_milestone(
            &text("1"),
            &text("2"),
            &text("l"),
            &vec![StoreResponse::One(None)]
        )),
        MyError::NotFoundError(text("1"))
    );
    let found = vec![StoreResponse::One(Some(Record::Milestone(MilestoneModel {
        id: text("2"),
        proposal_id: text("1"),
        description: text("m"),
        deadline: text("d"),
        price: 1,
        link: text("l"),
        status: text("Submitted"),
    })))];
    let shown = done(db.submit_milestone(&text("1"), &text("2"), &text("l"), &found));
    assert_eq!(shown.data.milestone.link, "l");
    assert_eq!(
        call(db.submit_milestones(&text("1"), &text("2"), &text("l"), &vec![])),
        StoreRequest::FindOneAndUpdate {
            collection: Collection::Deals,
            filter: Filter::Id(text("1")),
            update: Update::Delivery { milestone_id: text("2"), link: text("l") },
        }
    );
}

#[test]
fn lists_are_read_in_one_call() {
    let db = db();
    assert_eq!(
        call(db.fetch_tasks(&vec![])),
        StoreRequest::Find { collection: Collection::Tasks, filter: Filter::All }
    );
    assert_eq!(
        call(db.fetch_clients(&vec![])),
        StoreRequest::Find { collection: Collection::Clients, filter: Filter::All }
    );
    assert_eq!(
        call(db.fetch_freelancers(&vec![])),
        StoreRequest::Find { collection: Collection::Freelancers, filter: Filter::All }
    );
    assert_eq!(
        call(db.fetch_proposals(&vec![])),
        StoreRequest::Find { collection: Collection::Proposals, filter: Filter::All }
    );
    assert_eq!(
        call(db.fetch_milestones(&vec![])),
        StoreRequest::Find { collection: Collection::Milestones, filter: Filter::All }
    );
    assert_eq!(
        call(db.fetch_deals(&vec![])),
        StoreRequest::Find { collection: Collection::Deals, filter: Filter::All }
    );
    assert_eq!(
        call(db.get_task("rust", &vec![])),
        StoreRequest::Find { collection: Collection::Tasks, filter: Filter::Skill(text("rust")) }
    );
    let found = vec![StoreResponse::Many(vec![
        Record::Task(stored_task("1")),
        Record::Task(stored_task("2")),
    ])];
    let shown = done(db.fetch_tasks(&found));
    assert_eq!(shown.status, "Success");
    assert_eq!(shown.results, 2);
    assert_eq!(shown.tasks[1].id, "2");
    let none = done(db.fetch_tasks(&vec![StoreResponse::Many(vec![])]));
    assert_eq!(none.results, 0);
    // the first record that cannot be shown ends the listing
    let mut nameless = stored_user("bob", "q");
    nameless.description = None;
    let mixed = vec![StoreResponse::Many(vec![
        Record::Client(ClientModel { user: stored_user("alice", "p"), tasks_ids: None }),
        Record::Client(ClientModel { user: nameless, tasks_ids: None }),
        Record::Task(stored_task("1")),
    ])];
    assert_eq!(failed(db.fetch_clients(&mixed)), MyError::MongoDataError(text("description")));
    assert_eq!(
        failed(db.fetch_clients(&found)),
        MyError::MongoError(text("unexpected answer from the store"))
    );
    assert_eq!(
        failed(db.fetch_clients(&vec![StoreResponse::Failed(text("down"))])),
        MyError::MongoQueryError(text("down"))
    );
}

#[test]
fn a_proposal_is_shown_with_its_milestones_in_two_calls() {
    let db = db();
    let mut answers = vec![];
    assert_eq!(
        call(db.get_proposal("1", &answers)),
        StoreRequest::FindOne { collection: Collection::Proposals, filter: Filter::Id(text("1")) }
    );
    answers.push(StoreResponse::One(Some(Record::Proposal(stored_proposal(false, 40)))));
    assert_eq!(
        call(db.get_proposal("1", &answers)),
        StoreRequest::Find {
            collection: Collection::Milestones,
            filter: Filter::Proposal(text("1"))
        }
    );
    answers.push(StoreResponse::Many(vec![Record::Milestone(MilestoneModel {
        id: text("2"),
        proposal_id: text("1"),
        description: text("m"),
        deadline: text("d"),
        price: 40,
        link: text(""),
        status: text("Initialized"),
    })]));
    let shown = done(db.get_proposal("1", &answers));
    assert_eq!(shown.data.detailed_proposal.id, "1");
    assert_eq!(shown.data.detailed_proposal.proposal_price, 40);
    assert_eq!(shown.data.detailed_proposal.milestones.len(), 1);
    assert_eq!(shown.data.detailed_proposal.milestones[0].id, "2");
    // the milestones are asked for even where there is no such proposal
    answers[0] = StoreResponse::One(None);
    assert_eq!(failed(db.get_proposal("1", &answers)), MyError::NotFoundError(text("1")));
    assert!(matches!(
        db.get_proposal("1", &vec![StoreResponse::One(None)]),
        Step::Call(StoreRequest::Find { .. })
    ));
}
