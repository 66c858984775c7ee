use freelance_market::db::DB;
use freelance_market::handler::{AppState, Body, Payload, Reply, Request};
use freelance_market::memory::MemoryStore;
use freelance_market::schema::{
    CreateClientSchema, CreateFreelancerSchema, CreateMilestoneSchema, CreateProposalSchema,
    CreateTaskSchema, CreateUserSchema, LoginUserSchema,
};
use freelance_market::store::Record;
use freelance_market::web::token::{generate_token, AuthConfig};

const NOW: u64 = 1_700_000_000;

fn text(s: &str) -> String {
    s.to_string()
}

fn state() -> AppState {
    let settings = vec![
        (text("DATABASE_URL"), text("mongodb://localhost:27017")),
        (text("MONGO_INIT_DATABASE"), text("market")),
        (text("MONGODB_CLIENTS_COLLECTION"), text("clients")),
        (text("MONGODB_TASKS_COLLECTION"), text("tasks")),
        (text("MONGODB_FREELANCERS_COLLECTION"), text("freelancers")),
        (text("MONGODB_REVIEW_COLLECTION"), text("reviews")),
        (text("MONGODB_PROPOSALS_COLLECTION"), text("proposals")),
        (text("MONGODB_DEALS_COLLECTION"), text("deals")),
        (text("MONGODB_MILESTONES_COLLECTION"), text("milestones")),
    ];
    AppState {
        db: DB::init(&settings).unwrap(),
        auth: AuthConfig { secret: text("secret"), audience: vec![text("http://localhost:8080")] },
    }
}

fn session(state: &AppState) -> String {
    generate_token(text("1"), None, &state.auth.secret, NOW).unwrap()
}

fn alice() -> Request {
    Request::AddClient(CreateClientSchema {
        user: CreateUserSchema {
            user_name: text("alice"),
            description: Some(text("d")),
            password: text("p"),
        },
        task_ids: None,
    })
}

fn bob() -> Request {
    Request::AddFreelancer(CreateFreelancerSchema {
        user: CreateUserSchema { user_name: text("bob"), description: None, password: text("q") },
        skills: Some(vec![text("rust")]),
    })
}

fn task() -> Request {
    Request::CreateTask(CreateTaskSchema {
        client_id: text("1"),
        title: text("t1"),
        start_time: text("2025-01-01"),
        deadline: text("2025-02-01"),
        description: text("a task"),
        skills: vec![text("rust")],
        bounty: 100,
        proposals_id: None,
    })
}

fn proposal() -> Request {
    Request::SubmitProposal(CreateProposalSchema {
        client_id: text("1"),
        task_id: text("1"),
        freelancer_id: text("2"),
    })
}

fn milestones() -> Request {
    Request::AddMilestones(vec![
        CreateMilestoneSchema {
            proposal_id: text("1"),
            description: text("m1"),
            deadline: text("2025-01-15"),
            price: 40,
        },
        CreateMilestoneSchema {
            proposal_id: text("1"),
            description: text("m2"),
            deadline: text("2025-01-30"),
            price: 60,
        },
    ])
}

fn data(reply: Reply<Body>) -> Body {
    match reply.payload {
        Payload::Data(body) => body,
        other => panic!("no data: {:?}", other),
    }
}

/// A store in which a client, a task, a freelancer, a proposal and its two
/// milestones have been created.
fn funded(state: &AppState) -> MemoryStore {
    let mut store = MemoryStore::new();
    let token = session(state);
    assert_eq!(store.run(state, &alice(), None, NOW).status, 201);
    assert_eq!(store.run(state, &task(), Some(&token), NOW).status, 201);
    assert_eq!(store.run(state, &bob(), None, NOW).status, 201);
    assert_eq!(store.run(state, &proposal(), Some(&token), NOW).status, 201);
    assert_eq!(store.run(state, &milestones(), Some(&token), NOW).status, 201);
    store
}

#[test]
fn a_client_registers_and_logs_in() {
    let state = state();
    let mut store = MemoryStore::new();
    let created = store.run(&state, &alice(), None, NOW);
    assert_eq!(created.status, 201);
    assert!(created.cookie.is_some());
    let login = Request::ApiLogin(LoginUserSchema {
        role: text("client"),
        user_name: text("alice"),
        password: text("p"),
    });
    let reply = store.run(&state, &login, None, NOW);
    assert_eq!(reply.status, 200);
    match &reply.cookie {
        Some(cookie) => {
            assert_eq!(cookie.name, "auth-token");
            assert!(!cookie.value.is_empty());
        }
        None => panic!("no session cookie"),
    }
    match data(reply) {
        Body::User(shown) => {
            assert_eq!(shown.status, "Success");
            assert_eq!(shown.data.user.id, "1");
            assert_eq!(shown.data.user.user_name, "alice");
            assert_eq!(shown.data.user.description, "d");
            assert_eq!(shown.data.user.role, "client");
        }
        other => panic!("unexpected body: {:?}", other),
    }
}

#[test]
fn a_task_is_posted_and_found_by_skill() {
    let state = state();
    let mut store = MemoryStore::new();
    let token = session(&state);
    store.run(&state, &alice(), None, NOW);
    let reply = store.run(&state, &task(), Some(&token), NOW);
    assert_eq!(reply.status, 201);
    match data(reply) {
        Body::Task(shown) => {
            assert_eq!(shown.data.task.id, "1");
            assert_eq!(shown.data.task.title, "t1");
            assert_eq!(shown.data.task.bounty, 100);
            assert_eq!(shown.data.task.skills, vec![text("rust")]);
            assert!(shown.data.task.proposals_id.is_empty());
        }
        other => panic!("unexpected body: {:?}", other),
    }
    let reply = store.run(&state, &Request::GetTask(text("rust")), Some(&token), NOW);
    assert_eq!(reply.status, 200);
    match data(reply) {
        Body::Tasks(list) => {
            assert_eq!(list.results, 1);
            assert_eq!(list.tasks[0].id, "1");
        }
        other => panic!("unexpected body: {:?}", other),
    }
    let reply = store.run(&state, &Request::GetTask(text("Rust")), Some(&token), NOW);
    match data(reply) {
        Body::Tasks(list) => assert_eq!(list.results, 0),
        other => panic!("unexpected body: {:?}", other),
    }
}

#[test]
fn milestones_fund_a_proposal() {
    let state = state();
    let mut store = MemoryStore::new();
    let token = session(&state);
    store.run(&state, &alice(), None, NOW);
    store.run(&state, &task(), Some(&token), NOW);
    assert_eq!(store.run(&state, &bob(), None, NOW).status, 201);
    let reply = store.run(&state, &proposal(), Some(&token), NOW);
    assert_eq!(reply.status, 201);
    match data(reply) {
        Body::Proposal(shown) => {
            assert_eq!(shown.data.proposal.id, "1");
            assert_eq!(shown.data.proposal.proposal_price, 0);
            assert!(!shown.data.proposal.accepted);
            assert!(shown.data.proposal.milestones_id.is_empty());
        }
        other => panic!("unexpected body: {:?}", other),
    }
    let reply = store.run(&state, &milestones(), Some(&token), NOW);
    assert_eq!(reply.status, 201);
    match data(reply) {
        Body::Proposal(shown) => {
            assert_eq!(shown.data.proposal.proposal_price, 100);
            assert_eq!(shown.data.proposal.milestones_id, vec![text("1"), text("2")]);
        }
        other => panic!("unexpected body: {:?}", other),
    }
}

#[test]
fn a_proposal_is_accepted_once() {
    let state = state();
    let mut store = funded(&state);
    let token = session(&state);
    let reply = store.run(&state, &Request::ApproveProposal(text("1")), Some(&token), NOW);
    assert_eq!(reply.status, 201);
    match data(reply) {
        Body::ProposalDeal(shown) => {
            assert!(shown.data.proposal.accepted);
            assert_eq!(shown.data.deal.id, "1");
            assert_eq!(shown.data.deal.price, 100);
            assert_eq!(shown.data.deal.status, "Initialized");
            assert_eq!(shown.data.deal.address, "0x0");
            assert_eq!(shown.data.deal.proposal_id, "1");
        }
        other => panic!("unexpected body: {:?}", other),
    }
    let again = store.run(&state, &Request::ApproveProposal(text("1")), Some(&token), NOW);
    assert_eq!(again.status, 409);
    assert_eq!(store.deals.len(), 1);
    let missing = store.run(&state, &Request::ApproveProposal(text("7")), Some(&token), NOW);
    assert_eq!(missing.status, 404);
    assert_eq!(store.deals.len(), 1);
}

#[test]
fn a_milestone_is_handed_in() {
    let state = state();
    let mut store = funded(&state);
    let token = session(&state);
    let request = Request::SubmitMilestone {
        proposal_id: text("1"),
        milestone_id: text("1"),
        link: text("https://x"),
    };
    let reply = store.run(&state, &request, Some(&token), NOW);
    assert_eq!(reply.status, 201);
    match data(reply) {
        Body::Milestone(shown) => {
            assert_eq!(shown.data.milestone.id, "1");
            assert_eq!(shown.data.milestone.link, "https://x");
            assert_eq!(shown.data.milestone.status, "Submitted");
        }
        other => panic!("unexpected body: {:?}", other),
    }
    match &store.milestones[1] {
        Record::Milestone(other) => {
            assert_eq!(other.link, "");
            assert_eq!(other.status, "Initialized");
        }
        other => panic!("unexpected record: {:?}", other),
    }
}

#[test]
fn a_deal_gets_its_address() {
    let state = state();
    let mut store = funded(&state);
    let token = session(&state);
    store.run(&state, &Request::ApproveProposal(text("1")), Some(&token), NOW);
    let request = Request::UpdateDeal { deal_id: text("1"), transaction_id: text("0xabc") };
    let reply = store.run(&state, &request, Some(&token), NOW);
    assert_eq!(reply.status, 201);
    match data(reply) {
        Body::Deal(shown) => {
            assert_eq!(shown.data.deal.address, "0xabc");
            assert_eq!(shown.data.deal.price, 100);
        }
        other => panic!("unexpected body: {:?}", other),
    }
}
