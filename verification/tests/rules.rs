use freelance_market::db::DB;
use freelance_market::error::ErrorResponse;
use freelance_market::handler::{
    handle, screen, serve, AppState, Body, Payload, Reply, Request, Served,
};
use freelance_market::web::route::Handler;
use freelance_market::memory::{Index, MemoryStore};
use freelance_market::schema::{
    CreateClientSchema, CreateFreelancerSchema, CreateMilestoneSchema, CreateProposalSchema,
    CreateReviewSchema, CreateTaskSchema, CreateUserSchema, LoginUserSchema,
};
use freelance_market::store::{
    Collection, Filter, Record, StoreRequest, StoreResponse, Update,
};
use freelance_market::utils::{build_milestone_document, build_task_document};
use freelance_market::web::token::{generate_token, AuthConfig};

const NOW: u64 = 1_700_000_000;

fn text(s: &str) -> String {
    s.to_string()
}

fn state() -> AppState {
    let db = DB {
        uri: text("mongodb://localhost:27017"),
        database: text("market"),
        clients_collection: text("clients"),
        tasks_collection: text("tasks"),
        freelancers_collection: text("freelancers"),
        review_collection: text("reviews"),
        proposals_collection: text("proposals"),
        deals_collection: text("deals"),
        milestones_collection: text("milestones"),
        review_key: vec![text("deal_id")],
    };
    AppState {
        db,
        auth: AuthConfig { secret: text("secret"), audience: vec![text("http://localhost:8080")] },
    }
}

struct World {
    state: AppState,
    store: MemoryStore,
    token: String,
}

impl World {
    fn new() -> World {
        let state = state();
        let token = generate_token(text("1"), None, &state.auth.secret, NOW).unwrap();
        World { state, store: MemoryStore::new(), token }
    }

    fn ask(&mut self, request: Request) -> Reply<Body> {
        self.store.run(&self.state, &request, Some(&self.token), NOW)
    }

    fn data(&mut self, request: Request) -> Body {
        match self.ask(request).payload {
            Payload::Data(body) => body,
            other => panic!("no data: {:?}", other),
        }
    }
}

fn client(name: &str, password: &str) -> Request {
    Request::AddClient(CreateClientSchema {
        user: CreateUserSchema {
            user_name: text(name),
            description: Some(text("d")),
            password: text(password),
        },
        task_ids: None,
    })
}

fn freelancer(name: &str) -> Request {
    Request::AddFreelancer(CreateFreelancerSchema {
        user: CreateUserSchema { user_name: text(name), description: None, password: text("q") },
        skills: Some(vec![text("rust")]),
    })
}

fn task_body(title: &str, skills: &[&str]) -> CreateTaskSchema {
    CreateTaskSchema {
        client_id: text("1"),
        title: text(title),
        start_time: text("2025-01-01"),
        deadline: text("2025-02-01"),
        description: text("about"),
        skills: skills.iter().map(|s| text(s)).collect(),
        bounty: 100,
        proposals_id: None,
    }
}

fn task(title: &str, skills: &[&str]) -> Request {
    Request::CreateTask(task_body(title, skills))
}

fn proposal() -> Request {
    Request::SubmitProposal(CreateProposalSchema {
        client_id: text("1"),
        task_id: text("1"),
        freelancer_id: text("1"),
    })
}

fn snapshot(store: &MemoryStore) -> MemoryStore {
    MemoryStore {
        clients: store.clients.to_vec(),
        freelancers: store.freelancers.to_vec(),
        tasks: store.tasks.to_vec(),
        proposals: store.proposals.to_vec(),
        milestones: store.milestones.to_vec(),
        deals: store.deals.to_vec(),
        reviews: store.reviews.to_vec(),
        indexes: store
            .indexes
            .iter()
            .map(|index| Index { collection: index.collection, keys: index.keys.clone() })
            .collect(),
        reserved: store.reserved,
    }
}

fn milestone(proposal: &str, price: u64) -> CreateMilestoneSchema {
    CreateMilestoneSchema {
        proposal_id: text(proposal),
        description: text("m"),
        deadline: text("d"),
        price,
    }
}

fn login(role: &str, name: &str, password: &str) -> Request {
    Request::ApiLogin(LoginUserSchema {
        role: text(role),
        user_name: text(name),
        password: text(password),
    })
}

fn review(deal: &str, words: &str, stars: u16) -> Request {
    Request::AddReview(CreateReviewSchema {
        freelancer_id: text("1"),
        client_id: text("1"),
        deal_id: text(deal),
        review: text(words),
        stars,
    })
}

fn price_of(store: &MemoryStore, id: &str) -> u64 {
    for record in &store.milestones {
        if let Record::Milestone(m) = record {
            if m.id == id {
                return m.price;
            }
        }
    }
    panic!("no milestone {}", id)
}

/// What must hold of every store that the service has written.
fn check(store: &MemoryStore) {
    for record in &store.proposals {
        let Record::Proposal(p) = record else { panic!("not a proposal: {:?}", record) };
        if let Some(ids) = &p.milestones_id {
            if !ids.is_empty() {
                let sum: u64 = ids.iter().map(|id| price_of(store, id)).sum();
                assert_eq!(p.proposal_price, sum);
            }
        }
    }
    for record in &store.deals {
        let Record::Deal(d) = record else { panic!("not a deal: {:?}", record) };
        let of: Vec<_> = store
            .proposals
            .iter()
            .filter(|r| matches!(r, Record::Proposal(p) if p.id == d.proposal_id))
            .collect();
        assert_eq!(of.len(), 1);
        assert!(matches!(of[0], Record::Proposal(p) if p.accepted));
    }
    for record in &store.milestones {
        let Record::Milestone(m) = record else { panic!("not a milestone: {:?}", record) };
        if !m.link.is_empty() {
            assert!(m.status == "Submitted" || m.status == "Approved");
        }
        assert!(store
            .proposals
            .iter()
            .any(|r| matches!(r, Record::Proposal(p) if p.id == m.proposal_id)));
    }
    let names = |records: &Vec<Record>| -> Vec<String> {
        records
            .iter()
            .map(|r| match r {
                Record::Client(c) => c.user.user_name.clone(),
                Record::Freelancer(f) => f.user.user_name.clone(),
                Record::Task(t) => t.title.clone(),
                other => panic!("unexpected record: {:?}", other),
            })
            .collect()
    };
    for list in [names(&store.clients), names(&store.freelancers), names(&store.tasks)] {
        for (i, a) in list.iter().enumerate() {
            assert!(!list[i + 1..].contains(a));
        }
    }
    for records in [
        &store.clients,
        &store.freelancers,
        &store.tasks,
        &store.proposals,
        &store.milestones,
        &store.deals,
        &store.reviews,
    ] {
        for (i, a) in records.iter().enumerate() {
            for b in &records[i + 1..] {
                assert_ne!(a.id(), b.id());
            }
        }
    }
}

#[test]
fn the_price_of_a_proposal_is_the_sum_of_its_milestones() {
    let mut world = World::new();
    world.ask(proposal());
    world.ask(proposal());
    check(&world.store);
    let batch = vec![milestone("2", 40), milestone("2", 60), milestone("2", 5)];
    match world.data(Request::AddMilestones(batch)) {
        Body::Proposal(shown) => {
            assert_eq!(shown.data.proposal.id, "2");
            assert_eq!(shown.data.proposal.proposal_price, 105);
            assert_eq!(shown.data.proposal.milestones_id, vec!["1", "2", "3"]);
        }
        other => panic!("unexpected body: {:?}", other),
    }
    check(&world.store);
    let sum_for = |store: &MemoryStore, proposal: &str| -> u64 {
        store
            .milestones
            .iter()
            .map(|r| match r {
                Record::Milestone(m) if m.proposal_id == proposal => m.price,
                _ => 0,
            })
            .sum()
    };
    assert_eq!(sum_for(&world.store, "2"), 105);
    // the same batch once more: the same answer, and nothing is stored again
    let stored = snapshot(&world.store);
    let batch = vec![milestone("2", 40), milestone("2", 60), milestone("2", 5)];
    let again = world.ask(Request::AddMilestones(batch));
    assert_eq!(again.status, 201);
    match again.payload {
        Payload::Data(Body::Proposal(shown)) => {
            assert_eq!(shown.data.proposal.id, "2");
            assert_eq!(shown.data.proposal.proposal_price, 105);
            assert_eq!(shown.data.proposal.milestones_id, vec!["1", "2", "3"]);
        }
        other => panic!("unexpected payload: {:?}", other),
    }
    assert_eq!(world.store, stored);
    assert_eq!(sum_for(&world.store, "2"), 105);
    // another batch for the same proposal is refused: milestones are attached once
    for batch in [
        vec![milestone("2", 7)],
        vec![milestone("2", 60), milestone("2", 40), milestone("2", 5)],
        vec![milestone("2", 40), milestone("2", 60), milestone("2", 5), milestone("2", 1)],
    ] {
        let reply = world.ask(Request::AddMilestones(batch));
        assert_eq!(reply.status, 409);
        assert_eq!(
            reply.payload,
            Payload::Fault(ErrorResponse { status: "Fail", message: text("resource already exists") })
        );
        assert_eq!(world.store, stored);
    }
    assert_eq!(world.store.milestones.len(), 3);
    check(&world.store);
    // the other proposal is as it was
    match &world.store.proposals[0] {
        Record::Proposal(p) => {
            assert_eq!(p.proposal_price, 0);
            assert_eq!(p.milestones_id, None);
        }
        other => panic!("unexpected record: {:?}", other),
    }
}

#[test]
fn milestones_for_a_proposal_that_is_not_there_are_not_stored() {
    let mut world = World::new();
    let reply = world.ask(Request::AddMilestones(vec![milestone("9", 40)]));
    assert_eq!(reply.status, 404);
    assert_eq!(world.store, MemoryStore::new());
    world.ask(proposal());
    let before = snapshot(&world.store);
    let reply = world.ask(Request::AddMilestones(vec![milestone("9", 40), milestone("9", 1)]));
    assert_eq!(reply.status, 404);
    assert_eq!(world.store, before);
    check(&world.store);
}

#[test]
fn milestones_that_were_stored_in_part_are_completed_when_sent_again() {
    let mut world = World::new();
    world.ask(proposal());
    // the first milestone of the batch was stored, and then the request was cut short
    let reserve = StoreRequest::Reserve { collection: Collection::Milestones, many: 2 };
    assert_eq!(world.store.perform(&reserve), StoreResponse::Count(0));
    let first = build_milestone_document(&milestone("1", 40), 1).unwrap();
    let stored = world.store.perform(&StoreRequest::InsertOne {
        collection: Collection::Milestones,
        document: first,
    });
    assert_eq!(stored, StoreResponse::Inserted(text("1")));
    let batch = || Request::AddMilestones(vec![milestone("1", 40), milestone("1", 60)]);
    match world.data(batch()) {
        Body::Proposal(shown) => {
            assert_eq!(shown.data.proposal.proposal_price, 100);
            assert_eq!(shown.data.proposal.milestones_id, vec!["1", "3"]);
        }
        other => panic!("unexpected body: {:?}", other),
    }
    assert_eq!(world.store.milestones.len(), 2);
    check(&world.store);
    // stored, but not attached: sent again, the proposal is given them
    let Record::Proposal(mut cut) = world.store.proposals[0].clone() else { panic!("none") };
    cut.milestones_id = None;
    cut.proposal_price = 0;
    world.store.proposals[0] = Record::Proposal(cut);
    let before = world.store.milestones.to_vec();
    match world.data(batch()) {
        Body::Proposal(shown) => {
            assert_eq!(shown.data.proposal.proposal_price, 100);
            assert_eq!(shown.data.proposal.milestones_id, vec!["1", "3"]);
        }
        other => panic!("unexpected body: {:?}", other),
    }
    assert_eq!(world.store.milestones, before);
    check(&world.store);
}

#[test]
fn an_empty_batch_of_milestones_is_a_bad_request() {
    let mut world = World::new();
    world.ask(proposal());
    let before = snapshot(&world.store);
    let reply = world.ask(Request::AddMilestones(vec![]));
    assert_eq!(reply.status, 400);
    assert_eq!(world.store, before);
    let served = serve(&world.state, &Request::AddMilestones(vec![]), Some(&world.token), &vec![], NOW);
    assert!(matches!(served, Served::Done(_)));
}

#[test]
fn attaching_milestones_leaves_the_rest_of_the_proposal_as_it_was() {
    let mut world = World::new();
    world.ask(proposal());
    world.ask(Request::ApproveProposal(text("1")));
    let Record::Proposal(before) = world.store.proposals[0].clone() else { panic!("no proposal") };
    assert!(before.accepted);
    assert_eq!(world.ask(Request::AddMilestones(vec![milestone("1", 3)])).status, 201);
    let Record::Proposal(after) = world.store.proposals[0].clone() else { panic!("no proposal") };
    assert!(after.accepted);
    assert_eq!(after.id, before.id);
    assert_eq!(after.client_id, before.client_id);
    assert_eq!(after.task_id, before.task_id);
    assert_eq!(after.freelancer_id, before.freelancer_id);
    assert_eq!(after.proposal_price, 3);
    assert_eq!(after.milestones_id, Some(vec![text("1")]));
    check(&world.store);
}

#[test]
fn a_deal_is_made_of_an_accepted_proposal_at_its_price() {
    let mut world = World::new();
    world.ask(proposal());
    world.ask(Request::AddMilestones(vec![milestone("1", 40), milestone("1", 60)]));
    match world.data(Request::ApproveProposal(text("1"))) {
        Body::ProposalDeal(shown) => {
            assert!(shown.data.proposal.accepted);
            assert_eq!(shown.data.deal.price, shown.data.proposal.proposal_price);
            assert_eq!(shown.data.deal.price, 100);
            assert_eq!(shown.data.deal.proposal_id, "1");
        }
        other => panic!("unexpected body: {:?}", other),
    }
    check(&world.store);
    // the price of the deal is fixed, and so is that of the proposal
    assert_eq!(world.ask(Request::AddMilestones(vec![milestone("1", 1)])).status, 409);
    match &world.store.deals[0] {
        Record::Deal(d) => assert_eq!(d.price, 100),
        other => panic!("unexpected record: {:?}", other),
    }
    match &world.store.proposals[0] {
        Record::Proposal(p) => {
            assert_eq!(p.proposal_price, 100);
            assert!(p.accepted);
        }
        other => panic!("unexpected record: {:?}", other),
    }
    check(&world.store);
}

#[test]
fn a_link_marks_a_milestone_as_submitted() {
    let mut world = World::new();
    world.ask(proposal());
    world.ask(Request::AddMilestones(vec![milestone("1", 40), milestone("1", 60)]));
    let hand_in = |milestone: &str, link: &str| Request::SubmitMilestone {
        proposal_id: text("1"),
        milestone_id: text(milestone),
        link: text(link),
    };
    match world.data(hand_in("2", "https://x")) {
        Body::Milestone(shown) => {
            assert_eq!(shown.data.milestone.id, "2");
            assert_eq!(shown.data.milestone.link, "https://x");
            assert_eq!(shown.data.milestone.status, "Submitted");
            assert_eq!(shown.data.milestone.price, 60);
        }
        other => panic!("unexpected body: {:?}", other),
    }
    check(&world.store);
    // an empty link leaves the status as it is
    match world.data(hand_in("1", "")) {
        Body::Milestone(shown) => {
            assert_eq!(shown.data.milestone.link, "");
            assert_eq!(shown.data.milestone.status, "Initialized");
        }
        other => panic!("unexpected body: {:?}", other),
    }
    match world.data(hand_in("2", "")) {
        Body::Milestone(shown) => {
            assert_eq!(shown.data.milestone.link, "");
            assert_eq!(shown.data.milestone.status, "Submitted");
        }
        other => panic!("unexpected body: {:?}", other),
    }
    check(&world.store);
    // a milestone of another proposal is not found
    let other = Request::SubmitMilestone {
        proposal_id: text("2"),
        milestone_id: text("1"),
        link: text("l"),
    };
    assert_eq!(world.ask(other).status, 404);
    assert_eq!(world.ask(hand_in("3", "l")).status, 404);
}

#[test]
fn names_are_unique_within_a_role() {
    let mut world = World::new();
    assert_eq!(world.ask(client("alice", "p")).status, 201);
    let again = world.ask(client("alice", "other"));
    assert_eq!(again.status, 409);
    assert_eq!(again.cookie, None);
    match again.payload {
        Payload::Fault(fault) => {
            assert_eq!(fault.status, "Fail");
            assert_eq!(fault.message, "resource already exists");
        }
        other => panic!("unexpected payload: {:?}", other),
    }
    assert_eq!(world.store.clients.len(), 1);
    assert_eq!(world.ask(client("Alice", "p")).status, 201);
    // a freelancer may have the name of a client
    assert_eq!(world.ask(freelancer("alice")).status, 201);
    assert_eq!(world.ask(freelancer("alice")).status, 409);
    assert_eq!(world.store.freelancers.len(), 1);
    check(&world.store);
}

#[test]
fn titles_are_unique() {
    let mut world = World::new();
    assert_eq!(world.ask(task("t1", &["rust"])).status, 201);
    assert_eq!(world.ask(task("t1", &["go"])).status, 409);
    assert_eq!(world.ask(task("t2", &["go"])).status, 201);
    assert_eq!(world.store.tasks.len(), 2);
    // asking for an index that is there changes nothing
    assert_eq!(
        world.store.indexes,
        vec![Index { collection: Collection::Tasks, keys: vec![text("title")] }]
    );
    check(&world.store);
}

#[test]
fn there_is_one_review_for_each_deal() {
    let mut world = World::new();
    assert_eq!(world.ask(review("1", "fine", 9)).status, 201);
    assert_eq!(world.ask(review("1", "bad", 0)).status, 409);
    // the number that was set aside for the review that was refused is not given again
    match world.data(review("2", "good", 3)) {
        Body::Review(shown) => {
            assert_eq!(shown.data.review.id, "3");
            assert_eq!(shown.data.review.stars, 3);
            assert_eq!(shown.data.review.review, "good");
        }
        other => panic!("unexpected body: {:?}", other),
    }
    match &world.store.reviews[0] {
        Record::Review(r) => assert_eq!(r.stars, 5),
        other => panic!("unexpected record: {:?}", other),
    }
    // with another key, another rule
    world.state.db.review_key = vec![text("review")];
    assert_eq!(world.ask(review("3", "fine", 1)).status, 409);
    assert_eq!(world.ask(review("3", "great", 1)).status, 201);
    // the rule that was there before still holds
    assert_eq!(world.ask(review("3", "better", 1)).status, 409);
    assert_eq!(world.ask(review("4", "better", 1)).status, 201);
    // without a key, no rule
    let mut world = World::new();
    world.state.db.review_key = vec![];
    assert_eq!(world.ask(review("1", "fine", 1)).status, 201);
    assert_eq!(world.ask(review("1", "fine", 1)).status, 201);
    assert!(world.store.indexes.is_empty());
    // an index over what already repeats cannot be made, and nothing is stored
    world.state.db.review_key = vec![text("deal_id")];
    assert_eq!(world.ask(review("2", "best", 1)).status, 500);
    assert_eq!(world.store.reviews.len(), 2);
}

#[test]
fn acceptance_is_for_good() {
    let mut world = World::new();
    world.ask(client("alice", "p"));
    world.ask(proposal());
    world.ask(proposal());
    world.ask(Request::ApproveProposal(text("1")));
    let accepted = |store: &MemoryStore, at: usize| match &store.proposals[at] {
        Record::Proposal(p) => p.accepted,
        other => panic!("unexpected record: {:?}", other),
    };
    assert!(accepted(&world.store, 0));
    assert!(!accepted(&world.store, 1));
    let requests = vec![
        Request::ApproveProposal(text("1")),
        Request::AddMilestones(vec![milestone("1", 10)]),
        Request::AddMilestones(vec![milestone("1", 10), milestone("2", 10)]),
        proposal(),
        Request::GetProposal(text("1")),
        Request::ListProposal,
        Request::UpdateDeal { deal_id: text("1"), transaction_id: text("0xabc") },
        Request::SubmitMilestone {
            proposal_id: text("1"),
            milestone_id: text("1"),
            link: text("l"),
        },
        task("t", &[]),
        review("1", "fine", 5),
        login("client", "alice", "p"),
    ];
    for request in requests {
        world.ask(request);
        assert!(accepted(&world.store, 0));
        check(&world.store);
    }
    // every call that the service knows leaves an accepted proposal accepted
    let updates = vec![
        Update::Accept,
        Update::Milestones { ids: vec![], price: 0 },
        Update::Address(text("a")),
        Update::Link(text("l")),
        Update::Delivery { milestone_id: text("1"), link: text("l") },
    ];
    for update in updates {
        let request = StoreRequest::FindOneAndUpdate {
            collection: Collection::Proposals,
            filter: Filter::Id(text("1")),
            update,
        };
        assert!(matches!(world.store.perform(&request), StoreResponse::One(Some(_))));
        assert!(accepted(&world.store, 0));
    }
}

/// Makes the next call of a request that is being served, and tells
/// whether the request is over.
fn step(
    state: &AppState,
    store: &mut MemoryStore,
    request: &Request,
    token: &str,
    answers: &mut Vec<StoreResponse>,
) -> Option<Reply<Body>> {
    match serve(state, request, Some(token), answers, NOW) {
        Served::Call(call) => {
            answers.push(store.perform(&call));
            None
        }
        Served::Done(reply) => Some(reply),
    }
}

#[test]
fn two_registrations_at_once_get_two_identifiers() {
    // every way in which the calls of two requests can follow one another
    for order in 0u32..(1 << 8) {
        let mut world = World::new();
        let requests = [client("alice", "p"), client("bob", "q")];
        let mut answers = [vec![], vec![]];
        let mut replies = [None, None];
        for turn in 0..8 {
            let who = ((order >> turn) & 1) as usize;
            if replies[who].is_none() {
                replies[who] = step(
                    &world.state,
                    &mut world.store,
                    &requests[who],
                    &world.token,
                    &mut answers[who],
                );
            }
        }
        for who in 0..2 {
            while replies[who].is_none() {
                replies[who] = step(
                    &world.state,
                    &mut world.store,
                    &requests[who],
                    &world.token,
                    &mut answers[who],
                );
            }
        }
        assert_ne!(answers[0][0], answers[1][0]);
        assert_eq!(replies[0].as_ref().unwrap().status, 201);
        assert_eq!(replies[1].as_ref().unwrap().status, 201);
        assert_eq!(world.store.clients.len(), 2);
        check(&world.store);
    }
}

#[test]
fn numbers_are_set_aside_once() {
    let mut store = MemoryStore::new();
    let three = StoreRequest::Reserve { collection: Collection::Milestones, many: 3 };
    let one = StoreRequest::Reserve { collection: Collection::Milestones, many: 1 };
    assert_eq!(store.perform(&three), StoreResponse::Count(0));
    assert_eq!(store.perform(&one), StoreResponse::Count(3));
    assert_eq!(store.perform(&three), StoreResponse::Count(4));
    assert_eq!(store.reserved.milestones, 7);
    // each collection has its own
    let deal = StoreRequest::Reserve { collection: Collection::Deals, many: 1 };
    assert_eq!(store.perform(&deal), StoreResponse::Count(0));
    assert_eq!(store.reserved.deals, 1);
    // no document was stored
    assert_eq!(
        store.perform(&StoreRequest::CountDocuments { collection: Collection::Milestones }),
        StoreResponse::Count(0)
    );
    // there are no numbers past the largest
    let most = StoreRequest::Reserve { collection: Collection::Deals, many: u64::MAX };
    assert_eq!(store.perform(&most), StoreResponse::Failed(text("the counter cannot be raised")));
    assert_eq!(store.reserved.deals, 1);
    let rest = StoreRequest::Reserve { collection: Collection::Deals, many: u64::MAX - 1 };
    assert_eq!(store.perform(&rest), StoreResponse::Count(1));
    assert_eq!(store.reserved.deals, u64::MAX);
}

#[test]
fn an_identifier_that_is_taken_is_not_given_twice() {
    // a document that was stored without a number being set aside for it
    let mut world = World::new();
    let stray = build_task_document(&task_body("old", &[]), text("1")).unwrap();
    let stored = world
        .store
        .perform(&StoreRequest::InsertOne { collection: Collection::Tasks, document: stray });
    assert_eq!(stored, StoreResponse::Inserted(text("1")));
    let before = snapshot(&world.store);
    let reply = world.ask(task("new", &[]));
    assert_eq!(reply.status, 409);
    assert_eq!(
        reply.payload,
        Payload::Fault(ErrorResponse { status: "Fail", message: text("resource already exists") })
    );
    assert_eq!(world.store.tasks, before.tasks);
    // asked again, the task is given the next identifier
    match world.data(task("new", &[])) {
        Body::Task(shown) => assert_eq!(shown.data.task.id, "2"),
        other => panic!("unexpected body: {:?}", other),
    }
    check(&world.store);
}

#[test]
fn two_acceptances_at_once_make_one_deal() {
    // every way in which the calls of two requests can follow one another
    for order in 0u32..(1 << 10) {
        let mut world = World::new();
        world.ask(proposal());
        world.ask(Request::AddMilestones(vec![milestone("1", 40)]));
        let request = Request::ApproveProposal(text("1"));
        let mut answers = [vec![], vec![]];
        let mut replies = [None, None];
        for turn in 0..10 {
            let who = ((order >> turn) & 1) as usize;
            if replies[who].is_none() {
                replies[who] = step(
                    &world.state,
                    &mut world.store,
                    &request,
                    &world.token,
                    &mut answers[who],
                );
            }
        }
        for who in 0..2 {
            while replies[who].is_none() {
                replies[who] = step(
                    &world.state,
                    &mut world.store,
                    &request,
                    &world.token,
                    &mut answers[who],
                );
            }
        }
        let mut statuses: Vec<u16> =
            replies.iter().map(|reply| reply.as_ref().unwrap().status).collect();
        statuses.sort();
        assert_eq!(statuses, vec![201, 409]);
        assert_eq!(world.store.deals.len(), 1);
        check(&world.store);
    }
}

#[test]
fn two_creations_at_once_cannot_share_an_identifier() {
    let mut world = World::new();
    let first = task("t1", &[]);
    let second = task("t2", &[]);
    let mut answers = [vec![], vec![]];
    // both are given a number before either stores
    for request in [&first, &second] {
        let who = if *request == first { 0 } else { 1 };
        assert!(step(&world.state, &mut world.store, request, &world.token, &mut answers[who])
            .is_none());
    }
    let mut finish = |request: &Request, answers: &mut Vec<StoreResponse>| loop {
        if let Some(reply) = step(&world.state, &mut world.store, request, &world.token, answers) {
            return reply.status;
        }
    };
    assert_eq!(finish(&first, &mut answers[0]), 201);
    assert_eq!(finish(&second, &mut answers[1]), 201);
    assert_eq!(answers[0][0], StoreResponse::Count(0));
    assert_eq!(answers[1][0], StoreResponse::Count(1));
    let ids: Vec<&String> = world.store.tasks.iter().map(|task| task.id()).collect();
    assert_eq!(ids, vec!["1", "2"]);
    check(&world.store);
}

#[test]
fn what_was_created_is_found_as_it_was_shown() {
    let mut world = World::new();
    world.ask(task("t0", &[]));
    let Body::Task(created) = world.data(task("t1", &["rust"])) else { panic!("no task") };
    assert_eq!(created.data.task.id, "2");
    let found = world.store.perform(&StoreRequest::FindOne {
        collection: Collection::Tasks,
        filter: Filter::Id(created.data.task.id.clone()),
    });
    match found {
        StoreResponse::One(Some(Record::Task(stored))) => {
            assert_eq!(
                freelance_market::utils::doc_to_task_response(&stored).unwrap(),
                created.data.task
            );
        }
        other => panic!("unexpected answer: {:?}", other),
    }
    let Body::Tasks(list) = world.data(Request::ListTasks) else { panic!("no tasks") };
    assert_eq!(list.results, 2);
    assert_eq!(list.tasks[1], created.data.task);

    let Body::Proposal(created) = world.data(proposal()) else { panic!("no proposal") };
    let Body::DetailedProposal(found) = world.data(Request::GetProposal(text("1"))) else {
        panic!("no proposal")
    };
    let detailed = found.data.detailed_proposal;
    assert_eq!(detailed.id, created.data.proposal.id);
    assert_eq!(detailed.client_id, created.data.proposal.client_id);
    assert_eq!(detailed.task_id, created.data.proposal.task_id);
    assert_eq!(detailed.freelancer_id, created.data.proposal.freelancer_id);
    assert_eq!(detailed.proposal_price, created.data.proposal.proposal_price);
    assert_eq!(detailed.accepted, created.data.proposal.accepted);
    assert!(detailed.milestones.is_empty());
    let Body::Proposals(list) = world.data(Request::ListProposal) else { panic!("no list") };
    assert_eq!(list.proposals, vec![created.data.proposal]);

    let Body::Client(created) = world.data(client("alice", "p")) else { panic!("no client") };
    let Body::Clients(list) = world.data(Request::ListClients) else { panic!("no clients") };
    assert_eq!(list.users, vec![created.data.client]);
    let Body::Freelancer(created) = world.data(freelancer("bob")) else { panic!("none") };
    assert_eq!(created.data.freelancer.user.description, "");
    assert_eq!(created.data.freelancer.user.role, "freelancer");
    let Body::Freelancers(list) = world.data(Request::ListFreelancers) else { panic!("none") };
    assert_eq!(list.users, vec![created.data.freelancer]);

    world.ask(Request::AddMilestones(vec![milestone("1", 40), milestone("1", 2)]));
    let Body::ProposalDeal(accepted) = world.data(Request::ApproveProposal(text("1"))) else {
        panic!("no deal")
    };
    let Body::Deals(list) = world.data(Request::ListDeals) else { panic!("no deals") };
    assert_eq!(list.deals, vec![accepted.data.deal]);
    let Body::Milestones(list) = world.data(Request::ListMilestone) else { panic!("none") };
    assert_eq!(list.results, 2);
    let Body::DetailedProposal(found) = world.data(Request::GetProposal(text("1"))) else {
        panic!("no proposal")
    };
    assert_eq!(found.data.detailed_proposal.milestones, list.milestones);
    assert_eq!(found.data.detailed_proposal.proposal_price, 42);
    assert!(found.data.detailed_proposal.accepted);
    assert_eq!(world.ask(Request::GetProposal(text("5"))).status, 404);
}

#[test]
fn login_needs_the_password_that_was_registered() {
    let mut world = World::new();
    world.ask(client("alice", "p"));
    world.ask(client("carol", "x"));
    world.ask(freelancer("bob"));
    let before = world.store.clients.len();
    let good = world.store.run(&world.state, &login("client", "alice", "p"), None, NOW);
    assert_eq!(good.status, 200);
    assert!(good.cookie.is_some());
    for wrong in ["", "P", "pp", "x", "q", " p"] {
        let bad = world.store.run(&world.state, &login("client", "alice", wrong), None, NOW);
        assert_eq!(bad.status, 400);
        assert_eq!(bad.cookie, None);
        match bad.payload {
            Payload::Fault(fault) => assert_eq!(fault.message, "invalid password"),
            other => panic!("unexpected payload: {:?}", other),
        }
    }
    assert_eq!(world.ask(login("client", "carol", "x")).status, 200);
    assert_eq!(world.ask(login("freelancer", "bob", "q")).status, 200);
    // a client is no freelancer
    assert_eq!(world.ask(login("freelancer", "alice", "p")).status, 404);
    assert_eq!(world.ask(login("client", "bob", "q")).status, 404);
    assert_eq!(world.ask(login("admin", "alice", "p")).status, 400);
    assert_eq!(world.store.clients.len(), before);
}

#[test]
fn a_request_is_screened_by_its_route_and_its_cookie_alone() {
    let state = state();
    let good = generate_token(text("1"), None, "secret", NOW).unwrap();
    let expired = generate_token(text("1"), Some(10), "secret", NOW - 10).unwrap();
    for handler in [Handler::AddMilestones, Handler::ListClients, Handler::UpdateDeal] {
        for cookie in [None, Some("junk"), Some(expired.as_str())] {
            let turned = screen(&state, &handler, cookie, NOW).expect("let in");
            assert_eq!(turned.status, 401);
            assert_eq!(turned.payload, Payload::Empty);
            assert_eq!(turned.cookie, None);
        }
        assert_eq!(screen(&state, &handler, Some(&good), NOW), None);
    }
    for handler in [Handler::ApiLogin, Handler::AddClient, Handler::AddFreelancer] {
        assert_eq!(screen(&state, &handler, None, NOW), None);
        assert_eq!(screen(&state, &handler, Some("junk"), NOW), None);
    }
    // what turns a request away at the door is what serves it
    let request = Request::AddMilestones(vec![]);
    assert_eq!(
        serve(&state, &request, None, &vec![], NOW),
        Served::Done(screen(&state, &Handler::AddMilestones, None, NOW).unwrap())
    );
}

#[test]
fn a_guarded_route_needs_a_good_session() {
    let state = state();
    let mut store = MemoryStore::new();
    let guarded = vec![
        Request::ListClients,
        Request::ListTasks,
        task("t", &[]),
        proposal(),
        Request::ApproveProposal(text("1")),
        Request::AddMilestones(vec![milestone("1", 1)]),
        Request::UpdateDeal { deal_id: text("1"), transaction_id: text("a") },
        review("1", "r", 1),
    ];
    let expired = generate_token(text("1"), Some(10), "secret", NOW - 10).unwrap();
    let forged = generate_token(text("1"), None, "another secret", NOW).unwrap();
    for request in &guarded {
        for cookie in [None, Some("junk"), Some(expired.as_str()), Some(forged.as_str())] {
            let reply = store.run(&state, request, cookie, NOW);
            assert_eq!(reply.status, 401);
            assert_eq!(reply.payload, Payload::Empty);
            assert_eq!(reply.cookie, None);
        }
    }
    assert_eq!(store, MemoryStore::new());
    // what is open to all needs none
    assert_eq!(store.run(&state, &client("alice", "p"), None, NOW).status, 201);
    assert_eq!(store.run(&state, &freelancer("bob"), Some("junk"), NOW).status, 201);
    assert_eq!(store.run(&state, &login("client", "alice", "p"), None, NOW).status, 200);
    // a request that is let in is handled as it would be without a guard
    let token = generate_token(text("1"), None, "secret", NOW).unwrap();
    let request = Request::ListClients;
    assert_eq!(
        serve(&state, &request, Some(&token), &vec![], NOW),
        handle(&state, &request, &vec![], NOW)
    );
}

#[test]
fn the_store_refuses_what_would_repeat_an_identifier() {
    let mut store = MemoryStore::new();
    let insert = |id: &str, title: &str| StoreRequest::InsertOne {
        collection: Collection::Tasks,
        document: build_task_document(&task_body(title, &[]), text(id)).unwrap(),
    };
    assert_eq!(store.perform(&insert("1", "a")), StoreResponse::Inserted(text("1")));
    assert_eq!(
        store.perform(&insert("1", "b")),
        StoreResponse::Failed(text("E11000 duplicate key error collection"))
    );
    // without an index, titles may repeat
    assert_eq!(store.perform(&insert("2", "a")), StoreResponse::Inserted(text("2")));
    // an index over what already repeats cannot be made
    let index =
        StoreRequest::CreateIndex { collection: Collection::Tasks, keys: vec![text("title")] };
    assert_eq!(
        store.perform(&index),
        StoreResponse::Failed(text("E11000 duplicate key error collection"))
    );
    assert!(store.indexes.is_empty());
    assert_eq!(
        store.perform(&StoreRequest::CreateIndex { collection: Collection::Tasks, keys: vec![] }),
        StoreResponse::Failed(text("Index keys cannot be empty"))
    );
    assert_eq!(
        store.perform(&StoreRequest::CountDocuments { collection: Collection::Tasks }),
        StoreResponse::Count(2)
    );
    assert_eq!(
        store.perform(&StoreRequest::CountDocuments { collection: Collection::Deals }),
        StoreResponse::Count(0)
    );
    // a document of another collection cannot be read
    let stray = StoreRequest::InsertOne {
        collection: Collection::Deals,
        document: build_task_document(&task_body("c", &[]), text("3")).unwrap(),
    };
    assert_eq!(
        store.perform(&stray),
        StoreResponse::Failed(text("the document cannot be read as one of this collection"))
    );
}

#[test]
fn a_batch_is_stored_up_to_the_first_document_that_is_refused() {
    let mut store = MemoryStore::new();
    let document = |id: u64| {
        build_milestone_document(&milestone("1", 10), id).unwrap()
    };
    let batch = |ids: &[u64]| StoreRequest::InsertMany {
        collection: Collection::Milestones,
        documents: ids.iter().map(|id| document(*id)).collect(),
    };
    assert_eq!(
        store.perform(&batch(&[])),
        StoreResponse::Failed(text("No documents provided to insert_many"))
    );
    assert_eq!(
        store.perform(&batch(&[1, 2])),
        StoreResponse::InsertedMany(vec![text("1"), text("2")])
    );
    assert_eq!(
        store.perform(&batch(&[3, 2, 4])),
        StoreResponse::Failed(text("E11000 duplicate key error collection"))
    );
    let ids: Vec<&String> = store.milestones.iter().map(|r| r.id()).collect();
    assert_eq!(ids, vec!["1", "2", "3"]);
}

#[test]
fn the_store_finds_by_the_fields_of_the_filter() {
    let mut world = World::new();
    world.ask(task("t1", &["rust", "go"]));
    world.ask(task("t2", &["go"]));
    world.ask(task("t3", &[]));
    let titles = |world: &mut World, skill: &str| match world.data(Request::GetTask(text(skill))) {
        Body::Tasks(list) => {
            assert_eq!(list.results, list.tasks.len());
            list.tasks.into_iter().map(|t| t.title).collect::<Vec<_>>()
        }
        other => panic!("unexpected body: {:?}", other),
    };
    assert_eq!(titles(&mut world, "go"), vec!["t1", "t2"]);
    assert_eq!(titles(&mut world, "rust"), vec!["t1"]);
    assert_eq!(titles(&mut world, "Go"), Vec::<String>::new());
    assert_eq!(titles(&mut world, "g"), Vec::<String>::new());
    assert_eq!(titles(&mut world, ""), Vec::<String>::new());
    let find = |store: &mut MemoryStore, collection, filter| {
        store.perform(&StoreRequest::FindOne { collection, filter })
    };
    assert!(matches!(
        find(&mut world.store, Collection::Tasks, Filter::All),
        StoreResponse::One(Some(Record::Task(t))) if t.id == "1"
    ));
    assert!(matches!(
        find(&mut world.store, Collection::Tasks, Filter::Id(text("3"))),
        StoreResponse::One(Some(Record::Task(t))) if t.title == "t3"
    ));
    assert_eq!(
        find(&mut world.store, Collection::Tasks, Filter::Id(text("4"))),
        StoreResponse::One(None)
    );
    // a task has no name of a user, and is no proposal
    assert_eq!(
        find(&mut world.store, Collection::Tasks, Filter::UserName(text("t1"))),
        StoreResponse::One(None)
    );
    assert_eq!(
        find(&mut world.store, Collection::Tasks, Filter::Pending(text("1"))),
        StoreResponse::One(None)
    );
    assert_eq!(
        find(&mut world.store, Collection::Deals, Filter::All),
        StoreResponse::One(None)
    );
}

#[test]
fn a_change_touches_one_document_in_one_collection() {
    let mut world = World::new();
    world.ask(proposal());
    world.ask(Request::AddMilestones(vec![milestone("1", 40)]));
    world.ask(Request::ApproveProposal(text("1")));
    let before = world.store.proposals.clone_records();
    let reply = world.ask(Request::UpdateDeal { deal_id: text("1"), transaction_id: text("0xabc") });
    assert_eq!(reply.status, 201);
    assert_eq!(world.store.proposals, before);
    assert_eq!(world.ask(Request::UpdateDeal { deal_id: text("2"), transaction_id: text("x") }).status, 404);
    // recording a delivery on a deal leaves the deal as it reads
    let deal = world.store.deals.clone_records();
    let delivery = world.state.db.submit_milestones(&text("1"), &text("1"), &text("l"), &vec![]);
    let freelance_market::store::Step::Call(call) = delivery else { panic!("no call") };
    assert!(matches!(world.store.perform(&call), StoreResponse::One(Some(Record::Deal(_)))));
    assert_eq!(world.store.deals, deal);
    // a negative price would leave a proposal that cannot be read
    let negative = StoreRequest::FindOneAndUpdate {
        collection: Collection::Proposals,
        filter: Filter::Id(text("1")),
        update: Update::Milestones { ids: vec![], price: -1 },
    };
    assert_eq!(
        world.store.perform(&negative),
        StoreResponse::Failed(text("the document cannot be read as one of this collection"))
    );
    assert_eq!(world.store.proposals, before);
}

trait CloneRecords {
    fn clone_records(&self) -> Vec<Record>;
}

impl CloneRecords for Vec<Record> {
    fn clone_records(&self) -> Vec<Record> {
        self.iter().map(|r| r.clone()).collect()
    }
}

#[test]
fn no_request_takes_more_than_five_calls() {
    let state = state();
    let token = generate_token(text("1"), None, "secret", NOW).unwrap();
    let requests = vec![
        client("alice", "p"),
        freelancer("bob"),
        task("t", &[]),
        proposal(),
        Request::AddMilestones(vec![milestone("1", 1)]),
        Request::ApproveProposal(text("1")),
        Request::UpdateDeal { deal_id: text("1"), transaction_id: text("a") },
        review("1", "r", 1),
        Request::ListDeals,
        Request::GetProposal(text("1")),
        login("client", "alice", "p"),
    ];
    let mut store = MemoryStore::new();
    for request in &requests {
        let mut answers = vec![];
        let mut calls = 0;
        while let Served::Call(call) = serve(&state, request, Some(&token), &answers, NOW) {
            answers.push(store.perform(&call));
            calls += 1;
            assert!(calls <= 5);
        }
    }
    assert_eq!(store.deals.len(), 1);
}
