use freelance_market::error::MyError;
use freelance_market::model::{ClientModel, MilestoneModel, ProposalModel, TaskModel, UserModel};
use freelance_market::reading::read_record;
use freelance_market::response::PartialDealResponse;
use freelance_market::schema::{
    CreateMilestoneSchema, CreateProposalSchema, CreateReviewSchema, CreateTaskSchema,
    CreateUserSchema,
};
use freelance_market::store::{Collection, Filter, Record, Update};
use freelance_market::utils::{
    build_client_document, build_deal_document, build_freelancer_document,
    build_milestone_document, build_milestones_document, build_proposal_document,
    build_review_document, build_task_document, build_user_document, doc_to_client_response,
    doc_to_deal_response, doc_to_detailed_proposal_response, doc_to_freelancer_response,
    doc_to_milestone_response, doc_to_proposal_and_deal_response, doc_to_proposal_response,
    doc_to_review_response, doc_to_task_response, doc_to_user_response, docs_to_deal_response,
    stored_number,
};
use mongodb::bson::{Bson, Document};

fn text(s: &str) -> String {
    s.to_string()
}

fn user() -> CreateUserSchema {
    CreateUserSchema { user_name: text("alice"), description: Some(text("d")), password: text("p") }
}

fn task() -> CreateTaskSchema {
    CreateTaskSchema {
        client_id: text("1"),
        title: text("t1"),
        start_time: text("2025-01-01"),
        deadline: text("2025-02-01"),
        description: text("about"),
        skills: vec![text("rust"), text("verus")],
        bounty: 100,
        proposals_id: None,
    }
}

fn milestone(price: u64) -> CreateMilestoneSchema {
    CreateMilestoneSchema {
        proposal_id: text("1"),
        description: text("m"),
        deadline: text("2025-01-15"),
        price,
    }
}

fn partial(price: u64) -> PartialDealResponse {
    PartialDealResponse {
        task_id: text("t"),
        proposal_id: text("p"),
        freelancer_id: text("f"),
        client_id: text("c"),
        price,
        status: text("Initialized"),
        address: text("0x0"),
    }
}

#[test]
fn the_document_of_a_task_holds_what_was_sent() {
    let document = build_task_document(&task(), text("7")).unwrap();
    assert_eq!(document.len(), 8);
    assert_eq!(document.get_str("_id"), Ok("7"));
    assert_eq!(document.get_str("client_id"), Ok("1"));
    assert_eq!(document.get_str("title"), Ok("t1"));
    assert_eq!(document.get_str("start_time"), Ok("2025-01-01"));
    assert_eq!(document.get_str("deadline"), Ok("2025-02-01"));
    assert_eq!(document.get_str("description"), Ok("about"));
    assert_eq!(document.get_i64("bounty"), Ok(100));
    assert_eq!(
        document.get_array("skills"),
        Ok(&vec![Bson::String(text("rust")), Bson::String(text("verus"))])
    );
    assert!(!document.contains_key("proposals_id"));
    let mut with_proposals = task();
    with_proposals.proposals_id = Some(vec![text("3")]);
    let document = build_task_document(&with_proposals, text("7")).unwrap();
    assert_eq!(document.get_array("proposals_id"), Ok(&vec![Bson::String(text("3"))]));
}

#[test]
fn the_document_of_a_user_holds_the_role_and_a_description() {
    let document = build_user_document(&user(), text("1"), text("given"), text("client")).unwrap();
    assert_eq!(document.get_str("_id"), Ok("1"));
    assert_eq!(document.get_str("role"), Ok("client"));
    assert_eq!(document.get_str("user_name"), Ok("alice"));
    assert_eq!(document.get_str("password"), Ok("p"));
    // what the user sent wins over what is given beside it
    assert_eq!(document.get_str("description"), Ok("d"));
    let mut silent = user();
    silent.description = None;
    let document = build_user_document(&silent, text("1"), text("given"), text("client")).unwrap();
    assert_eq!(document.get_str("description"), Ok("given"));
}

#[test]
fn the_documents_of_clients_and_freelancers_differ_in_role_and_list() {
    let client = build_client_document(&user(), text("1"), text(""), vec![text("9")]).unwrap();
    assert_eq!(client.get_str("role"), Ok("client"));
    assert_eq!(client.get_array("tasks_ids"), Ok(&vec![Bson::String(text("9"))]));
    assert!(!client.contains_key("skills"));
    let freelancer =
        build_freelancer_document(&user(), text("1"), text(""), vec![text("rust")]).unwrap();
    assert_eq!(freelancer.get_str("role"), Ok("freelancer"));
    assert_eq!(freelancer.get_array("skills"), Ok(&vec![Bson::String(text("rust"))]));
    assert!(!freelancer.contains_key("tasks_ids"));
}

#[test]
fn a_new_proposal_is_not_accepted_and_costs_nothing() {
    let body = CreateProposalSchema {
        client_id: text("1"),
        task_id: text("2"),
        freelancer_id: text("3"),
    };
    let document = build_proposal_document(&body, text("4")).unwrap();
    assert_eq!(document.get_str("_id"), Ok("4"));
    assert_eq!(document.get_bool("accepted"), Ok(false));
    assert_eq!(document.get_i64("proposal_price"), Ok(0));
    assert_eq!(document.get_str("client_id"), Ok("1"));
    assert_eq!(document.get_str("task_id"), Ok("2"));
    assert_eq!(document.get_str("freelancer_id"), Ok("3"));
    assert!(!document.contains_key("milestones_id"));
}

#[test]
fn a_new_milestone_has_nothing_handed_in() {
    let document = build_milestone_document(&milestone(40), 12).unwrap();
    assert_eq!(document.get_str("_id"), Ok("12"));
    assert_eq!(document.get_str("status"), Ok("Initialized"));
    assert_eq!(document.get_str("link"), Ok(""));
    assert_eq!(document.get_str("proposal_id"), Ok("1"));
    assert_eq!(document.get_i64("price"), Ok(40));
}

#[test]
fn a_batch_of_milestones_gets_the_identifiers_that_follow() {
    let batch = vec![milestone(40), milestone(60), milestone(1)];
    let documents = build_milestones_document(&batch, 5).unwrap();
    assert_eq!(documents.len(), 3);
    assert_eq!(documents[0].get_str("_id"), Ok("6"));
    assert_eq!(documents[1].get_str("_id"), Ok("7"));
    assert_eq!(documents[2].get_str("_id"), Ok("8"));
    assert_eq!(documents[1].get_i64("price"), Ok(60));
    assert_eq!(build_milestones_document(&vec![], 5).unwrap().len(), 0);
}

#[test]
fn a_price_that_no_document_can_hold_is_an_error() {
    let most = i64::MAX as u64;
    assert_eq!(stored_number(most), Ok(i64::MAX));
    assert_eq!(stored_number(0), Ok(0));
    let error = MyError::MongoSerializeBsonError(text("unsigned integer out of range"));
    assert_eq!(stored_number(most + 1), Err(error.clone()));
    assert!(build_milestone_document(&milestone(most), 1).is_ok());
    assert_eq!(build_milestone_document(&milestone(most + 1), 1), Err(error.clone()));
    assert_eq!(
        build_milestones_document(&vec![milestone(1), milestone(u64::MAX)], 1),
        Err(error.clone())
    );
    assert_eq!(build_deal_document(text("1"), &partial(most + 1)), Err(error));
    assert!(build_deal_document(text("1"), &partial(most)).is_ok());
}

#[test]
fn an_identifier_past_the_largest_is_an_error() {
    let batch = vec![milestone(1), milestone(2)];
    assert!(build_milestones_document(&batch, u64::MAX - 2).is_ok());
    assert_eq!(
        build_milestones_document(&batch, u64::MAX - 1),
        Err(MyError::InvalidIDError(text("18446744073709551614")))
    );
}

#[test]
fn the_document_of_a_deal_holds_the_deal() {
    let document = build_deal_document(text("3"), &partial(100)).unwrap();
    assert_eq!(document.get_str("_id"), Ok("3"));
    assert_eq!(document.get_str("task_id"), Ok("t"));
    assert_eq!(document.get_str("proposal_id"), Ok("p"));
    assert_eq!(document.get_str("freelancer_id"), Ok("f"));
    assert_eq!(document.get_str("client_id"), Ok("c"));
    assert_eq!(document.get_i64("price"), Ok(100));
    assert_eq!(document.get_str("status"), Ok("Initialized"));
    assert_eq!(document.get_str("address"), Ok("0x0"));
    // whatever status is asked for, a new deal has just been made
    let mut closed = partial(100);
    closed.status = text("Closed");
    closed.address = text("0xabc");
    let document = build_deal_document(text("3"), &closed).unwrap();
    assert_eq!(document.get_str("status"), Ok("Initialized"));
    assert_eq!(document.get_str("address"), Ok("0xabc"));
    assert_eq!(document.get_i64("price"), Ok(100));
}

#[test]
fn a_review_gives_five_stars_at_most() {
    let mut body = CreateReviewSchema {
        freelancer_id: text("2"),
        client_id: text("1"),
        deal_id: text("1"),
        review: text("fine"),
        stars: 4,
    };
    assert_eq!(build_review_document(&body, text("1")).unwrap().get_i64("stars"), Ok(4));
    body.stars = 5;
    assert_eq!(build_review_document(&body, text("1")).unwrap().get_i64("stars"), Ok(5));
    body.stars = 6;
    assert_eq!(build_review_document(&body, text("1")).unwrap().get_i64("stars"), Ok(5));
    body.stars = 0;
    assert_eq!(build_review_document(&body, text("1")).unwrap().get_i64("stars"), Ok(0));
    body.stars = u16::MAX;
    let document = build_review_document(&body, text("1")).unwrap();
    assert_eq!(document.get_i64("stars"), Ok(5));
    assert_eq!(document.get_str("review"), Ok("fine"));
    assert_eq!(document.get_str("deal_id"), Ok("1"));
}

#[test]
fn a_document_reads_back_as_what_was_sent() {
    let document = build_task_document(&task(), text("7")).unwrap();
    match read_record(Collection::Tasks, &document) {
        Some(Record::Task(found)) => {
            assert_eq!(found.id, "7");
            assert_eq!(found.title, "t1");
            assert_eq!(found.skills, vec![text("rust"), text("verus")]);
            assert_eq!(found.bounty, 100);
            assert_eq!(found.proposals_id, None);
        }
        other => panic!("unexpected record: {:?}", other),
    }
    let document = build_client_document(&user(), text("1"), text(""), vec![]).unwrap();
    match read_record(Collection::Clients, &document) {
        Some(Record::Client(found)) => {
            assert_eq!(found.user.id, "1");
            assert_eq!(found.user.role, "client");
            assert_eq!(found.user.user_name, "alice");
            assert_eq!(found.user.description, Some(text("d")));
            assert_eq!(found.user.password, "p");
            assert_eq!(found.tasks_ids, Some(vec![]));
        }
        other => panic!("unexpected record: {:?}", other),
    }
    let document = build_milestone_document(&milestone(40), 3).unwrap();
    assert_eq!(
        read_record(Collection::Milestones, &document),
        Some(Record::Milestone(MilestoneModel {
            id: text("3"),
            proposal_id: text("1"),
            description: text("m"),
            deadline: text("2025-01-15"),
            price: 40,
            link: text(""),
            status: text("Initialized"),
        }))
    );
}

#[test]
fn a_document_of_another_shape_does_not_read() {
    let task_document = build_task_document(&task(), text("7")).unwrap();
    assert_eq!(read_record(Collection::Clients, &task_document), None);
    assert_eq!(read_record(Collection::Deals, &task_document), None);
    assert_eq!(read_record(Collection::Tasks, &Document::new()), None);
    // a field of another kind
    let mut document = build_task_document(&task(), text("7")).unwrap();
    document.insert("title", 5i64);
    assert_eq!(read_record(Collection::Tasks, &document), None);
    // a number that the field cannot hold
    let mut document = build_task_document(&task(), text("7")).unwrap();
    document.insert("bounty", 65_536i64);
    assert_eq!(read_record(Collection::Tasks, &document), None);
    document.insert("bounty", 65_535i64);
    assert!(read_record(Collection::Tasks, &document).is_some());
    document.insert("bounty", -1i64);
    assert_eq!(read_record(Collection::Tasks, &document), None);
    // a list that holds something else than texts
    let mut document = build_task_document(&task(), text("7")).unwrap();
    document.insert("skills", vec![Bson::Int64(1)]);
    assert_eq!(read_record(Collection::Tasks, &document), None);
    // a list that may be absent, but not of another kind
    let mut document = build_task_document(&task(), text("7")).unwrap();
    document.insert("proposals_id", "3");
    assert_eq!(read_record(Collection::Tasks, &document), None);
    // a flag of another kind
    let body = CreateProposalSchema {
        client_id: text("1"),
        task_id: text("2"),
        freelancer_id: text("3"),
    };
    let mut document = build_proposal_document(&body, text("4")).unwrap();
    assert!(read_record(Collection::Proposals, &document).is_some());
    document.insert("accepted", "no");
    assert_eq!(read_record(Collection::Proposals, &document), None);
}

#[test]
fn a_filter_names_the_fields_that_must_match() {
    assert_eq!(Filter::All.document(), Document::new());
    let by_id = Filter::Id(text("3")).document();
    assert_eq!(by_id.len(), 1);
    assert_eq!(by_id.get_str("_id"), Ok("3"));
    assert_eq!(Filter::UserName(text("bob")).document().get_str("user_name"), Ok("bob"));
    assert_eq!(Filter::Skill(text("rust")).document().get_str("skills"), Ok("rust"));
    assert_eq!(Filter::Proposal(text("1")).document().get_str("proposal_id"), Ok("1"));
    let milestone =
        Filter::Milestone { proposal_id: text("1"), milestone_id: text("2") }.document();
    assert_eq!(milestone.len(), 2);
    assert_eq!(milestone.get_str("proposal_id"), Ok("1"));
    assert_eq!(milestone.get_str("_id"), Ok("2"));
    let pending = Filter::Pending(text("1")).document();
    assert_eq!(pending.len(), 2);
    assert_eq!(pending.get_str("_id"), Ok("1"));
    assert_eq!(pending.get_bool("accepted"), Ok(false));
}

#[test]
fn an_update_names_the_fields_that_it_sets() {
    let accept = Update::Accept.document();
    assert_eq!(accept.len(), 1);
    assert_eq!(accept.get_bool("accepted"), Ok(true));
    let attach = Update::Milestones { ids: vec![text("1"), text("2")], price: 100 }.document();
    assert_eq!(attach.len(), 2);
    assert_eq!(attach.get_i64("proposal_price"), Ok(100));
    assert_eq!(
        attach.get_array("milestones_id"),
        Ok(&vec![Bson::String(text("1")), Bson::String(text("2"))])
    );
    assert_eq!(Update::Address(text("0xabc")).document().get_str("address"), Ok("0xabc"));
    let link = Update::Link(text("https://x")).document();
    assert_eq!(link.get_str("link"), Ok("https://x"));
    assert_eq!(link.get_str("status"), Ok("Submitted"));
    let no_link = Update::Link(text("")).document();
    assert_eq!(no_link.len(), 1);
    assert_eq!(no_link.get_str("link"), Ok(""));
    let delivery = Update::Delivery { milestone_id: text("2"), link: text("l") }.document();
    assert_eq!(delivery.get_str("milestones"), Ok("2"));
    assert_eq!(delivery.get_str("link"), Ok("l"));
}

fn stored_user(description: Option<&str>) -> UserModel {
    UserModel {
        id: text("1"),
        role: text("client"),
        user_name: text("alice"),
        description: description.map(text),
        password: text("p"),
    }
}

#[test]
fn a_user_is_shown_with_its_description() {
    let shown = doc_to_user_response(&stored_user(Some("d"))).unwrap();
    assert_eq!(shown.id, "1");
    assert_eq!(shown.role, "client");
    assert_eq!(shown.user_name, "alice");
    assert_eq!(shown.description, "d");
    assert_eq!(shown.password, "p");
    assert_eq!(
        doc_to_user_response(&stored_user(None)),
        Err(MyError::MongoDataError(text("description")))
    );
}

#[test]
fn a_missing_list_is_shown_as_an_empty_one() {
    let client = ClientModel { user: stored_user(Some("d")), tasks_ids: None };
    assert_eq!(doc_to_client_response(&client).unwrap().tasks_ids, Vec::<String>::new());
    let client = ClientModel { user: stored_user(Some("d")), tasks_ids: Some(vec![text("4")]) };
    assert_eq!(doc_to_client_response(&client).unwrap().tasks_ids, vec![text("4")]);
    let client = ClientModel { user: stored_user(None), tasks_ids: None };
    assert!(doc_to_client_response(&client).is_err());
    let freelancer = freelance_market::model::FreelancerModel {
        user: stored_user(Some("d")),
        skills: Some(vec![text("rust")]),
    };
    let shown = doc_to_freelancer_response(&freelancer).unwrap();
    assert_eq!(shown.skills, vec![text("rust")]);
    assert_eq!(shown.user.user_name, "alice");
    let stored = TaskModel {
        id: text("1"),
        client_id: text("1"),
        title: text("t"),
        start_time: text("s"),
        deadline: text("e"),
        description: text("d"),
        skills: vec![text("rust")],
        bounty: 9,
        proposals_id: None,
    };
    let shown = doc_to_task_response(&stored).unwrap();
    assert_eq!(shown.proposals_id, Vec::<String>::new());
    assert_eq!(shown.bounty, 9);
    assert_eq!(shown.title, "t");
}

fn stored_proposal() -> ProposalModel {
    ProposalModel {
        id: text("5"),
        client_id: text("1"),
        task_id: text("2"),
        freelancer_id: text("3"),
        milestones_id: Some(vec![text("8"), text("9")]),
        proposal_price: 250,
        accepted: true,
    }
}

#[test]
fn the_deal_of_a_proposal_has_its_price() {
    let (proposal, deal) = doc_to_proposal_and_deal_response(&stored_proposal()).unwrap();
    assert_eq!(proposal.id, "5");
    assert_eq!(proposal.proposal_price, 250);
    assert!(proposal.accepted);
    assert_eq!(proposal.milestones_id, vec![text("8"), text("9")]);
    assert_eq!(deal.proposal_id, "5");
    assert_eq!(deal.task_id, "2");
    assert_eq!(deal.freelancer_id, "3");
    assert_eq!(deal.client_id, "1");
    assert_eq!(deal.price, 250);
    assert_eq!(deal.status, "Initialized");
    assert_eq!(deal.address, "0x0");
    assert_eq!(doc_to_proposal_response(&stored_proposal()).unwrap(), proposal);
}

#[test]
fn what_is_stored_is_shown_as_it_is() {
    let stored = freelance_market::model::DealModel {
        id: text("1"),
        task_id: text("t"),
        proposal_id: text("p"),
        freelancer_id: text("f"),
        client_id: text("c"),
        price: 7,
        status: text("Initialized"),
        address: text("0xabc"),
    };
    let shown = doc_to_deal_response(&stored).unwrap();
    assert_eq!(shown.id, "1");
    assert_eq!(shown.price, 7);
    assert_eq!(shown.address, "0xabc");
    // a deal that has just been stored is shown as it was made, under
    // the identifier of the stored deal
    let mut asked = partial(100);
    asked.status = text("Funded");
    let made = docs_to_deal_response(&stored, &asked).unwrap();
    assert_eq!(made.id, "1");
    assert_eq!(made.price, 100);
    assert_eq!(made.address, "0x0");
    assert_eq!(made.status, "Initialized");
    let stored = MilestoneModel {
        id: text("3"),
        proposal_id: text("1"),
        description: text("m"),
        deadline: text("d"),
        price: 40,
        link: text("l"),
        status: text("Submitted"),
    };
    let shown = doc_to_milestone_response(&stored).unwrap();
    assert_eq!(shown.id, "3");
    assert_eq!(shown.price, 40);
    assert_eq!(shown.link, "l");
    assert_eq!(shown.status, "Submitted");
    let detailed = doc_to_detailed_proposal_response(&stored_proposal(), vec![shown]).unwrap();
    assert_eq!(detailed.id, "5");
    assert_eq!(detailed.milestones.len(), 1);
    assert_eq!(detailed.milestones[0].id, "3");
    assert_eq!(detailed.proposal_price, 250);
    let stored = freelance_market::model::ReviewModel {
        id: text("1"),
        freelancer_id: text("2"),
        client_id: text("3"),
        deal_id: text("4"),
        review: text("fine"),
        stars: 5,
    };
    let shown = doc_to_review_response(&stored).unwrap();
    assert_eq!(shown.id, "1");
    assert_eq!(shown.freelancer_id, "2");
    assert_eq!(shown.client_id, "3");
    assert_eq!(shown.deal_id, "4");
    assert_eq!(shown.review, "fine");
    assert_eq!(shown.stars, 5);
}
