//! From what a request sends to the document that is stored, and from what is
//! stored to what the service shows.

use crate::document::{
    fields_of, FieldValue, new_document, no_fields, put_flag, put_number, put_text, put_texts,
};
use crate::error::{ErrorView, MyError};
use crate::model::{
    ClientModel, ClientView, DealModel, DealView, FreelancerModel, FreelancerView, MilestoneModel,
    MilestoneView, ProposalModel, ProposalView, ReviewModel, TaskModel, TaskView, UserModel,
    UserView,
};
use crate::response::{
    ClientResponse, ClientResponseView, DealResponse, FreelancerResponse, FreelancerResponseView,
    MilestoneResponse, PartialDealResponse, PartialDealView, ProposalDetailedResponse,
    ProposalDetailedView, ProposalResponse, ProposalResponseView, ReviewResponse, TaskResponse,
    TaskResponseView, UserResponse, UserResponseView,
};
use crate::schema::{
    CreateMilestoneSchema, CreateMilestoneView, CreateProposalSchema, CreateProposalView,
    CreateReviewSchema, CreateReviewView, CreateTaskSchema, CreateTaskView, CreateUserSchema,
    CreateUserView,
};
use crate::text::{copy_texts, decimal, decimal_spec, texts};
use mongodb::bson::Document;
use vstd::prelude::*;
use vstd::string::*;

verus! {

/// The largest number that a document can hold.
pub const LARGEST_NUMBER: u64 = 0x7fff_ffff_ffff_ffff;

/// The most stars that a review can give.
pub const MOST_STARS: u16 = 5;

/// The status of a milestone or of a deal that has just been created.
pub const INITIALIZED: &'static str = "Initialized";

/// The status of a milestone whose deliverable has been handed in.
pub const SUBMITTED: &'static str = "Submitted";

/// The address of a deal to which none has been attached yet.
pub const NO_ADDRESS: &'static str = "0x0";

/// `fields`, with `list` under `key` where there is a list.
pub open spec fn with_maybe_texts(
    fields: Map<Seq<char>, FieldValue>,
    key: Seq<char>,
    list: Option<Seq<Seq<char>>>,
) -> Map<Seq<char>, FieldValue> {
    match list {
        Some(l) => fields.insert(key, FieldValue::Texts(l)),
        None => fields,
    }
}

/// Puts `list` under `key` where there is a list.
fn put_maybe_texts(document: &mut Document, key: &str, list: &Option<Vec<String>>)
    ensures
        fields_of(*final(document)) == with_maybe_texts(
            fields_of(*old(document)),
            key@,
            crate::text::maybe_texts(*list),
        ),
{
    match list {
        Some(l) => put_texts(document, key, l),
        None => {},
    }
}

/// The fields that are stored of a user, whatever the role. The description
/// that the user sent wins over the one given beside it.
pub open spec fn user_fields(
    body: CreateUserView,
    id: Seq<char>,
    description: Seq<char>,
    role: Seq<char>,
) -> Map<Seq<char>, FieldValue> {
    no_fields().insert("_id"@, FieldValue::Text(id)).insert("role"@, FieldValue::Text(role)).insert(
        "user_name"@,
        FieldValue::Text(body.user_name),
    ).insert(
        "description"@,
        FieldValue::Text(
            match body.description {
                Some(d) => d,
                None => description,
            },
        ),
    ).insert("password"@, FieldValue::Text(body.password))
}

/// The document that stores a new user.
pub fn build_user_document(
    body: &CreateUserSchema,
    _id: String,
    description: String,
    role: String,
) -> (built: Result<Document, MyError>)
    ensures
        built matches Ok(d) && fields_of(d) == user_fields(body@, _id@, description@, role@),
{
    let mut document = new_document();
    put_text(&mut document, "_id", _id.as_str());
    put_text(&mut document, "role", role.as_str());
    put_text(&mut document, "user_name", body.user_name.as_str());
    match &body.description {
        Some(d) => put_text(&mut document, "description", d.as_str()),
        None => put_text(&mut document, "description", description.as_str()),
    }
    put_text(&mut document, "password", body.password.as_str());
    Ok(document)
}

/// The fields that are stored of a client.
pub open spec fn client_fields(
    body: CreateUserView,
    id: Seq<char>,
    description: Seq<char>,
    task_ids: Seq<Seq<char>>,
) -> Map<Seq<char>, FieldValue> {
    user_fields(body, id, description, "client"@).insert("tasks_ids"@, FieldValue::Texts(task_ids))
}

/// The document that stores a new client.
pub fn build_client_document(
    body: &CreateUserSchema,
    _id: String,
    description: String,
    task_ids: Vec<String>,
) -> (built: Result<Document, MyError>)
    ensures
        built matches Ok(d) && fields_of(d) == client_fields(
            body@,
            _id@,
            description@,
            texts(task_ids@),
        ),
{
    let mut document = build_user_document(body, _id, description, String::from_str("client"))?;
    put_texts(&mut document, "tasks_ids", &task_ids);
    Ok(document)
}

/// The fields that are stored of a freelancer.
pub open spec fn freelancer_fields(
    body: CreateUserView,
    id: Seq<char>,
    description: Seq<char>,
    skills: Seq<Seq<char>>,
) -> Map<Seq<char>, FieldValue> {
    user_fields(body, id, description, "freelancer"@).insert("skills"@, FieldValue::Texts(skills))
}

/// The document that stores a new freelancer.
pub fn build_freelancer_document(
    body: &CreateUserSchema,
    _id: String,
    description: String,
    skills: Vec<String>,
) -> (built: Result<Document, MyError>)
    ensures
        built matches Ok(d) && fields_of(d) == freelancer_fields(
            body@,
            _id@,
            description@,
            texts(skills@),
        ),
{
    let mut document = build_user_document(
        body,
        _id,
        description,
        String::from_str("freelancer"),
    )?;
    put_texts(&mut document, "skills", &skills);
    Ok(document)
}

/// The fields that are stored of a task.
pub open spec fn task_fields(body: CreateTaskView, id: Seq<char>) -> Map<Seq<char>, FieldValue> {
    with_maybe_texts(
        no_fields().insert("_id"@, FieldValue::Text(id)).insert(
            "client_id"@,
            FieldValue::Text(body.client_id),
        ).insert("title"@, FieldValue::Text(body.title)).insert(
            "start_time"@,
            FieldValue::Text(body.start_time),
        ).insert("deadline"@, FieldValue::Text(body.deadline)).insert(
            "description"@,
            FieldValue::Text(body.description),
        ).insert("skills"@, FieldValue::Texts(body.skills)).insert(
            "bounty"@,
            FieldValue::Number(body.bounty as i64),
        ),
        "proposals_id"@,
        body.proposals_id,
    )
}

/// The document that stores a new task.
pub fn build_task_document(body: &CreateTaskSchema, _id: String) -> (built: Result<
    Document,
    MyError,
>)
    ensures
        built matches Ok(d) && fields_of(d) == task_fields(body@, _id@),
{
    let mut document = new_document();
    put_text(&mut document, "_id", _id.as_str());
    put_text(&mut document, "client_id", body.client_id.as_str());
    put_text(&mut document, "title", body.title.as_str());
    put_text(&mut document, "start_time", body.start_time.as_str());
    put_text(&mut document, "deadline", body.deadline.as_str());
    put_text(&mut document, "description", body.description.as_str());
    put_texts(&mut document, "skills", &body.skills);
    put_number(&mut document, "bounty", body.bounty as i64);
    put_maybe_texts(&mut document, "proposals_id", &body.proposals_id);
    Ok(document)
}

/// The fields that are stored of a new proposal: not accepted, without a
/// price and without milestones.
pub open spec fn proposal_fields(body: CreateProposalView, id: Seq<char>) -> Map<
    Seq<char>,
    FieldValue,
> {
    no_fields().insert("_id"@, FieldValue::Text(id)).insert(
        "accepted"@,
        FieldValue::Flag(false),
    ).insert("proposal_price"@, FieldValue::Number(0)).insert(
        "client_id"@,
        FieldValue::Text(body.client_id),
    ).insert("task_id"@, FieldValue::Text(body.task_id)).insert(
        "freelancer_id"@,
        FieldValue::Text(body.freelancer_id),
    )
}

/// The document that stores a new proposal.
pub fn build_proposal_document(body: &CreateProposalSchema, _id: String) -> (built: Result<
    Document,
    MyError,
>)
    ensures
        built matches Ok(d) && fields_of(d) == proposal_fields(body@, _id@),
{
    let mut document = new_document();
    put_text(&mut document, "_id", _id.as_str());
    put_flag(&mut document, "accepted", false);
    put_number(&mut document, "proposal_price", 0);
    put_text(&mut document, "client_id", body.client_id.as_str());
    put_text(&mut document, "task_id", body.task_id.as_str());
    put_text(&mut document, "freelancer_id", body.freelancer_id.as_str());
    Ok(document)
}

/// The fields that are stored of a new deal: what was asked to be stored,
/// but for the status, which is that of a deal that has just been made.
pub open spec fn deal_fields(deal: PartialDealView, id: Seq<char>) -> Map<Seq<char>, FieldValue> {
    no_fields().insert("_id"@, FieldValue::Text(id)).insert(
        "task_id"@,
        FieldValue::Text(deal.task_id),
    ).insert("proposal_id"@, FieldValue::Text(deal.proposal_id)).insert(
        "freelancer_id"@,
        FieldValue::Text(deal.freelancer_id),
    ).insert("client_id"@, FieldValue::Text(deal.client_id)).insert(
        "price"@,
        FieldValue::Number(deal.price as i64),
    ).insert("status"@, FieldValue::Text(INITIALIZED@)).insert(
        "address"@,
        FieldValue::Text(deal.address),
    )
}

/// What is reported of a number that no document can hold.
pub open spec fn number_too_large() -> ErrorView {
    ErrorView::MongoSerializeBsonError("unsigned integer out of range"@)
}

/// The number as a document holds it; an error where it is too large.
pub fn stored_number(value: u64) -> (stored: Result<i64, MyError>)
    ensures
        value <= LARGEST_NUMBER ==> stored is Ok && stored->Ok_0 == value,
        value > LARGEST_NUMBER ==> stored is Err && stored->Err_0@ == number_too_large(),
{
    if value <= LARGEST_NUMBER {
        Ok(value as i64)
    } else {
        Err(too_large())
    }
}

/// The error for a number that no document can hold.
pub fn too_large() -> (error: MyError)
    ensures
        error@ == number_too_large(),
{
    MyError::MongoSerializeBsonError(String::from_str("unsigned integer out of range"))
}

/// The document that stores a new deal, whatever status was asked for, as
/// one that has just been made. A price that no document can hold is an
/// error.
pub fn build_deal_document(_id: String, partial_deal: &PartialDealResponse) -> (built: Result<
    Document,
    MyError,
>)
    ensures
        partial_deal.price <= LARGEST_NUMBER ==> built is Ok && fields_of(built->Ok_0)
            == deal_fields(partial_deal@, _id@),
        partial_deal.price > LARGEST_NUMBER ==> built is Err && built->Err_0@
            == number_too_large(),
{
    let price = stored_number(partial_deal.price)?;
    let mut document = new_document();
    put_text(&mut document, "_id", _id.as_str());
    put_text(&mut document, "task_id", partial_deal.task_id.as_str());
    put_text(&mut document, "proposal_id", partial_deal.proposal_id.as_str());
    put_text(&mut document, "freelancer_id", partial_deal.freelancer_id.as_str());
    put_text(&mut document, "client_id", partial_deal.client_id.as_str());
    put_number(&mut document, "price", price);
    put_text(&mut document, "status", INITIALIZED);
    put_text(&mut document, "address", partial_deal.address.as_str());
    Ok(document)
}

/// The fields that are stored of a new milestone: nothing handed in yet.
pub open spec fn milestone_fields(body: CreateMilestoneView, id: Seq<char>) -> Map<
    Seq<char>,
    FieldValue,
> {
    no_fields().insert("_id"@, FieldValue::Text(id)).insert(
        "status"@,
        FieldValue::Text(INITIALIZED@),
    ).insert("link"@, FieldValue::Text(Seq::empty())).insert(
        "proposal_id"@,
        FieldValue::Text(body.proposal_id),
    ).insert("description"@, FieldValue::Text(body.description)).insert(
        "deadline"@,
        FieldValue::Text(body.deadline),
    ).insert("price"@, FieldValue::Number(body.price as i64))
}

/// The document that stores a new milestone under the identifier `id`,
/// written in decimal. A price that no document can hold is an error.
pub fn build_milestone_document(body: &CreateMilestoneSchema, id: u64) -> (built: Result<
    Document,
    MyError,
>)
    ensures
        body.price <= LARGEST_NUMBER ==> built is Ok && fields_of(built->Ok_0) == milestone_fields(
            body@,
            decimal_spec(id as nat),
        ),
        body.price > LARGEST_NUMBER ==> built is Err && built->Err_0@ == number_too_large(),
{
    let price = stored_number(body.price)?;
    let mut document = new_document();
    put_text(&mut document, "_id", decimal(id).as_str());
    put_text(&mut document, "status", INITIALIZED);
    put_text(&mut document, "link", "");
    put_text(&mut document, "proposal_id", body.proposal_id.as_str());
    put_text(&mut document, "description", body.description.as_str());
    put_text(&mut document, "deadline", body.deadline.as_str());
    put_number(&mut document, "price", price);
    proof {
        reveal_strlit("");
        assert(""@ =~= Seq::<char>::empty());
    }
    Ok(document)
}

/// What each milestone of a batch holds.
pub open spec fn batch_view(batch: Seq<CreateMilestoneSchema>) -> Seq<CreateMilestoneView> {
    Seq::new(batch.len(), |i: int| batch[i]@)
}

/// Whether every price of the batch can be held by a document.
pub open spec fn prices_can_be_stored(batch: Seq<CreateMilestoneView>) -> bool {
    forall|i: int| 0 <= i < batch.len() ==> (#[trigger] batch[i]).price <= LARGEST_NUMBER
}

/// The fields that are stored of each milestone of a batch, where the
/// numbers up to `count` are taken already.
pub open spec fn batch_documents(batch: Seq<CreateMilestoneView>, count: u64) -> Seq<
    Map<Seq<char>, FieldValue>,
> {
    Seq::new(
        batch.len(),
        |i: int| milestone_fields(batch[i], decimal_spec((count + 1 + i) as nat)),
    )
}

/// The documents that store a batch of new milestones. Where the numbers up
/// to `id` are taken, the new ones get the identifiers that follow, in the
/// order of the batch.
///
/// An identifier past the largest `u64` is an error, and so is a price that no
/// document can hold.
pub fn build_milestones_document(body: &Vec<CreateMilestoneSchema>, id: u64) -> (built: Result<
    Vec<Document>,
    MyError,
>)
    ensures
        id + body.len() > u64::MAX ==> built is Err && built->Err_0@ == ErrorView::InvalidIDError(
            decimal_spec(id as nat),
        ),
        id + body.len() <= u64::MAX && !prices_can_be_stored(batch_view(body@)) ==> built is Err
            && built->Err_0@ == number_too_large(),
        id + body.len() <= u64::MAX && prices_can_be_stored(batch_view(body@)) ==> built is Ok
            && crate::store::batch_fields(built->Ok_0@) == batch_documents(batch_view(body@), id),
{
    let count: usize = body.len();
    if count as u64 > u64::MAX - id {
        return Err(MyError::InvalidIDError(decimal(id)));
    }
    let mut documents: Vec<Document> = Vec::new();
    let mut i: usize = 0;
    while i < count
        invariant
            i <= count,
            count == body.len(),
            id + count <= u64::MAX,
            documents.len() == i,
            forall|j: int| 0 <= j < i ==> (#[trigger] body[j]).price <= LARGEST_NUMBER,
            forall|j: int|
                0 <= j < i ==> fields_of(#[trigger] documents[j]) == milestone_fields(
                    body[j]@,
                    decimal_spec((id + 1 + j) as nat),
                ),
        decreases count - i,
    {
        let document = match build_milestone_document(&body[i], id + 1 + i as u64) {
            Ok(document) => document,
            Err(error) => {
                proof {
                    assert(batch_view(body@)[i as int] == body[i as int]@);
                }
                return Err(error);
            },
        };
        documents.push(document);
        i = i + 1;
    }
    proof {
        assert(forall|j: int| 0 <= j < count ==> (#[trigger] batch_view(body@)[j]) == body[j]@);
        assert(crate::store::batch_fields(documents@) =~= batch_documents(batch_view(body@), id));
    }
    Ok(documents)
}

/// The stars of a review as they are stored: at most five.
pub open spec fn stored_stars(stars: u16) -> u16 {
    if stars <= MOST_STARS {
        stars
    } else {
        MOST_STARS
    }
}

/// The fields that are stored of a review.
pub open spec fn review_fields(body: CreateReviewView, id: Seq<char>) -> Map<
    Seq<char>,
    FieldValue,
> {
    no_fields().insert("_id"@, FieldValue::Text(id)).insert(
        "freelancer_id"@,
        FieldValue::Text(body.freelancer_id),
    ).insert("client_id"@, FieldValue::Text(body.client_id)).insert(
        "deal_id"@,
        FieldValue::Text(body.deal_id),
    ).insert("review"@, FieldValue::Text(body.review)).insert(
        "stars"@,
        FieldValue::Number(stored_stars(body.stars) as i64),
    )
}

/// The document that stores a new review. More than five stars are stored as
/// five.
pub fn build_review_document(body: &CreateReviewSchema, _id: String) -> (built: Result<
    Document,
    MyError,
>)
    ensures
        built matches Ok(d) && fields_of(d) == review_fields(body@, _id@),
{
    let stars: u16 = if body.stars <= MOST_STARS {
        body.stars
    } else {
        MOST_STARS
    };
    let mut document = new_document();
    put_text(&mut document, "_id", _id.as_str());
    put_text(&mut document, "freelancer_id", body.freelancer_id.as_str());
    put_text(&mut document, "client_id", body.client_id.as_str());
    put_text(&mut document, "deal_id", body.deal_id.as_str());
    put_text(&mut document, "review", body.review.as_str());
    put_number(&mut document, "stars", stars as i64);
    Ok(document)
}

/// The list, or an empty one where there is none.
pub open spec fn texts_or_none(list: Option<Seq<Seq<char>>>) -> Seq<Seq<char>> {
    match list {
        Some(l) => l,
        None => Seq::empty(),
    }
}

/// A copy of the list, or an empty list where there is none.
pub fn copy_or_empty(list: &Option<Vec<String>>) -> (copy: Vec<String>)
    ensures
        texts(copy@) == texts_or_none(crate::text::maybe_texts(*list)),
{
    match list {
        Some(l) => copy_texts(l),
        None => {
            let copy: Vec<String> = Vec::new();
            assert(texts(copy@) =~= Seq::<Seq<char>>::empty());
            copy
        },
    }
}

/// What is reported of a stored user that has no description.
pub open spec fn no_description() -> ErrorView {
    ErrorView::MongoDataError("description"@)
}

/// A user as it is shown; none where the stored user has no description.
pub open spec fn shown_user(user: UserView) -> Option<UserResponseView> {
    match user.description {
        Some(description) => Some(
            UserResponseView {
                id: user.id,
                role: user.role,
                user_name: user.user_name,
                description,
                password: user.password,
            },
        ),
        None => None,
    }
}

/// Shows a stored user. A stored user without a description cannot be shown.
pub fn doc_to_user_response(user: &UserModel) -> (shown: Result<UserResponse, MyError>)
    ensures
        match shown_user(user@) {
            Some(expected) => shown is Ok && shown->Ok_0@ == expected,
            None => shown is Err && shown->Err_0@ == no_description(),
        },
{
    match &user.description {
        Some(description) => Ok(
            UserResponse {
                id: user.id.clone(),
                role: user.role.clone(),
                user_name: user.user_name.clone(),
                description: description.clone(),
                password: user.password.clone(),
            },
        ),
        None => Err(MyError::MongoDataError(String::from_str("description"))),
    }
}

/// A client as it is shown; none where the stored user has no description.
pub open spec fn shown_client(client: ClientView) -> Option<ClientResponseView> {
    match shown_user(client.user) {
        Some(user) => Some(ClientResponseView { user, tasks_ids: texts_or_none(client.tasks_ids) }),
        None => None,
    }
}

/// Shows a stored client. One without a list of tasks is shown with an empty
/// list.
pub fn doc_to_client_response(client: &ClientModel) -> (shown: Result<ClientResponse, MyError>)
    ensures
        match shown_client(client@) {
            Some(expected) => shown is Ok && shown->Ok_0@ == expected,
            None => shown is Err && shown->Err_0@ == no_description(),
        },
{
    let user = doc_to_user_response(&client.user)?;
    Ok(ClientResponse { user, tasks_ids: copy_or_empty(&client.tasks_ids) })
}

/// A freelancer as it is shown; none where the stored user has no
/// description.
pub open spec fn shown_freelancer(freelancer: FreelancerView) -> Option<FreelancerResponseView> {
    match shown_user(freelancer.user) {
        Some(user) => Some(
            FreelancerResponseView { user, skills: texts_or_none(freelancer.skills) },
        ),
        None => None,
    }
}

/// Shows a stored freelancer. One without a list of skills is shown with an
/// empty list.
pub fn doc_to_freelancer_response(freelancer: &FreelancerModel) -> (shown: Result<
    FreelancerResponse,
    MyError,
>)
    ensures
        match shown_freelancer(freelancer@) {
            Some(expected) => shown is Ok && shown->Ok_0@ == expected,
            None => shown is Err && shown->Err_0@ == no_description(),
        },
{
    let user = doc_to_user_response(&freelancer.user)?;
    Ok(FreelancerResponse { user, skills: copy_or_empty(&freelancer.skills) })
}

/// A task as it is shown.
pub open spec fn shown_task(task: TaskView) -> TaskResponseView {
    TaskResponseView {
        id: task.id,
        client_id: task.client_id,
        title: task.title,
        start_time: task.start_time,
        deadline: task.deadline,
        description: task.description,
        skills: task.skills,
        bounty: task.bounty,
        proposals_id: texts_or_none(task.proposals_id),
    }
}

/// Shows a stored task. One without a list of proposals is shown with an
/// empty list.
pub fn doc_to_task_response(task: &TaskModel) -> (shown: Result<TaskResponse, MyError>)
    ensures
        shown matches Ok(r) && r@ == shown_task(task@),
{
    Ok(
        TaskResponse {
            id: task.id.clone(),
            client_id: task.client_id.clone(),
            title: task.title.clone(),
            start_time: task.start_time.clone(),
            deadline: task.deadline.clone(),
            description: task.description.clone(),
            skills: copy_texts(&task.skills),
            bounty: task.bounty,
            proposals_id: copy_or_empty(&task.proposals_id),
        },
    )
}

/// A proposal as it is shown.
pub open spec fn shown_proposal(proposal: ProposalView) -> ProposalResponseView {
    ProposalResponseView {
        id: proposal.id,
        client_id: proposal.client_id,
        task_id: proposal.task_id,
        freelancer_id: proposal.freelancer_id,
        milestones_id: texts_or_none(proposal.milestones_id),
        proposal_price: proposal.proposal_price,
        accepted: proposal.accepted,
    }
}

/// Shows a stored proposal. One without a list of milestones is shown with an
/// empty list.
pub fn doc_to_proposal_response(proposal: &ProposalModel) -> (shown: Result<
    ProposalResponse,
    MyError,
>)
    ensures
        shown matches Ok(r) && r@ == shown_proposal(proposal@),
{
    Ok(
        ProposalResponse {
            id: proposal.id.clone(),
            client_id: proposal.client_id.clone(),
            task_id: proposal.task_id.clone(),
            freelancer_id: proposal.freelancer_id.clone(),
            milestones_id: copy_or_empty(&proposal.milestones_id),
            proposal_price: proposal.proposal_price,
            accepted: proposal.accepted,
        },
    )
}

/// A proposal as it is shown together with the given milestones.
pub open spec fn shown_detailed_proposal(
    proposal: ProposalView,
    milestones: Seq<MilestoneView>,
) -> ProposalDetailedView {
    ProposalDetailedView {
        id: proposal.id,
        client_id: proposal.client_id,
        task_id: proposal.task_id,
        freelancer_id: proposal.freelancer_id,
        milestones,
        proposal_price: proposal.proposal_price,
        accepted: proposal.accepted,
    }
}

/// Shows a stored proposal together with its milestones, which the caller
/// has already brought into the form in which they are shown.
pub fn doc_to_detailed_proposal_response(
    proposal: &ProposalModel,
    milestones: Vec<MilestoneResponse>,
) -> (shown: Result<ProposalDetailedResponse, MyError>)
    ensures
        shown matches Ok(r) && r@ == shown_detailed_proposal(
            proposal@,
            crate::response::milestone_views(milestones@),
        ),
{
    Ok(
        ProposalDetailedResponse {
            id: proposal.id.clone(),
            client_id: proposal.client_id.clone(),
            task_id: proposal.task_id.clone(),
            freelancer_id: proposal.freelancer_id.clone(),
            milestones,
            proposal_price: proposal.proposal_price,
            accepted: proposal.accepted,
        },
    )
}

/// Shows a stored deal.
pub fn doc_to_deal_response(deal: &DealModel) -> (shown: Result<DealResponse, MyError>)
    ensures
        shown matches Ok(r) && r@ == deal@,
{
    Ok(
        DealResponse {
            id: deal.id.clone(),
            task_id: deal.task_id.clone(),
            proposal_id: deal.proposal_id.clone(),
            freelancer_id: deal.freelancer_id.clone(),
            client_id: deal.client_id.clone(),
            price: deal.price,
            status: deal.status.clone(),
            address: deal.address.clone(),
        },
    )
}

/// The deal that an accepted proposal gives rise to: for the same task,
/// freelancer and client, at the price that the proposal has at this moment,
/// just created and without a settlement address.
pub open spec fn deal_of_proposal(proposal: ProposalView) -> PartialDealView {
    PartialDealView {
        task_id: proposal.task_id,
        proposal_id: proposal.id,
        freelancer_id: proposal.freelancer_id,
        client_id: proposal.client_id,
        price: proposal.proposal_price,
        status: INITIALIZED@,
        address: NO_ADDRESS@,
    }
}

/// Shows a proposal that has just been accepted, and makes the deal that it
/// gives rise to.
pub fn doc_to_proposal_and_deal_response(proposal: &ProposalModel) -> (shown: Result<
    (ProposalResponse, PartialDealResponse),
    MyError,
>)
    ensures
        shown matches Ok(pair) && pair.0@ == shown_proposal(proposal@) && pair.1@
            == deal_of_proposal(proposal@),
{
    let proposal_response = ProposalResponse {
        id: proposal.id.clone(),
        client_id: proposal.client_id.clone(),
        task_id: proposal.task_id.clone(),
        freelancer_id: proposal.freelancer_id.clone(),
        milestones_id: copy_or_empty(&proposal.milestones_id),
        proposal_price: proposal.proposal_price,
        accepted: proposal.accepted,
    };
    let partial_deal_response = PartialDealResponse {
        task_id: proposal.task_id.clone(),
        proposal_id: proposal.id.clone(),
        freelancer_id: proposal.freelancer_id.clone(),
        client_id: proposal.client_id.clone(),
        price: proposal.proposal_price,
        status: String::from_str(INITIALIZED),
        address: String::from_str(NO_ADDRESS),
    };
    Ok((proposal_response, partial_deal_response))
}

/// A deal as it is stored when it is made, under the identifier `id`: what
/// was asked to be stored, but for the status, which is that of a deal that
/// has just been made.
pub open spec fn deal_with_id(id: Seq<char>, deal: PartialDealView) -> DealView {
    DealView {
        id,
        task_id: deal.task_id,
        proposal_id: deal.proposal_id,
        freelancer_id: deal.freelancer_id,
        client_id: deal.client_id,
        price: deal.price,
        status: INITIALIZED@,
        address: deal.address,
    }
}

/// Shows a deal that has just been stored: the identifier is that of the
/// stored deal, the status that of a deal that has just been made, and
/// everything else is what was asked to be stored.
pub fn docs_to_deal_response(deal: &DealModel, partial_deal: &PartialDealResponse) -> (shown:
    Result<DealResponse, MyError>)
    ensures
        shown matches Ok(r) && r@ == deal_with_id(deal.id@, partial_deal@),
{
    Ok(
        DealResponse {
            id: deal.id.clone(),
            task_id: partial_deal.task_id.clone(),
            proposal_id: partial_deal.proposal_id.clone(),
            freelancer_id: partial_deal.freelancer_id.clone(),
            client_id: partial_deal.client_id.clone(),
            price: partial_deal.price,
            status: String::from_str(INITIALIZED),
            address: partial_deal.address.clone(),
        },
    )
}

/// Shows a stored milestone.
pub fn doc_to_milestone_response(milestone: &MilestoneModel) -> (shown: Result<
    MilestoneResponse,
    MyError,
>)
    ensures
        shown matches Ok(r) && r@ == milestone@,
{
    Ok(
        MilestoneResponse {
            id: milestone.id.clone(),
            proposal_id: milestone.proposal_id.clone(),
            description: milestone.description.clone(),
            deadline: milestone.deadline.clone(),
            price: milestone.price,
            link: milestone.link.clone(),
            status: milestone.status.clone(),
        },
    )
}

/// Shows a stored review.
pub fn doc_to_review_response(review: &ReviewModel) -> (shown: Result<ReviewResponse, MyError>)
    ensures
        shown matches Ok(r) && r@ == review@,
{
    Ok(
        ReviewResponse {
            id: review.id.clone(),
            freelancer_id: review.freelancer_id.clone(),
            client_id: review.client_id.clone(),
            deal_id: review.deal_id.clone(),
            stars: review.stars,
            review: review.review.clone(),
        },
    )
}

} // verus!
