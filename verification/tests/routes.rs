use freelance_market::web::route::{create_router, Handler, Method};

#[test]
fn the_table_has_every_route_once() {
    let routes = create_router();
    assert_eq!(routes.len(), 18);
    for (i, a) in routes.iter().enumerate() {
        for b in routes.iter().skip(i + 1) {
            assert!(a.method != b.method || a.path != b.path);
            assert_ne!(a.handler, b.handler);
        }
    }
    let find = |method: Method, path: &str| {
        routes.iter().find(|r| r.method == method && r.path == path).map(|r| r.handler)
    };
    assert_eq!(find(Method::Post, "/api/login"), Some(Handler::ApiLogin));
    assert_eq!(find(Method::Post, "/api/client"), Some(Handler::AddClient));
    assert_eq!(find(Method::Get, "/api/client"), Some(Handler::ListClients));
    assert_eq!(find(Method::Post, "/api/freelancer"), Some(Handler::AddFreelancer));
    assert_eq!(find(Method::Get, "/api/freelancer"), Some(Handler::ListFreelancers));
    assert_eq!(find(Method::Post, "/api/task"), Some(Handler::CreateTask));
    assert_eq!(find(Method::Get, "/api/task"), Some(Handler::ListTasks));
    assert_eq!(find(Method::Get, "/api/task/:skill"), Some(Handler::GetTask));
    assert_eq!(find(Method::Post, "/api/proposal"), Some(Handler::SubmitProposal));
    assert_eq!(find(Method::Get, "/api/proposal"), Some(Handler::ListProposal));
    assert_eq!(find(Method::Get, "/api/proposal/:proposal_id"), Some(Handler::GetProposal));
    assert_eq!(find(Method::Patch, "/api/proposal/:proposal_id"), Some(Handler::ApproveProposal));
    assert_eq!(find(Method::Post, "/api/milestone"), Some(Handler::AddMilestones));
    assert_eq!(find(Method::Get, "/api/milestone"), Some(Handler::ListMilestone));
    assert_eq!(
        find(Method::Patch, "/api/milestone/:proposal_id/:milestone_id/:link"),
        Some(Handler::SubmitMilestone)
    );
    assert_eq!(find(Method::Get, "/api/deal"), Some(Handler::ListDeals));
    assert_eq!(find(Method::Patch, "/api/deal/:deal_id/:transacion_id"), Some(Handler::UpdateDeal));
    assert_eq!(find(Method::Post, "/api/review"), Some(Handler::AddReview));
    assert_eq!(find(Method::Get, "/api/login"), None);
}

#[test]
fn only_login_and_registration_are_open_to_all() {
    for route in create_router() {
        let open = matches!(
            route.handler,
            Handler::ApiLogin | Handler::AddClient | Handler::AddFreelancer
        );
        assert_eq!(route.guarded, !open);
        assert_eq!(route.handler.guarded(), !open);
    }
}

#[test]
fn reading_is_answered_with_ok_and_writing_with_created() {
    for route in create_router() {
        let expected = match route.method {
            Method::Get => 200,
            _ if route.handler == Handler::ApiLogin => 200,
            _ => 201,
        };
        assert_eq!(route.handler.success_status(), expected);
    }
}
