use gymspace::feature::branch::branch_model::{CreateBranchRequest, UpdateBranchRequest};
use gymspace::feature::coach::coach_model::{CreateCoachRequest, UpdateCoachRequest};
use gymspace::feature::member::member_model::{CreateMemberRequest, UpdateMemberRequest};
use gymspace::feature::permission::permission_model::AssignPermissionRequest;
use gymspace::feature::sse::sse_model::{
    RegisterSse, SendBroadcastRequest, SendMessageResponse, SendToUserChannel, SendToUserRequest,
    SubscribeToTopicRequest,
};
use gymspace::feature::stock::stock_model::UpdateStockRequest;
use gymspace::feature::thread::thread_model::{CreatedThreadRequest, UpdateThreadRequest};
use gymspace::feature::threads::threads_model::{
    CreateCommentRequest, CreateNewThreadRequest, CreateVoteRequest,
    UpdateThreadRequest as UpdateThreadsRequest,
};
use gymspace::feature::user::user_model::ChangePasswordRequest;
use gymspace::validation::{check_email, check_exact_len, check_min_len, check_opt_min_len, FieldError, Rule};

fn fields(errs: &[FieldError]) -> Vec<(String, Rule)> {
    errs.iter().map(|e| (e.field.clone(), e.rule)).collect()
}

fn s(x: &str) -> String {
    x.to_string()
}

#[test]
fn length_checks_count_characters() {
    assert!(check_min_len(&s("abc"), 3));
    assert!(!check_min_len(&s("ab"), 3));
    // Characters, not bytes: four characters in nine bytes.
    assert!(!check_min_len(&s("ééé"), 4));
    assert!(check_exact_len(&s("ééé"), 3));
    assert!(check_opt_min_len(&None, 1));
    assert!(!check_opt_min_len(&Some(s("")), 1));
    assert!(check_opt_min_len(&Some(s("x")), 1));
}

#[test]
fn email_check_follows_validator() {
    assert!(check_email(&s("coach@gym.id")));
    assert!(!check_email(&s("coach.gym.id")));
    assert!(!check_email(&s("")));
    assert!(!check_email(&s("@gym.id")));
}

#[test]
fn sse_register_needs_both_ids() {
    assert!(RegisterSse { device_id: s("d"), user_id: s("u") }.validate().is_ok());
    let errs = RegisterSse { device_id: s(""), user_id: s("") }.validate().unwrap_err();
    assert_eq!(fields(&errs), vec![(s("device_id"), Rule::Length), (s("user_id"), Rule::Length)]);
}

#[test]
fn sse_send_to_user_reports_fields_in_order() {
    let req = SendToUserRequest { user_id: s(""), device_id: s("d"), event_name: s(""), message: s("m") };
    let errs = req.validate().unwrap_err();
    assert_eq!(fields(&errs), vec![(s("user_id"), Rule::Length), (s("event_name"), Rule::Length)]);
}

#[test]
fn sse_other_bodies() {
    assert!(SendToUserChannel { user_id: s("u"), event_name: s("e"), message: s("m") }.validate().is_ok());
    assert_eq!(
        fields(&SendToUserChannel { user_id: s("u"), event_name: s("e"), message: s("") }.validate().unwrap_err()),
        vec![(s("message"), Rule::Length)]
    );
    assert!(SendBroadcastRequest { event_name: s("e"), message: s("m") }.validate().is_ok());
    assert!(SendBroadcastRequest { event_name: s(""), message: s("m") }.validate().is_err());
    assert!(SendMessageResponse { message: s("ok") }.validate().is_ok());
    assert!(SendMessageResponse { message: s("") }.validate().is_err());
    assert!(SubscribeToTopicRequest { user_id: s("u"), topic: s("t") }.validate().is_ok());
    assert_eq!(
        fields(&SubscribeToTopicRequest { user_id: s("u"), topic: s("") }.validate().unwrap_err()),
        vec![(s("topic"), Rule::Length)]
    );
}

#[test]
fn permission_ids_need_exactly_24_characters() {
    let id = s("65a1b2c3d4e5f60718293a4b");
    assert!(AssignPermissionRequest { user_id: id.clone(), permission_id: id.clone() }.validate().is_ok());
    let errs = AssignPermissionRequest { user_id: s("65a1"), permission_id: format!("{}0", id) }
        .validate()
        .unwrap_err();
    assert_eq!(fields(&errs), vec![(s("user_id"), Rule::Length), (s("permission_id"), Rule::Length)]);
}

#[test]
fn stock_update_needs_product() {
    assert!(UpdateStockRequest { product_id: s("p"), stock: -3 }.validate().is_ok());
    assert!(UpdateStockRequest { product_id: s(""), stock: 3 }.validate().is_err());
}

#[test]
fn change_password_needs_seven_characters() {
    assert!(ChangePasswordRequest { current_password: s("1234567"), new_password: s("abcdefg") }.validate().is_ok());
    let errs = ChangePasswordRequest { current_password: s("123456"), new_password: s("abc") }
        .validate()
        .unwrap_err();
    assert_eq!(fields(&errs), vec![(s("current_password"), Rule::Length), (s("new_password"), Rule::Length)]);
}

#[test]
fn branch_needs_name_and_description() {
    let ok = CreateBranchRequest {
        branch_name: s("Gym"),
        branch_description: s("Main"),
        branch_email: None,
        branch_phone_number: None,
        branch_address: None,
    };
    assert!(ok.validate().is_ok());
    let bad = UpdateBranchRequest {
        branch_name: s(""),
        branch_description: s(""),
        branch_email: Some(s("x")),
        branch_phone_number: None,
        branch_address: None,
    };
    assert_eq!(
        fields(&bad.validate().unwrap_err()),
        vec![(s("branch_name"), Rule::Length), (s("branch_description"), Rule::Length)]
    );
}

#[test]
fn coach_creation_checks_email_and_gender() {
    let req = CreateCoachRequest {
        full_name: s(""),
        email: s("coach@gym.id"),
        phone_number: s(""),
        coach_address: s(""),
        gender: s("M"),
    };
    assert!(req.validate(true).is_ok());
    assert_eq!(fields(&req.validate(false).unwrap_err()), vec![(s("gender"), Rule::Custom)]);
    let bad = CreateCoachRequest { email: s("nope"), ..req };
    assert_eq!(
        fields(&bad.validate(false).unwrap_err()),
        vec![(s("email"), Rule::Email), (s("gender"), Rule::Custom)]
    );
}

#[test]
fn coach_update_checks_gender_only_when_given() {
    let none = UpdateCoachRequest { full_name: None, email: None, phone_number: None, coach_address: None, gender: None };
    assert!(none.validate(false).is_ok());
    let given = UpdateCoachRequest { gender: Some(s("X")), ..none };
    assert!(given.validate(true).is_ok());
    assert_eq!(fields(&given.validate(false).unwrap_err()), vec![(s("gender"), Rule::Custom)]);
}

#[test]
fn member_creation_rules() {
    let req = CreateMemberRequest {
        full_name: s(""),
        gender: None,
        email: None,
        identity_number: None,
        coach_id: None,
        phone_number: None,
    };
    assert_eq!(fields(&req.validate(false).unwrap_err()), vec![(s("full_name"), Rule::Length)]);
    let gendered = CreateMemberRequest { full_name: s("Ana"), gender: Some(s("?")), ..req };
    assert_eq!(fields(&gendered.validate(false).unwrap_err()), vec![(s("gender"), Rule::Custom)]);
    assert!(gendered.validate(true).is_ok());
    let upd = UpdateMemberRequest {
        full_name: None,
        gender: Some(s("?")),
        email: None,
        identity_number: None,
        coach_id: None,
        phone_number: None,
    };
    assert!(upd.validate(true).is_ok());
    assert!(upd.validate(false).is_err());
}

#[test]
fn thread_bodies() {
    let created = CreatedThreadRequest {
        quote_thread_id: None,
        reply_to_thread_id: None,
        slug: s("a"),
        title: s(""),
        content: s("c"),
        attachment: vec![],
    };
    assert_eq!(fields(&created.validate().unwrap_err()), vec![(s("title"), Rule::Length)]);
    let update = UpdateThreadRequest {
        quote_thread_id: None,
        slug: None,
        title: Some(s("")),
        content: None,
        new_attachment: vec![],
        removed_attachment: vec![],
    };
    assert_eq!(fields(&update.validate().unwrap_err()), vec![(s("title"), Rule::Length)]);
    let untouched = UpdateThreadRequest { title: None, ..update };
    assert!(untouched.validate().is_ok());
}

#[test]
fn threads_bodies() {
    assert!(CreateNewThreadRequest { quote_thread_id: None, title: s("t"), content: s(""), mentions: None, tags: None }
        .validate()
        .is_ok());
    assert!(CreateNewThreadRequest { quote_thread_id: None, title: s(""), content: s("c"), mentions: None, tags: None }
        .validate()
        .is_err());
    assert!(UpdateThreadsRequest { quote_thread_id: s(""), title: s(""), content: s(""), mentions: None, tags: None }
        .validate()
        .is_err());
    assert!(CreateCommentRequest { thread_id: s("t"), content: s(""), comment_id: None, tags: None, mentions: None }
        .validate()
        .is_ok());
    assert_eq!(
        fields(&CreateCommentRequest { thread_id: s(""), content: s("c"), comment_id: None, tags: None, mentions: None }
            .validate()
            .unwrap_err()),
        vec![(s("thread_id"), Rule::Length)]
    );
    assert!(CreateVoteRequest { ref_id: s("r"), vote_type: s("UpVote") }.validate().is_ok());
    assert!(CreateVoteRequest { ref_id: s(""), vote_type: s("UpVote") }.validate().is_err());
}
