use gymspace::feature::auth::auth::{change_password_hash, verify_password};
use gymspace::feature::auth::forgot_password::{reset_issue_time_readable, reset_password_hash};
use gymspace::feature::auth::sign_up::{
    new_credential, new_credential_with_hash, sign_up_password_hash, CredentialStatus,
};
use gymspace::feature::member::member::{
    plan_subscription_change, SubscriptionChange, MEMBERSHIP_PURCHASE_NOTE, MEMBERSHIP_SWITCH_NOTE,
};
use gymspace::feature::thread::thread_model::UpdateThreadRequest as ThreadTextUpdate;
use gymspace::feature::thread::ThreadDetails;
use gymspace::feature::auth::verify_otp_session_user;
use gymspace::feature::coach::coach_model::UpdateCoachRequest;
use gymspace::feature::event::{EventConfig, EventConfigUpdate};
use gymspace::feature::thread::thread_model::CreatedThreadRequest;
use gymspace::feature::transaction::transaction::billed_cart_lines;
use gymspace::feature::thread::{down_vote_step, upvote_step, ThreadVoteStep};
use gymspace::feature::dashboard::{group_trend, plan_dashboard_trends};
use gymspace::feature::event::event_model::{UpdateEventLocationRequest, UpdateEventRequest};
use gymspace::feature::event::{
    event_password_change, event_password_with_hash, plan_event_image, EventDetails, StoredImage, VenueLocation,
};
use gymspace::feature::file::file::{
    plan_named_picture, plan_picture, storage_key, StoredFile, UploadedFile,
};
use gymspace::feature::invitation::invitation_model::InvitationRequest;
use gymspace::feature::invitation::plan_invitations;
use gymspace::feature::member::member::{has_progress_parts, membership_detail_note};
use gymspace::feature::member::member_model::UpdateMemberRequest;
use gymspace::feature::report::{daily_report_html, DAILY_REPORT_END, DAILY_REPORT_HEAD};
use gymspace::object_id::parse_object_id;
use gymspace::text::index_of_text;

const ID_A: &str = "65a1b2c3d4e5f60718293a4b";

fn s(x: &str) -> String {
    x.to_string()
}

// 2000-01-12 01:02:03.004 UTC and a few hours later the same day; then the next day.
const JAN_12: i64 = 947_638_923_004;
const JAN_12_LATER: i64 = 947_638_923_004 + 3_600_000;
const JAN_13: i64 = 947_638_923_004 + 86_400_000;

#[test]
fn trend_days_follow_utc_calendar() {
    let plan = plan_dashboard_trends(&vec![0, -1, JAN_12], &vec![true, true, true]);
    assert_eq!(plan.membership.days, vec![s("1970-01-01"), s("1969-12-31"), s("2000-01-12")]);
    assert_eq!(plan.membership.group_of, vec![Some(0), Some(1), Some(2)]);
    assert!(plan.others.days.is_empty());
    assert_eq!(plan.others.group_of, vec![None, None, None]);
}

#[test]
fn trend_points_group_by_day_and_kind() {
    let millis = vec![JAN_12, JAN_13, JAN_12_LATER, JAN_13, i64::MAX];
    let membership = vec![true, false, true, true, true];
    let plan = plan_dashboard_trends(&millis, &membership);
    assert_eq!(plan.membership.days, vec![s("2000-01-12"), s("2000-01-13")]);
    assert_eq!(plan.membership.group_of, vec![Some(0), None, Some(0), Some(1), None]);
    assert_eq!(plan.others.days, vec![s("2000-01-13")]);
    assert_eq!(plan.others.group_of, vec![None, Some(0), None, None, None]);
}

#[test]
fn trend_grouping_on_given_days() {
    let days = vec![Some(s("b")), None, Some(s("a")), Some(s("b")), Some(s("a"))];
    let flags = vec![false, false, false, true, false];
    let plan = group_trend(&days, &flags, false);
    assert_eq!(plan.days, vec![s("b"), s("a")]);
    assert_eq!(plan.group_of, vec![Some(0), None, Some(1), None, Some(1)]);
}

#[test]
fn daily_report_without_products_is_closed_at_once() {
    let page = daily_report_html(false);
    assert_eq!(page, format!("{}{}", DAILY_REPORT_HEAD, DAILY_REPORT_END));
    assert!(page.starts_with("\n        <!doctype html>"));
    assert!(page.ends_with("<div>M</div></body></html>"));
}

#[test]
fn daily_report_lists_three_empty_tables() {
    let page = daily_report_html(true);
    let cash = page.find("<p>Cash</p>").unwrap();
    let transfer = page.find("<p>Transfer</p>").unwrap();
    let stock = page.find("<p>Stock Opname Produk</p>").unwrap();
    assert!(cash < transfer && transfer < stock);
    assert!(!page.contains("<tr><td>"));
    assert!(!page.contains("</body>"));
    assert!(page.ends_with("</table>\n    "));
}

#[test]
fn storage_keys() {
    assert_eq!(storage_key("ev1", "ev1.png"), "ev1/ev1.png");
    assert_eq!(storage_key("", "x"), "/x");
}

fn stored(name: &str, kind: &str) -> StoredFile {
    StoredFile { filename: s(name), mime_type: s("image/png"), extension: s("png"), kind: s(kind) }
}

fn upload() -> UploadedFile {
    UploadedFile { filename: s("new"), mime_type: s("image/jpeg"), extension: s("jpg") }
}

#[test]
fn member_picture_replaces_existing() {
    let plan = plan_picture(&Some(stored("old", "MEMBER")), &upload(), "MEMBER");
    assert_eq!(plan.delete_name, Some(s("old")));
    assert_eq!(plan.upload_name, "new");
    assert!(!plan.inserts);
    assert_eq!(plan.record.filename, "new");
    assert_eq!(plan.record.mime_type, "image/png");
    assert_eq!(plan.record.extension, "jpg");
    assert_eq!(plan.record.kind, "MEMBER");
    // The answer is the record as it was.
    assert_eq!(plan.answer.filename, "old");
    assert_eq!(plan.answer.mime_type, "image/png");
}

#[test]
fn account_picture_is_created_when_missing() {
    let plan = plan_picture(&None, &upload(), "USER");
    assert_eq!(plan.record.mime_type, "image/jpeg");
    assert_eq!(plan.delete_name, None);
    assert_eq!(plan.upload_name, "new");
    assert!(plan.inserts);
    assert_eq!(plan.record.kind, "USER");
    assert_eq!(plan.answer.filename, "new");
}

#[test]
fn coach_picture_keeps_existing_name() {
    let plan = plan_named_picture(&Some(stored("coach-1.png", "COACH")), &upload(), "COACH");
    assert_eq!(plan.delete_name, Some(s("coach-1.png")));
    assert_eq!(plan.upload_name, "coach-1.png");
    assert_eq!(plan.record.filename, "coach-1.png");
    assert_eq!(plan.record.mime_type, "image/png");
    assert!(!plan.inserts);
}

#[test]
fn product_image_without_existing_uses_dotted_name() {
    let plan = plan_named_picture(&None, &upload(), "USER");
    assert_eq!(plan.upload_name, "new.jpg");
    assert_eq!(plan.record.filename, "new");
    assert_eq!(plan.record.kind, "USER");
    assert!(plan.inserts);
}

#[test]
fn event_image_plans() {
    let fresh = plan_event_image(&None, "ev1", ".png");
    assert_eq!(fresh.delete_key, None);
    assert_eq!(fresh.upload_key, "ev1/ev1.png");
    assert_eq!(fresh.image.path, "ev1");
    assert_eq!(fresh.image.file_name, "ev1.png");
    assert!(fresh.inserts);
    let existing = StoredImage { path: s("old-dir"), file_name: s("old.jpg") };
    let again = plan_event_image(&Some(existing), "ev1", "png");
    assert_eq!(again.delete_key, Some(s("old-dir/old.jpg")));
    assert_eq!(again.upload_key, "ev1/ev1png");
    assert_eq!(again.image.path, "old-dir");
    assert_eq!(again.image.file_name, "ev1png");
    assert!(!again.inserts);
}

#[test]
fn event_data_update() {
    let mut event = EventDetails {
        event_name: s("Yoga"),
        event_description: s("Morning"),
        status: s("DRAFT"),
        theme_id: None,
    };
    let update = UpdateEventRequest {
        theme_id: parse_object_id(ID_A),
        event_name: None,
        event_description: Some(s("Evening")),
        status: Some(s("PUBLISHED")),
        datetime: Some(s("2024-01-01")),
    };
    let fields = update.apply_to(&mut event);
    assert_eq!(fields, vec![s("event_description"), s("status"), s("theme_id")]);
    assert_eq!(event.event_name, "Yoga");
    assert_eq!(event.event_description, "Evening");
    assert_eq!(event.status, "PUBLISHED");
    assert_eq!(event.theme_id.unwrap().bytes[0], 0x65);
    let nothing = UpdateEventRequest {
        theme_id: None,
        event_name: None,
        event_description: None,
        status: None,
        datetime: Some(s("ignored")),
    };
    let mut same = EventDetails { event_name: s("A"), event_description: s("B"), status: s("C"), theme_id: None };
    assert!(nothing.apply_to(&mut same).is_empty());
    assert_eq!(same.event_name, "A");
}

#[test]
fn event_password_is_stored_plain_and_shown_hashed() {
    assert!(event_password_change(&None).is_none());
    assert!(event_password_change(&Some(s(""))).is_none());
    let (stored, shown) = event_password_change(&Some(s("rahasia"))).unwrap();
    assert_eq!(stored, "rahasia");
    assert_ne!(shown, "rahasia");
    assert!(bcrypt::verify("rahasia", &shown).unwrap());
}

#[test]
fn changed_password_verifies() {
    let stored = bcrypt::hash("lama1234", 4).unwrap();
    let fresh = change_password_hash("lama1234", "baru5678", &stored).unwrap();
    assert!(verify_password("baru5678", &fresh));
    assert!(!verify_password("lama1234", &fresh));
}

#[test]
fn invitations_are_planned_per_user() {
    let users = vec![
        InvitationRequest { expired_at: s("2024-01-01T00:00:00Z"), user_id: s(ID_A) },
        InvitationRequest { expired_at: s(""), user_id: s("bad") },
    ];
    let plan = plan_invitations("Ana", "mengundang Anda ke Yoga", &users);
    assert_eq!(plan.len(), 2);
    assert_eq!(plan[0].user_id.as_ref().unwrap().bytes[11], 0x4b);
    assert!(plan[1].user_id.is_none());
    assert_eq!(plan[1].title, "Ana mengundang Anda ke Yoga");
    assert!(plan_invitations("Ana", "x", &vec![]).is_empty());
}

#[test]
fn member_update_writes_given_fields() {
    let update = UpdateMemberRequest {
        full_name: Some(s("Ana")),
        gender: None,
        email: None,
        identity_number: Some(s("123")),
        coach_id: Some(s("not-an-id")),
        phone_number: Some(s("0812")),
    };
    assert_eq!(update.record_fields(), vec![s("full_name"), s("identity_number"), s("phone_number")]);
    let with_coach = UpdateMemberRequest { coach_id: Some(s(ID_A)), ..update };
    assert_eq!(
        with_coach.record_fields(),
        vec![s("full_name"), s("identity_number"), s("coach_id"), s("phone_number")]
    );
}

#[test]
fn membership_notes_and_progress_parts() {
    assert_eq!(membership_detail_note("Gold"), "Paket langganan Gold");
    assert!(has_progress_parts(&vec![s("body-image"), s("data-image")]));
    assert!(!has_progress_parts(&vec![s("data-image")]));
    assert!(!has_progress_parts(&vec![]));
}

#[test]
fn first_matching_index() {
    let list = vec![s("a"), s("b"), s("a")];
    assert_eq!(index_of_text(&list, "a"), Some(0));
    assert_eq!(index_of_text(&list, "b"), Some(1));
    assert_eq!(index_of_text(&list, "c"), None);
}

#[test]
fn thread_vote_steps() {
    assert_eq!(upvote_step(false), ThreadVoteStep::Apply { record: true, delta: 1 });
    assert_eq!(upvote_step(true), ThreadVoteStep::Refused);
    assert_eq!(down_vote_step(true), ThreadVoteStep::Apply { record: false, delta: -1 });
    assert_eq!(down_vote_step(false), ThreadVoteStep::Refused);
}

#[test]
fn reset_issue_time() {
    assert!(reset_issue_time_readable(None));
    assert!(reset_issue_time_readable(Some("not a number")));
    assert!(reset_issue_time_readable(Some("1700000000000")));
    assert!(!reset_issue_time_readable(Some("9223372036854775807")));
}

#[test]
fn event_update_applied_twice_changes_nothing_more() {
    let update = UpdateEventRequest {
        theme_id: None,
        event_name: Some(s("Zumba")),
        event_description: None,
        status: None,
        datetime: None,
    };
    let mut event = EventDetails { event_name: s("Yoga"), event_description: s("x"), status: s("y"), theme_id: None };
    update.apply_to(&mut event);
    let once = (event.event_name.clone(), event.event_description.clone(), event.status.clone());
    update.apply_to(&mut event);
    assert_eq!((event.event_name, event.event_description, event.status), once);
}

#[test]
fn member_update_applied_twice_changes_nothing_more() {
    let update = UpdateMemberRequest {
        full_name: Some(s("Budi")),
        gender: None,
        email: Some(s("b@gym.id")),
        identity_number: None,
        coach_id: Some(s("bad")),
        phone_number: None,
    };
    let member = gymspace::feature::member::member::MemberProfile {
        full_name: s("Ana"),
        email: None,
        gender: Some(s("F")),
        identity_number: None,
        phone_number: None,
        coach_id: parse_object_id(ID_A),
    };
    let once = update.apply_to(&member);
    let twice = update.apply_to(&once);
    assert_eq!(once.full_name, twice.full_name);
    assert_eq!(once.email, twice.email);
    assert_eq!(once.gender, twice.gender);
    assert!(once.coach_id.is_none() && twice.coach_id.is_none());
}

#[test]
fn event_venue_update_keeps_parts_not_given() {
    let mut venue = VenueLocation::unset();
    venue.venue_name = Some(s("Hall A"));
    venue.lat = Some(-6);
    let update = UpdateEventLocationRequest {
        map_id: Some(s("m1")),
        map_details: None,
        venue_name: None,
        venue_address: Some(s("Jl. D")),
        venue_detail: None,
        lat: None,
        lng: Some(106),
    };
    update.apply_to(&mut venue);
    assert_eq!(venue.venue_name, Some(s("Hall A")));
    assert_eq!(venue.venue_address, Some(s("Jl. D")));
    assert_eq!(venue.map_id, Some(s("m1")));
    assert_eq!((venue.lat, venue.lng), (Some(-6), Some(106)));
    assert_eq!(venue.venue_detail, None);
}

#[test]
fn event_password_pair_from_hash() {
    assert_eq!(
        event_password_with_hash(&s("rahasia"), Some(s("$2b$hash"))),
        Some((s("rahasia"), s("$2b$hash")))
    );
    assert_eq!(event_password_with_hash(&s("rahasia"), None), None);
}

#[test]
fn sign_up_and_reset_passwords_are_hashed() {
    let h = sign_up_password_hash("rahasia1").unwrap();
    assert_ne!(h, "rahasia1");
    assert!(bcrypt::verify("rahasia1", &h).unwrap());
    let r = reset_password_hash("baru1234").unwrap();
    assert!(bcrypt::verify("baru1234", &r).unwrap());
    assert!(!bcrypt::verify("rahasia1", &r).unwrap());
}

#[test]
fn sign_up_record() {
    let c = new_credential("ana@gym.id", "rahasia1").unwrap();
    assert_eq!(c.email, "ana@gym.id");
    assert_eq!(c.full_name, "");
    assert_eq!(c.username, "");
    assert_eq!(c.status, CredentialStatus::WaitingConfirmation);
    assert!(bcrypt::verify("rahasia1", &c.password).unwrap());
    let fixed = new_credential_with_hash("b@gym.id", Some(s("$2b$x"))).unwrap();
    assert_eq!((fixed.email, fixed.password), (s("b@gym.id"), s("$2b$x")));
    assert!(new_credential_with_hash("b@gym.id", None).is_none());
}

#[test]
fn thread_text_update() {
    let mut thread = ThreadDetails {
        quote_thread_id: parse_object_id(ID_A),
        slug: s("old-slug"),
        title: s("Old title"),
        content: s("Old content"),
    };
    let title_only = ThreadTextUpdate {
        quote_thread_id: None,
        slug: None,
        title: Some(s("New title")),
        content: None,
        new_attachment: vec![],
        removed_attachment: vec![],
    };
    let fields = title_only.apply_to(&mut thread);
    assert_eq!(fields, vec![s("quote_thread_id"), s("title")]);
    assert!(thread.quote_thread_id.is_none());
    assert_eq!(thread.title, "Old title");
    assert_eq!(thread.content, "New title");
    assert_eq!(thread.slug, "old-slug");
    let both = ThreadTextUpdate {
        quote_thread_id: Some(s(ID_A)),
        slug: Some(s("s")),
        title: Some(s("T")),
        content: Some(s("C")),
        new_attachment: vec![],
        removed_attachment: vec![],
    };
    let fields = both.apply_to(&mut thread);
    assert_eq!(fields, vec![s("quote_thread_id"), s("slug"), s("title"), s("content")]);
    assert_eq!(thread.content, "C");
    assert_eq!(thread.slug, "s");
    assert_eq!(thread.quote_thread_id.unwrap().bytes[0], 0x65);
}

#[test]
fn membership_switch() {
    let current = parse_object_id(ID_A);
    assert_eq!(plan_subscription_change(&None, true, &current), None);
    assert_eq!(plan_subscription_change(&Some(s("bad")), true, &current), None);
    assert_eq!(plan_subscription_change(&Some(s(ID_A)), true, &current), Some(SubscriptionChange::RaiseQuota));
    assert_eq!(plan_subscription_change(&Some(s(ID_A)), false, &current), Some(SubscriptionChange::Subscribe));
    assert_eq!(plan_subscription_change(&Some(s("65a1b2c3d4e5f60718293a4c")), true, &current), None);
    assert_eq!(MEMBERSHIP_PURCHASE_NOTE, "Pembelian paket langganan");
    assert_eq!(MEMBERSHIP_SWITCH_NOTE, "Pembelian pergantian paket langganan");
}

#[test]
fn otp_session_user_must_be_a_record_id() {
    assert_eq!(verify_otp_session_user(ID_A).unwrap().bytes[0], 0x65);
    assert!(verify_otp_session_user("").is_none());
    assert!(verify_otp_session_user("user-1").is_none());
}

#[test]
fn coach_update_writes_given_fields() {
    let update = UpdateCoachRequest {
        full_name: None,
        email: Some(s("c@gym.id")),
        phone_number: Some(s("0812")),
        coach_address: Some(s("Jl. E")),
        gender: Some(s("M")),
    };
    assert_eq!(update.record_fields(), vec![s("email"), s("gender"), s("phone_number")]);
}

#[test]
fn new_thread_moves_counters_of_valid_ids() {
    let req = CreatedThreadRequest {
        quote_thread_id: Some(s(ID_A)),
        reply_to_thread_id: Some(s("nope")),
        slug: s("s"),
        title: s("t"),
        content: s("c"),
        attachment: vec![],
    };
    let bumps = req.counter_bumps();
    assert_eq!(bumps.quoted.unwrap().bytes[11], 0x4b);
    assert!(bumps.replied.is_none());
}

#[test]
fn checkout_bills_stored_lines_with_products() {
    assert_eq!(billed_cart_lines(&vec![true, false, true, true], &vec![true, true, false, true]), vec![0, 3]);
    assert!(billed_cart_lines(&vec![false], &vec![true]).is_empty());
}

#[test]
fn event_config_update() {
    let mut config = EventConfig {
        max_capacity: 10,
        cost_type: s("FREE"),
        cost_currency: s("IDR"),
        approval_required: false,
        auto_reminder: false,
        show_timestamp_activity: false,
        show_guest_name: true,
        show_guest_count: true,
        allow_participant_album: false,
        visibility: s("PUBLIC"),
    };
    let update = EventConfigUpdate {
        max_capacity: Some(50),
        cost_given: true,
        cost_type: Some(s("PAID")),
        cost_currency: None,
        cost_suggested_amount_given: false,
        approval_required: Some(true),
        auto_reminder: None,
        show_timestamp_activity: None,
        show_guest_name: None,
        show_guest_count: Some(false),
        allow_participant_album: Some(true),
        visibility: None,
    };
    let fields = update.apply_to(&mut config);
    assert_eq!(
        fields,
        vec![
            s("cost"),
            s("cost_type"),
            s("approval_required"),
            s("show_guest_count"),
            s("allow_participant_album"),
            s("max_capacity"),
            s("allow_participant_album"),
        ]
    );
    assert_eq!(config.max_capacity, 50);
    assert_eq!(config.cost_type, "PAID");
    assert_eq!(config.cost_currency, "IDR");
    assert!(config.approval_required && config.allow_participant_album && !config.show_guest_count);
    assert_eq!(config.visibility, "PUBLIC");
}
