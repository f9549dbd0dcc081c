use gymspace::decimal::{format_i64, parse_i32, parse_i64, session_i32, session_i64};
use gymspace::feature::branch::branch::BranchProfile;
use gymspace::feature::branch::branch_model::{CreateBranchRequest, UpdateBranchRequest};
use gymspace::feature::coach::coach::{pick, CoachProfile};
use gymspace::feature::coach::coach_model::{CreateCoachRequest, UpdateCoachRequest};
use gymspace::feature::conversation::conversation::{can_send_text, chat_user_id};
use gymspace::feature::dashboard::count_products;
use gymspace::feature::event::event_model::UpdateEventHostRequest;
use gymspace::feature::event::EventHostError;
use gymspace::feature::file::file::{picture_file_name, thread_attachment_file_name};
use gymspace::feature::invitation::invitation_title;
use gymspace::feature::member::member::{copy_key, pick_opt, progress_image_kind, MemberProfile};
use gymspace::feature::member::member_model::{CreateMemberRequest, UpdateMemberRequest};
use gymspace::feature::thread::{is_removal_requested, parse_optional_thread_id, plan_attachments};
use gymspace::feature::threads::threads::{page_window, vote_counter, VoteCounter};
use gymspace::feature::threads::threads_model::{CreateCommentRequest, FilterThreadRequest};
use gymspace::feature::transaction::transaction::{
    plan_add_to_cart, plan_remove_from_cart, CartError, CartPlan, StockMove,
};
use gymspace::feature::user::user::{default_staff_permissions, is_staff_default};
use gymspace::object_id::parse_object_id;

const ID_A: &str = "65a1b2c3d4e5f60718293a4b";
const ID_B: &str = "65A1B2C3D4E5F60718293A4C";

fn s(x: &str) -> String {
    x.to_string()
}

#[test]
fn integers_parse_like_std() {
    assert_eq!(parse_i32("42"), Some(42));
    assert_eq!(parse_i32("+7"), Some(7));
    assert_eq!(parse_i32("-2147483648"), Some(i32::MIN));
    assert_eq!(parse_i32("2147483648"), None);
    assert_eq!(parse_i32(""), None);
    assert_eq!(parse_i32("-"), None);
    assert_eq!(parse_i32(" 1"), None);
    assert_eq!(parse_i32("1a"), None);
    assert_eq!(parse_i64("9223372036854775807"), Some(i64::MAX));
    assert_eq!(parse_i64("-9223372036854775809"), None);
    for text in ["0", "-17", "+00012", "99999999999", "x"] {
        assert_eq!(parse_i64(text), text.parse::<i64>().ok());
        assert_eq!(parse_i32(text), text.parse::<i32>().ok());
    }
}

#[test]
fn session_values_fall_back_to_default() {
    assert_eq!(session_i32(Some("12"), -1), 12);
    assert_eq!(session_i32(Some("abc"), -1), -1);
    assert_eq!(session_i32(None, -1), -1);
    assert_eq!(session_i64(Some("-5"), 0), -5);
    assert_eq!(session_i64(Some(""), 9), 9);
}

#[test]
fn counters_round_trip_through_text() {
    for n in [0i64, 7, -7, 10, 1_700_000_000_123, i64::MIN, i64::MAX] {
        let text = format_i64(n);
        assert_eq!(text, n.to_string());
        assert_eq!(parse_i64(&text), Some(n));
    }
}

#[test]
fn object_ids_are_24_hex_digits() {
    let a = parse_object_id(ID_A).unwrap();
    assert_eq!(a.bytes, vec![0x65, 0xa1, 0xb2, 0xc3, 0xd4, 0xe5, 0xf6, 0x07, 0x18, 0x29, 0x3a, 0x4b]);
    let b = parse_object_id(ID_B).unwrap();
    assert_eq!(b.bytes[11], 0x4c);
    assert_ne!(a.bytes, b.bytes);
    assert_eq!(a.bytes, parse_object_id(&ID_A.to_uppercase()).unwrap().bytes);
    assert!(parse_object_id("65a1b2c3d4e5f60718293a4").is_none());
    assert!(parse_object_id("65a1b2c3d4e5f60718293a4g").is_none());
    assert!(parse_object_id("").is_none());
}

#[test]
fn optional_thread_ids() {
    assert!(parse_optional_thread_id(&None).is_none());
    assert!(parse_optional_thread_id(&Some(s("not-an-id"))).is_none());
    assert_eq!(parse_optional_thread_id(&Some(s(ID_A))).unwrap().bytes[0], 0x65);
}

#[test]
fn event_host_target_checks_event_first() {
    let req = UpdateEventHostRequest { event_id: s("bad"), user_id: s("bad"), role: s("HOST") };
    assert_eq!(req.target().unwrap_err(), EventHostError::EventIdInvalid);
    let req = UpdateEventHostRequest { event_id: s(ID_A), user_id: s("bad"), role: s("HOST") };
    assert_eq!(req.target().unwrap_err(), EventHostError::UserIdInvalid);
    let req = UpdateEventHostRequest { event_id: s(ID_A), user_id: s(ID_B), role: s("HOST") };
    let (e, u) = req.target().unwrap();
    assert_eq!(e.bytes[11], 0x4b);
    assert_eq!(u.bytes[11], 0x4c);
}

#[test]
fn cart_add_refusals() {
    assert_eq!(plan_add_to_cart(0, None, 1), Err(CartError::StockEmpty));
    assert_eq!(plan_add_to_cart(-4, Some(2), 1), Err(CartError::StockEmpty));
    assert_eq!(plan_add_to_cart(2, None, 3), Err(CartError::StockInsufficient));
}

#[test]
fn cart_add_grows_line_and_lowers_stock() {
    assert_eq!(
        plan_add_to_cart(10, None, 3),
        Ok(CartPlan { cart_quantity: 3, creates_line: true, stock_move: StockMove::Decrease(3) })
    );
    assert_eq!(
        plan_add_to_cart(10, Some(2), 3),
        Ok(CartPlan { cart_quantity: 5, creates_line: false, stock_move: StockMove::Decrease(3) })
    );
}

#[test]
fn cart_remove_shrinks_line_and_raises_stock() {
    assert_eq!(
        plan_remove_from_cart(10, Some(5), 3),
        Ok(CartPlan { cart_quantity: 2, creates_line: false, stock_move: StockMove::Increase(3) })
    );
    assert_eq!(
        plan_remove_from_cart(10, None, 3),
        Ok(CartPlan { cart_quantity: 3, creates_line: true, stock_move: StockMove::Increase(3) })
    );
    assert_eq!(plan_remove_from_cart(0, Some(5), 3), Err(CartError::StockEmpty));
    assert_eq!(plan_remove_from_cart(2, Some(5), 3), Err(CartError::StockInsufficient));
}

#[test]
fn cart_add_then_remove_restores_line() {
    let added = plan_add_to_cart(10, Some(4), 3).unwrap();
    // After the add the stock is 7, which still covers the quantity.
    let removed = plan_remove_from_cart(7, Some(added.cart_quantity), 3).unwrap();
    assert_eq!(removed.cart_quantity, 4);
}

#[test]
fn product_counts() {
    let c = count_products(&vec![true, false, false, true, false]);
    assert_eq!(c.total_membership_product, 2);
    assert_eq!(c.total_non_membership_product, 3);
    let empty = count_products(&vec![]);
    assert_eq!((empty.total_membership_product, empty.total_non_membership_product), (0, 0));
}

#[test]
fn staff_permissions_leave_out_admin_areas() {
    assert!(is_staff_default("app::member::read"));
    assert!(!is_staff_default("app::branch::create"));
    assert!(!is_staff_default("app::account"));
    assert!(!is_staff_default("app::admin::all"));
    assert!(is_staff_default("app::adm"));
    let all = vec![s("app::member::read"), s("app::admin::x"), s("app::coach::read"), s("app::branch::y")];
    assert_eq!(default_staff_permissions(&all), vec![s("app::member::read"), s("app::coach::read")]);
    assert!(default_staff_permissions(&vec![]).is_empty());
}

#[test]
fn attachments_split_by_removal() {
    let active = vec![Some(s("a1")), None, Some(s("b2")), Some(s("c3"))];
    let removed = vec![s("files/b2.png")];
    let reserved = vec![s("n9")];
    assert!(is_removal_requested(&s("b2"), &removed));
    assert!(!is_removal_requested(&s("a1"), &removed));
    let plan = plan_attachments(&active, &removed, &reserved);
    assert_eq!(plan.deleted, vec![s("b2"), s("n9")]);
    assert_eq!(plan.kept, vec![s("a1"), s("c3"), s("n9")]);
    let untouched = plan_attachments(&active, &vec![], &vec![]);
    assert!(untouched.deleted.is_empty());
    assert_eq!(untouched.kept, vec![s("a1"), s("b2"), s("c3")]);
}

#[test]
fn thread_filters() {
    let plain = FilterThreadRequest { page: None, size: None, q: Some(s("x")), mentions: None, tags: None };
    assert!(!plain.has_conflicting_filters());
    let mixed = FilterThreadRequest { mentions: Some(vec![s("u")]), ..plain.clone() };
    assert!(mixed.has_conflicting_filters());
    let empty_mentions = FilterThreadRequest { mentions: Some(vec![]), ..plain.clone() };
    assert!(!empty_mentions.has_conflicting_filters());
    let tagged = FilterThreadRequest { q: None, tags: Some(vec![s("t")]), ..plain };
    assert!(tagged.has_conflicting_filters());
}

#[test]
fn thread_pages() {
    assert_eq!(page_window(None, None), (1, 20, 0));
    assert_eq!(page_window(Some(3), Some(10)), (3, 10, 20));
    assert_eq!(page_window(Some(2), None), (2, 20, 20));
}

#[test]
fn votes_and_comment_notices() {
    assert_eq!(vote_counter("UpVote"), VoteCounter::UpVote);
    assert_eq!(vote_counter("DownVote"), VoteCounter::DownVote);
    assert_eq!(vote_counter("upvote"), VoteCounter::DownVote);
    let comment = CreateCommentRequest { thread_id: s("t"), content: s("c"), comment_id: None, tags: None, mentions: None };
    assert_eq!(comment.notification_message(), "Seseorang Mengomentari Postingan Anda.");
    let reply = CreateCommentRequest { comment_id: Some(s("c1")), ..comment };
    assert_eq!(reply.notification_message(), "Seseorang Membalas Komentar Anda.");
}

#[test]
fn coach_updates() {
    let coach = CreateCoachRequest {
        full_name: s("Budi"),
        email: s("budi@gym.id"),
        phone_number: s("0812"),
        coach_address: s("Jl. A"),
        gender: s("M"),
    }
    .to_profile();
    assert_eq!(pick(&s("old"), &None), "old");
    assert_eq!(pick(&s("old"), &Some(s("new"))), "new");
    let upd = UpdateCoachRequest {
        full_name: Some(s("Budi S")),
        email: None,
        phone_number: None,
        coach_address: Some(s("Jl. B")),
        gender: None,
    };
    let after: CoachProfile = upd.apply_to(&coach);
    assert_eq!(after.full_name, "Budi S");
    assert_eq!(after.email, "budi@gym.id");
    assert_eq!(after.phone_number, "0812");
    let twice = upd.apply_to(&after);
    assert_eq!(twice.full_name, after.full_name);
}

#[test]
fn member_updates() {
    let member = MemberProfile {
        full_name: s("Ana"),
        email: Some(s("ana@gym.id")),
        gender: None,
        identity_number: None,
        phone_number: Some(s("0812")),
        coach_id: parse_object_id(ID_A),
    };
    assert_eq!(pick_opt(&None, &None), None);
    assert_eq!(pick_opt(&Some(s("a")), &None), Some(s("a")));
    assert_eq!(copy_key(&member.coach_id).unwrap().bytes, member.coach_id.clone().unwrap().bytes);
    let empty = UpdateMemberRequest {
        full_name: None,
        gender: None,
        email: None,
        identity_number: None,
        coach_id: None,
        phone_number: None,
    };
    let same = empty.apply_to(&member);
    assert_eq!(same.full_name, "Ana");
    assert_eq!(same.email, member.email);
    assert_eq!(same.coach_id.unwrap().bytes, member.coach_id.clone().unwrap().bytes);
    let change = UpdateMemberRequest { gender: Some(s("F")), coach_id: Some(s(ID_B)), ..empty.clone() };
    let changed = change.apply_to(&member);
    assert_eq!(changed.gender, Some(s("F")));
    assert_eq!(changed.coach_id.unwrap().bytes[11], 0x4c);
    let clearing = UpdateMemberRequest { coach_id: Some(s("nobody")), ..empty };
    assert!(clearing.apply_to(&member).coach_id.is_none());
}

#[test]
fn member_creation_needs_a_record_coach_id() {
    let req = CreateMemberRequest {
        full_name: s("Ana"),
        gender: None,
        email: None,
        identity_number: None,
        coach_id: None,
        phone_number: None,
    };
    assert!(req.coach_key().is_none());
    let bad = CreateMemberRequest { coach_id: Some(s("x")), ..req.clone() };
    assert!(bad.coach_key().is_none());
    let good = CreateMemberRequest { coach_id: Some(s(ID_A)), ..req };
    assert_eq!(good.coach_key().unwrap().bytes[0], 0x65);
}

#[test]
fn progress_picture_kinds() {
    assert_eq!(progress_image_kind("data-image"), "MEMBER-PROGRESS");
    assert_eq!(progress_image_kind("body-image"), "MEMBER-BODY-IMAGE");
}

#[test]
fn branch_updates_replace_all_details() {
    let mut branch: BranchProfile = CreateBranchRequest {
        branch_name: s("Gym"),
        branch_description: s("Main"),
        branch_email: Some(s("gym@gym.id")),
        branch_phone_number: Some(s("0812")),
        branch_address: None,
    }
    .to_profile();
    assert_eq!(branch.branch_email, Some(s("gym@gym.id")));
    UpdateBranchRequest {
        branch_name: s("Gym 2"),
        branch_description: s("Second"),
        branch_email: None,
        branch_phone_number: Some(s("0899")),
        branch_address: Some(s("Jl. C")),
    }
    .apply_to(&mut branch);
    assert_eq!(branch.branch_name, "Gym 2");
    assert_eq!(branch.branch_description, "Second");
    assert_eq!(branch.branch_email, None);
    assert_eq!(branch.branch_phone_number, Some(s("0899")));
    assert_eq!(branch.branch_address, Some(s("Jl. C")));
}

#[test]
fn file_names_and_titles() {
    assert_eq!(thread_attachment_file_name("t1", 1_700_000_000_123, "png"), "t1-1700000000123.png");
    assert_eq!(thread_attachment_file_name("t1", -5, ""), "t1--5.");
    assert_eq!(picture_file_name("avatar", "jpg"), "avatar.jpg");
    assert_eq!(invitation_title("Ana", "mengundang Anda"), "Ana mengundang Anda");
}

#[test]
fn chat_sessions() {
    assert_eq!(chat_user_id(Some("15")), Some(15));
    assert_eq!(chat_user_id(Some("-3")), None);
    assert_eq!(chat_user_id(Some("x")), None);
    assert_eq!(chat_user_id(None), None);
    let uuid = "0123456789abcdef0123456789abcdef";
    assert!(can_send_text(Some(1), uuid));
    assert!(!can_send_text(None, uuid));
    assert!(!can_send_text(Some(1), &uuid[1..]));
}
