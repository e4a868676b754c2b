use notifier::discord::action::{parse_action, parse_angle, MalformedAction, ModerationAction};
use notifier::discord::bot::{
    edit_form, plan_interaction, review_panel, settled_buttons, InteractionError, SideEffect,
};
use notifier::discord::guard::ReviewGuard;
use notifier::discord::panel::{
    next_state, read_buttons, render_buttons, Approval, Button, ButtonStyle, PanelState,
};
use notifier::gql::{Dish, Image, Occurrence, Review, Timestamp, Uuid};
use notifier::image::refreshed_link;
use notifier::settings::{Discord, GraphQl, Image as ImageSettings, Mensatt, Settings};

fn settings() -> Settings {
    Settings {
        discord: Discord { token: "SECRET-REDACTED".to_string(), comm_channel: 42, guilds: vec![1] },
        graphql: GraphQl {
            ws_url: "wss://api.example/graphql".to_string(),
            https_url: "https://api.example/graphql".to_string(),
        },
        mensatt: Mensatt {
            occurrence_url: "https://mensa.example/occurrence/".to_string(),
            user: "bot@example.org".to_string(),
            password: "pw".to_string(),
            jwt_threshold_secs: 30,
        },
        image: ImageSettings {
            image_url: "https://img.example/image/".to_string(),
            rotate_url: "https://img.example/rotate".to_string(),
            key: "k3y".to_string(),
        },
    }
}

fn review(id: &str, stars: i32, images: Vec<&str>) -> Review {
    Review {
        id: Uuid(id.to_string()),
        occurrence: Occurrence {
            id: Uuid("occ1".to_string()),
            dish: Dish { name_de: "Schnitzel".to_string() },
        },
        display_name: None,
        stars,
        text: Some("Lecker".to_string()),
        created_at: Timestamp("2024-05-01T12:00:00Z".to_string()),
        images: images.into_iter().map(|i| Image { id: Uuid(i.to_string()) }).collect(),
    }
}

fn ids(buttons: &[Button]) -> Vec<String> {
    buttons.iter().map(|b| b.custom_id.clone()).collect()
}

fn label(b: &Button) -> String {
    b.label.clone().unwrap_or_default()
}

fn pending_buttons(has_image: bool) -> Vec<Button> {
    render_buttons(&PanelState::fresh("r1".to_string(), has_image))
}

const BASE: &str = "https://img.example/image/";

fn image_url() -> Option<String> {
    Some("https://img.example/image/abc123?auth=k3y".to_string())
}

#[test]
fn new_review_panel_without_image() {
    let panel = review_panel(review("r1", 4, vec![]), &settings());
    assert_eq!(ids(&panel.buttons), vec!["approve_r1", "reject_r1"]);
    assert_eq!(label(&panel.buttons[0]), "Approve");
    assert_eq!(label(&panel.buttons[1]), "Reject");
    assert!(panel.buttons.iter().all(|b| !b.disabled));
    assert!(panel.title.ends_with("\u{2605}\u{2605}\u{2605}\u{2605}"));
    assert_eq!(panel.title, "Schnitzel | \u{2605}\u{2605}\u{2605}\u{2605}");
    assert_eq!(panel.author, "Anonymous");
    assert_eq!(panel.colour, (255, 107, 38));
    assert_eq!(panel.url, "https://mensa.example/occurrence/occ1");
    assert_eq!(panel.timestamp, "2024-05-01T12:00:00Z");
    assert_eq!(panel.description, Some("Lecker".to_string()));
    assert_eq!(panel.image_url, None);
}

#[test]
fn new_review_panel_with_image() {
    let mut r = review("r1", 0, vec!["img1", "img2"]);
    r.display_name = Some("Mia".to_string());
    let panel = review_panel(r, &settings());
    assert_eq!(
        ids(&panel.buttons),
        vec!["approve_r1", "rotate_r1_270", "rotate_r1_180", "rotate_r1_90", "reject_r1"]
    );
    assert_eq!(panel.title, "Schnitzel | ");
    assert_eq!(panel.author, "Mia");
    assert_eq!(panel.image_url, Some("https://img.example/image/img1?auth=k3y".to_string()));
    assert!(panel.buttons[1..4].iter().all(|b| !b.disabled && b.style == ButtonStyle::Secondary));
    assert_eq!(panel.buttons[0].emoji, "\u{2705}");
    assert_eq!(panel.buttons[4].style, ButtonStyle::Danger);
}

#[test]
fn approve_pending_panel() {
    let buttons = pending_buttons(false);
    let plan = plan_interaction("approve_r1", &buttons, &None, BASE).unwrap();
    match &plan.effect {
        SideEffect::SetApproved { review_id, approved } => {
            assert_eq!(review_id, "r1");
            assert!(*approved);
        }
        _ => panic!("expected an approval"),
    }
    let next = settled_buttons(plan, "alice");
    assert_eq!(ids(&next), vec!["approve_r1", "reject_r1"]);
    assert!(next[0].disabled);
    assert_eq!(label(&next[0]), "Approved by alice");
    assert_eq!(label(&next[1]), "Unapprove");
    assert!(!next[1].disabled);
    let state = read_buttons(&next).unwrap();
    assert_eq!(state.approval, Approval::Approved);
    assert_eq!(state.actor, Some("alice".to_string()));
}

#[test]
fn rotate_panel_with_image() {
    let buttons = pending_buttons(true);
    let url = image_url();
    let plan = plan_interaction("rotate_r1_90", &buttons, &url, BASE).unwrap();
    match &plan.effect {
        SideEffect::RotateImage { image_id, angle } => {
            assert_eq!(image_id, "abc123");
            assert_eq!(*angle, 90);
        }
        _ => panic!("expected a rotation"),
    }
    let current = url.unwrap();
    let fresh = refreshed_link(&settings().image, "abc123", &current);
    assert_ne!(fresh, current);
    assert!(fresh.starts_with("https://img.example/image/abc123?auth=k3y&discord_fake="));
    let after = settled_buttons(plan, "bob");
    let state = read_buttons(&after).unwrap();
    assert_eq!(state.approval, Approval::Pending);
    assert_eq!(state.actor, None);
    assert!(state.rotation_enabled);
    assert_eq!(ids(&after), ids(&buttons));
}

#[test]
fn refreshed_link_differs_from_a_cache_busted_one() {
    let s = settings();
    for _ in 0..20 {
        let current = refreshed_link(&s.image, "abc123", "x");
        let again = refreshed_link(&s.image, "abc123", &current);
        assert_ne!(again, current);
    }
}

#[test]
fn malformed_identifier_is_refused() {
    let buttons = pending_buttons(true);
    let r = plan_interaction("foo", &buttons, &image_url(), BASE);
    assert_eq!(r.err(), Some(InteractionError::Malformed(MalformedAction::SegmentCount)));
}

#[test]
fn segment_count_bounds() {
    let buttons = pending_buttons(false);
    for id in ["approve", "rotate_r1_90_x", "a_b_c_d_e", ""] {
        let r = plan_interaction(id, &buttons, &None, BASE);
        assert_eq!(r.err(), Some(InteractionError::Malformed(MalformedAction::SegmentCount)));
    }
    assert_eq!(parse_action("rotate_r1").err(), Some(MalformedAction::SegmentCount));
    assert_eq!(parse_action("approve_r1_90").err(), Some(MalformedAction::SegmentCount));
}

#[test]
fn parse_each_verb() {
    assert!(matches!(parse_action("approve_r1"), Ok(ModerationAction::Approve { review_id }) if review_id == "r1"));
    assert!(matches!(parse_action("reject_r2"), Ok(ModerationAction::Reject { review_id }) if review_id == "r2"));
    assert!(matches!(parse_action("delete_r3"), Ok(ModerationAction::Delete { review_id }) if review_id == "r3"));
    assert!(matches!(parse_action("edit_r4"), Ok(ModerationAction::EditRequest { review_id }) if review_id == "r4"));
    assert!(matches!(parse_action("rotate_r5_270"), Ok(ModerationAction::RotateImage { review_id, angle: 270 }) if review_id == "r5"));
    assert_eq!(parse_action("frobnicate_r1").err(), Some(MalformedAction::UnknownVerb));
    assert_eq!(parse_action("_____approve_deleted_r1").err(), Some(MalformedAction::SegmentCount));
}

#[test]
fn parse_angles() {
    assert_eq!(parse_angle("90"), Some(90));
    assert_eq!(parse_angle("+180"), Some(180));
    assert_eq!(parse_angle("0270"), Some(270));
    assert_eq!(parse_angle("45"), None);
    assert_eq!(parse_angle("-90"), None);
    assert_eq!(parse_angle("9x"), None);
    assert_eq!(parse_angle(""), None);
    assert_eq!(parse_angle("+"), None);
    assert_eq!(parse_angle("99999999999999999999"), None);
    assert_eq!(parse_action("rotate_r1_45").err(), Some(MalformedAction::BadAngle));
    assert_eq!(parse_action("rotate_r1_abc").err(), Some(MalformedAction::BadAngle));
}

#[test]
fn delete_on_deleted_panel_is_refused() {
    let buttons = pending_buttons(true);
    let plan = plan_interaction("reject_r1", &buttons, &image_url(), BASE).unwrap();
    let rejected = settled_buttons(plan, "carol");
    assert_eq!(rejected[4].custom_id, "delete_r1");
    assert_eq!(label(&rejected[4]), "Delete (rejected by carol)");
    assert!(rejected[1..4].iter().all(|b| !b.disabled));
    let plan = plan_interaction("delete_r1", &rejected, &image_url(), BASE).unwrap();
    assert!(matches!(&plan.effect, SideEffect::DeleteReview { review_id } if review_id == "r1"));
    let deleted = settled_buttons(plan, "dave");
    assert!(deleted.iter().all(|b| b.disabled));
    assert_eq!(deleted[0].custom_id, "_____approve_deleted_r1");
    assert_eq!(deleted[4].custom_id, "_____reject_deleted_r1");
    assert_eq!(label(&deleted[4]), "Deleted by dave");
    for id in ["delete_r1", "approve_r1", "rotate_r1_90", "edit_r1"] {
        let r = plan_interaction(id, &deleted, &image_url(), BASE);
        assert_eq!(r.err(), Some(InteractionError::PanelDeleted));
    }
}

#[test]
fn approve_disables_rotation_and_reject_enables_it() {
    let buttons = pending_buttons(true);
    let plan = plan_interaction("approve_r1", &buttons, &image_url(), BASE).unwrap();
    let approved = settled_buttons(plan, "erin");
    assert!(approved[1..4].iter().all(|b| b.disabled));
    let plan = plan_interaction("reject_r1", &approved, &image_url(), BASE).unwrap();
    assert!(matches!(&plan.effect, SideEffect::SetApproved { approved: false, .. }));
    let rejected = settled_buttons(plan, "finn");
    assert!(rejected[1..4].iter().all(|b| !b.disabled));
    let plan = plan_interaction("approve_r1", &rejected, &image_url(), BASE).unwrap();
    let again = settled_buttons(plan, "gina");
    assert_eq!(label(&again[0]), "Approved by gina");
}

#[test]
fn rotation_without_image_is_refused() {
    let buttons = pending_buttons(false);
    let r = plan_interaction("rotate_r1_90", &buttons, &None, BASE);
    assert_eq!(r.err(), Some(InteractionError::NoImage));
}

#[test]
fn unreadable_panel_is_refused() {
    let buttons = vec![Button {
        custom_id: "approve_r1".to_string(),
        label: None,
        emoji: String::new(),
        style: ButtonStyle::Success,
        disabled: false,
    }];
    let r = plan_interaction("approve_r1", &buttons, &None, BASE);
    assert_eq!(r.err(), Some(InteractionError::UnreadablePanel));
}

#[test]
fn read_back_every_state() {
    for approval in [Approval::Pending, Approval::Approved, Approval::Rejected, Approval::Deleted] {
        for has_image in [false, true] {
            let actor = if approval == Approval::Pending { None } else { Some("a_b (c)".to_string()) };
            let rotation_enabled =
                has_image && (approval == Approval::Pending || approval == Approval::Rejected);
            let state = PanelState {
                review_id: "9f1c-77".to_string(),
                has_image,
                approval,
                actor: actor.clone(),
                rotation_enabled,
            };
            let back = read_buttons(&render_buttons(&state)).unwrap();
            assert_eq!(back.review_id, "9f1c-77");
            assert_eq!(back.has_image, has_image);
            assert_eq!(back.approval, approval);
            assert_eq!(back.actor, actor);
            assert_eq!(back.rotation_enabled, rotation_enabled);
        }
    }
}

#[test]
fn edit_request_opens_form() {
    let buttons = pending_buttons(false);
    let plan = plan_interaction("edit_r1", &buttons, &None, BASE).unwrap();
    assert!(matches!(&plan.effect, SideEffect::OpenEditForm { review_id } if review_id == "r1"));
    let form = edit_form("r1");
    assert_eq!(form.custom_id, "edit_r1");
    assert_eq!(form.title, "Edit Review");
    assert_eq!(form.fields.len(), 2);
    assert_eq!(form.fields[0].custom_id, "author_field");
    assert_eq!(form.fields[0].label, "Author");
    assert_eq!(form.fields[0].value, "<title>");
    assert!(!form.fields[0].multiline);
    assert_eq!(form.fields[1].custom_id, "desc_field");
    assert_eq!(form.fields[1].label, "Description");
    assert_eq!(form.fields[1].value, "<description>");
    assert!(form.fields[1].multiline);
}

#[test]
fn transition_keeps_state_on_rotate() {
    let state = PanelState::fresh("r1".to_string(), true);
    let action = ModerationAction::RotateImage { review_id: "r1".to_string(), angle: 180 };
    let next = next_state(state, &action, "zed");
    assert_eq!(next.approval, Approval::Pending);
    assert_eq!(next.actor, None);
    assert!(next.rotation_enabled);
}

#[test]
fn guard_serializes_one_review() {
    let mut guard = ReviewGuard::new();
    assert!(!guard.is_held("r1"));
    assert!(guard.try_acquire("r1"));
    assert!(guard.is_held("r1"));
    assert!(!guard.try_acquire("r1"));
    assert!(guard.try_acquire("r2"));
    guard.release("r1");
    assert!(!guard.is_held("r1"));
    assert!(guard.is_held("r2"));
    assert!(guard.try_acquire("r1"));
    guard.release("r3");
    assert!(guard.is_held("r2"));
}

#[test]
fn rotation_turns_the_panel_image_when_the_key_has_slashes() {
    let mut s = settings();
    s.image.key = "ab/c+d/==".to_string();
    let panel = review_panel(review("r1", 5, vec!["img7"]), &s);
    let url = panel.image_url.clone();
    assert_eq!(url, Some("https://img.example/image/img7?auth=ab/c+d/==".to_string()));
    let plan = plan_interaction("rotate_r1_180", &panel.buttons, &url, BASE).unwrap();
    match &plan.effect {
        SideEffect::RotateImage { image_id, angle } => {
            assert_eq!(image_id, "img7");
            assert_eq!(*angle, 180);
        }
        _ => panic!("expected a rotation"),
    }
    let bare = Some("i?auth=/".to_string());
    let plan = plan_interaction("rotate_r1_90", &panel.buttons, &bare, "").unwrap();
    assert!(matches!(&plan.effect, SideEffect::RotateImage { image_id, .. } if image_id == "i"));
}

#[test]
fn rotation_of_a_foreign_image_is_refused() {
    let buttons = pending_buttons(true);
    let foreign = Some("https://elsewhere.example/abc123?auth=k3y".to_string());
    let r = plan_interaction("rotate_r1_90", &buttons, &foreign, BASE);
    assert_eq!(r.err(), Some(InteractionError::NoImage));
    let plan = plan_interaction("approve_r1", &buttons, &foreign, BASE).unwrap();
    assert!(matches!(&plan.effect, SideEffect::SetApproved { approved: true, .. }));
}
