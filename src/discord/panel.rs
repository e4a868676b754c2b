use vstd::prelude::*;

use crate::discord::action::{ActionModel, ModerationAction};
use crate::text::{has_prefix, has_suffix, starts_with, strip_prefix, strip_suffix};

verus! {

/// Where a review stands in moderation.
#[derive(Clone, Copy, Debug, PartialEq, Eq, Structural)]
pub enum Approval {
    Pending,
    Approved,
    Rejected,
    /// Terminal: a deleted review takes no further action.
    Deleted,
}

/// How a button is coloured.
#[derive(Clone, Copy, Debug, PartialEq, Eq, Structural)]
pub enum ButtonStyle {
    Success,
    Danger,
    Secondary,
}

/// One button of a moderation panel.
#[derive(Debug)]
pub struct Button {
    /// What a press of the button reports back.
    pub custom_id: String,
    pub label: Option<String>,
    pub emoji: String,
    pub style: ButtonStyle,
    pub disabled: bool,
}

/// The mathematical value of a [`Button`].
pub struct ButtonModel {
    pub custom_id: Seq<char>,
    pub label: Option<Seq<char>>,
    pub emoji: Seq<char>,
    pub style: ButtonStyle,
    pub disabled: bool,
}

pub open spec fn opt_view(o: Option<String>) -> Option<Seq<char>> {
    match o {
        Some(s) => Some(s@),
        None => None,
    }
}

impl View for Button {
    type V = ButtonModel;

    open spec fn view(&self) -> ButtonModel {
        ButtonModel {
            custom_id: self.custom_id@,
            label: opt_view(self.label),
            emoji: self.emoji@,
            style: self.style,
            disabled: self.disabled,
        }
    }
}

pub open spec fn button_views(bs: Seq<Button>) -> Seq<ButtonModel> {
    bs.map_values(|b: Button| b@)
}

/// The moderation state of a review, as its panel shows it.
#[derive(Debug)]
pub struct PanelState {
    pub review_id: String,
    pub has_image: bool,
    pub approval: Approval,
    /// Who acted last; nobody while the review is pending.
    pub actor: Option<String>,
    pub rotation_enabled: bool,
}

/// The mathematical value of a [`PanelState`].
pub struct PanelModel {
    pub review_id: Seq<char>,
    pub has_image: bool,
    pub approval: Approval,
    pub actor: Option<Seq<char>>,
    pub rotation_enabled: bool,
}

impl View for PanelState {
    type V = PanelModel;

    open spec fn view(&self) -> PanelModel {
        PanelModel {
            review_id: self.review_id@,
            has_image: self.has_image,
            approval: self.approval,
            actor: opt_view(self.actor),
            rotation_enabled: self.rotation_enabled,
        }
    }
}

/// Whether the image of a review may be rotated in the given state.
pub open spec fn rotation_allowed(approval: Approval, has_image: bool) -> bool {
    has_image && (approval == Approval::Pending || approval == Approval::Rejected)
}

/// A panel state that the transitions can reach: someone has acted exactly
/// when the review is no longer pending, and the rotation buttons are live
/// exactly when an image may be rotated.
pub open spec fn panel_wf(m: PanelModel) -> bool {
    &&& (m.actor is Some <==> m.approval != Approval::Pending)
    &&& m.rotation_enabled == rotation_allowed(m.approval, m.has_image)
}

pub open spec fn actor_name(m: PanelModel) -> Seq<char> {
    match m.actor {
        Some(a) => a,
        None => Seq::<char>::empty(),
    }
}

/// The first button: approval.
pub open spec fn approve_button(m: PanelModel) -> ButtonModel {
    let (id, label, disabled) = match m.approval {
        Approval::Approved => ("approve_"@ + m.review_id, "Approved by "@ + actor_name(m), true),
        Approval::Deleted => ("_____approve_deleted_"@ + m.review_id, "Approve"@, true),
        _ => ("approve_"@ + m.review_id, "Approve"@, false),
    };
    ButtonModel {
        custom_id: id,
        label: Some(label),
        emoji: "\u{2705}"@,
        style: ButtonStyle::Success,
        disabled,
    }
}

/// The last button: rejection, and deletion once rejected.
pub open spec fn reject_button(m: PanelModel) -> ButtonModel {
    let (id, label, disabled) = match m.approval {
        Approval::Pending => ("reject_"@ + m.review_id, "Reject"@, false),
        Approval::Approved => ("reject_"@ + m.review_id, "Unapprove"@, false),
        Approval::Rejected => (
            "delete_"@ + m.review_id,
            "Delete (rejected by "@ + actor_name(m) + ")"@,
            false,
        ),
        Approval::Deleted => (
            "_____reject_deleted_"@ + m.review_id,
            "Deleted by "@ + actor_name(m),
            true,
        ),
    };
    ButtonModel {
        custom_id: id,
        label: Some(label),
        emoji: "\u{1f5d1}"@,
        style: ButtonStyle::Danger,
        disabled,
    }
}

/// A rotation button; `suffix` names the angle.
pub open spec fn rotation_button(m: PanelModel, suffix: Seq<char>, emoji: Seq<char>) -> ButtonModel {
    let prefix = if m.approval == Approval::Deleted {
        "_____rotate_deleted_"@
    } else {
        "rotate_"@
    };
    ButtonModel {
        custom_id: prefix + m.review_id + suffix,
        label: None,
        emoji,
        style: ButtonStyle::Secondary,
        disabled: !m.rotation_enabled,
    }
}

/// The buttons of a panel: approval, the three rotations when the review
/// has an image, and rejection.
pub open spec fn panel_buttons(m: PanelModel) -> Seq<ButtonModel> {
    if m.has_image {
        seq![
            approve_button(m),
            rotation_button(m, "_270"@, "\u{21aa}"@),
            rotation_button(m, "_180"@, "\u{2195}"@),
            rotation_button(m, "_90"@, "\u{21a9}"@),
            reject_button(m),
        ]
    } else {
        seq![approve_button(m), reject_button(m)]
    }
}

/// The state that a row of buttons shows, if it is a panel's row.
pub open spec fn read_panel(bs: Seq<ButtonModel>) -> Option<PanelModel> {
    if bs.len() != 2 && bs.len() != 5 {
        None
    } else {
        let a = bs[0];
        let r = bs[bs.len() - 1];
        let has_image = bs.len() == 5;
        let rotation_enabled = has_image && !bs[1].disabled;
        let (live, approval, actor) = if r.disabled {
            match r.label {
                Some(l) if has_prefix(l, "Deleted by "@) => (
                    false,
                    Approval::Deleted,
                    Some(l.skip("Deleted by "@.len() as int)),
                ),
                _ => (false, Approval::Deleted, None),
            }
        } else if a.disabled {
            match a.label {
                Some(l) if has_prefix(l, "Approved by "@) => (
                    true,
                    Approval::Approved,
                    Some(l.skip("Approved by "@.len() as int)),
                ),
                _ => (true, Approval::Approved, None),
            }
        } else if has_prefix(r.custom_id, "delete_"@) {
            match r.label {
                Some(l) if has_prefix(l, "Delete (rejected by "@) && has_suffix(
                    l.skip("Delete (rejected by "@.len() as int),
                    ")"@,
                ) => {
                    let rest = l.skip("Delete (rejected by "@.len() as int);
                    (true, Approval::Rejected, Some(rest.take(rest.len() - ")"@.len())))
                },
                _ => (true, Approval::Rejected, None),
            }
        } else {
            (true, Approval::Pending, None)
        };
        let prefix = if live {
            "approve_"@
        } else {
            "_____approve_deleted_"@
        };
        if (approval != Approval::Pending && actor is None) || !has_prefix(a.custom_id, prefix) {
            None
        } else {
            Some(
                PanelModel {
                    review_id: a.custom_id.skip(prefix.len() as int),
                    has_image,
                    approval,
                    actor,
                    rotation_enabled,
                },
            )
        }
    }
}

/// The state after an action has taken effect.
pub open spec fn next_panel(m: PanelModel, a: ActionModel, requester: Seq<char>) -> PanelModel {
    match a {
        ActionModel::Approve { .. } => PanelModel {
            approval: Approval::Approved,
            actor: Some(requester),
            rotation_enabled: rotation_allowed(Approval::Approved, m.has_image),
            ..m
        },
        ActionModel::Reject { .. } => PanelModel {
            approval: Approval::Rejected,
            actor: Some(requester),
            rotation_enabled: rotation_allowed(Approval::Rejected, m.has_image),
            ..m
        },
        ActionModel::Delete { .. } => PanelModel {
            approval: Approval::Deleted,
            actor: Some(requester),
            rotation_enabled: rotation_allowed(Approval::Deleted, m.has_image),
            ..m
        },
        _ => m,
    }
}

proof fn lemma_prefix_of_concat(p: Seq<char>, x: Seq<char>)
    ensures
        has_prefix(p + x, p),
        (p + x).skip(p.len() as int) == x,
{
    assert((p + x).take(p.len() as int) =~= p);
    assert((p + x).skip(p.len() as int) =~= x);
}

proof fn lemma_enclosed(p: Seq<char>, w: Seq<char>, q: Seq<char>)
    ensures
        has_prefix(p + w + q, p),
        has_suffix((p + w + q).skip(p.len() as int), q),
        (p + w + q).skip(p.len() as int).take(w.len() as int) == w,
        (p + w + q).skip(p.len() as int).len() - q.len() == w.len(),
{
    let l = p + w + q;
    let rest = l.skip(p.len() as int);
    assert(l.take(p.len() as int) =~= p);
    assert(rest =~= w + q);
    assert(rest.skip(rest.len() - q.len()) =~= q);
    assert(rest.take(w.len() as int) =~= w);
}

/// Reading back the buttons of a reachable state gives that state.
pub proof fn lemma_read_rendered(m: PanelModel)
    requires
        panel_wf(m),
    ensures
        read_panel(panel_buttons(m)) == Some(m),
{
    reveal_strlit("approve_");
    reveal_strlit("reject_");
    reveal_strlit("delete_");
    let bs = panel_buttons(m);
    let w = actor_name(m);
    match m.approval {
        Approval::Pending => {
            lemma_prefix_of_concat("approve_"@, m.review_id);
            assert(("reject_"@ + m.review_id).take(7)[0] == 'r');
            assert(!has_prefix(bs[bs.len() - 1].custom_id, "delete_"@));
        },
        Approval::Approved => {
            lemma_prefix_of_concat("approve_"@, m.review_id);
            lemma_prefix_of_concat("Approved by "@, w);
        },
        Approval::Rejected => {
            lemma_prefix_of_concat("approve_"@, m.review_id);
            lemma_prefix_of_concat("delete_"@, m.review_id);
            lemma_enclosed("Delete (rejected by "@, w, ")"@);
        },
        Approval::Deleted => {
            lemma_prefix_of_concat("_____approve_deleted_"@, m.review_id);
            lemma_prefix_of_concat("Deleted by "@, w);
        },
    }
}

fn joined(a: &str, b: &str) -> (r: String)
    ensures
        r@ == a@ + b@,
{
    String::from_str(a).concat(b)
}

fn approve_button_of(state: &PanelState, who: &str) -> (r: Button)
    requires
        who@ == actor_name(state@),
    ensures
        r@ == approve_button(state@),
{
    let rid = state.review_id.as_str();
    let (custom_id, label, disabled) = match state.approval {
        Approval::Approved => (joined("approve_", rid), joined("Approved by ", who), true),
        Approval::Deleted => (joined("_____approve_deleted_", rid), String::from_str("Approve"), true),
        _ => (joined("approve_", rid), String::from_str("Approve"), false),
    };
    Button {
        custom_id,
        label: Some(label),
        emoji: String::from_str("\u{2705}"),
        style: ButtonStyle::Success,
        disabled,
    }
}

fn reject_button_of(state: &PanelState, who: &str) -> (r: Button)
    requires
        who@ == actor_name(state@),
    ensures
        r@ == reject_button(state@),
{
    let rid = state.review_id.as_str();
    let (custom_id, label, disabled) = match state.approval {
        Approval::Pending => (joined("reject_", rid), String::from_str("Reject"), false),
        Approval::Approved => (joined("reject_", rid), String::from_str("Unapprove"), false),
        Approval::Rejected => (
            joined("delete_", rid),
            joined("Delete (rejected by ", who).concat(")"),
            false,
        ),
        Approval::Deleted => (joined("_____reject_deleted_", rid), joined("Deleted by ", who), true),
    };
    Button {
        custom_id,
        label: Some(label),
        emoji: String::from_str("\u{1f5d1}"),
        style: ButtonStyle::Danger,
        disabled,
    }
}

fn rotation_button_of(state: &PanelState, suffix: &str, emoji: &str) -> (r: Button)
    ensures
        r@ == rotation_button(state@, suffix@, emoji@),
{
    let prefix = if state.approval == Approval::Deleted {
        "_____rotate_deleted_"
    } else {
        "rotate_"
    };
    Button {
        custom_id: joined(prefix, state.review_id.as_str()).concat(suffix),
        label: None,
        emoji: String::from_str(emoji),
        style: ButtonStyle::Secondary,
        disabled: !state.rotation_enabled,
    }
}

/// The row of buttons that shows `state`.
pub fn render_buttons(state: &PanelState) -> (r: Vec<Button>)
    ensures
        button_views(r@) == panel_buttons(state@),
{
    let who: &str = match &state.actor {
        Some(a) => a.as_str(),
        None => "",
    };
    proof {
        reveal_strlit("");
    }
    assert(who@ =~= actor_name(state@));
    let mut row: Vec<Button> = Vec::new();
    row.push(approve_button_of(state, who));
    if state.has_image {
        row.push(rotation_button_of(state, "_270", "\u{21aa}"));
        row.push(rotation_button_of(state, "_180", "\u{2195}"));
        row.push(rotation_button_of(state, "_90", "\u{21a9}"));
    }
    row.push(reject_button_of(state, who));
    assert(button_views(row@) =~= panel_buttons(state@));
    row
}

/// The moderation state that a row of buttons shows, if it is the row of a
/// panel.
pub fn read_buttons(buttons: &Vec<Button>) -> (r: Option<PanelState>)
    ensures
        r is Some <==> read_panel(button_views(buttons@)) is Some,
        r matches Some(p) ==> read_panel(button_views(buttons@)) == Some(p@),
{
    let n = buttons.len();
    if n != 2 && n != 5 {
        return None;
    }
    let ghost bs = button_views(buttons@);
    let a = &buttons[0];
    let last = &buttons[n - 1];
    assert(bs[0] == a@);
    assert(bs[n - 1] == last@);
    let has_image = n == 5;
    let rotation_enabled = has_image && !buttons[1].disabled;
    let (live, approval, actor): (bool, Approval, Option<String>) = if last.disabled {
        match &last.label {
            Some(l) => (false, Approval::Deleted, strip_prefix(l.as_str(), "Deleted by ")),
            None => (false, Approval::Deleted, None),
        }
    } else if a.disabled {
        match &a.label {
            Some(l) => (true, Approval::Approved, strip_prefix(l.as_str(), "Approved by ")),
            None => (true, Approval::Approved, None),
        }
    } else if starts_with(last.custom_id.as_str(), "delete_") {
        match &last.label {
            Some(l) => {
                let who = match strip_prefix(l.as_str(), "Delete (rejected by ") {
                    Some(rest) => strip_suffix(rest.as_str(), ")"),
                    None => None,
                };
                (true, Approval::Rejected, who)
            },
            None => (true, Approval::Rejected, None),
        }
    } else {
        (true, Approval::Pending, None)
    };
    if approval != Approval::Pending && actor.is_none() {
        return None;
    }
    let prefix = if live {
        "approve_"
    } else {
        "_____approve_deleted_"
    };
    match strip_prefix(a.custom_id.as_str(), prefix) {
        Some(review_id) => Some(PanelState { review_id, has_image, approval, actor, rotation_enabled }),
        None => None,
    }
}

/// The state once `action` has taken effect, pressed by `requester`.
pub fn next_state(state: PanelState, action: &ModerationAction, requester: &str) -> (r: PanelState)
    ensures
        r@ == next_panel(state@, action@, requester@),
{
    let has_image = state.has_image;
    match action {
        ModerationAction::Approve { .. } => PanelState {
            approval: Approval::Approved,
            actor: Some(String::from_str(requester)),
            rotation_enabled: false,
            ..state
        },
        ModerationAction::Reject { .. } => PanelState {
            approval: Approval::Rejected,
            actor: Some(String::from_str(requester)),
            rotation_enabled: has_image,
            ..state
        },
        ModerationAction::Delete { .. } => PanelState {
            approval: Approval::Deleted,
            actor: Some(String::from_str(requester)),
            rotation_enabled: false,
            ..state
        },
        _ => state,
    }
}

} // verus!
