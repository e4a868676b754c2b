use vstd::prelude::*;

use crate::discord::action::{action_of, parse_action, ActionModel, MalformedAction, ModerationAction};
use crate::discord::panel::{
    button_views, lemma_read_rendered, next_panel, next_state, opt_view, panel_buttons, panel_wf,
    read_buttons, read_panel, render_buttons, rotation_allowed, Approval, Button, ButtonModel,
    PanelModel, PanelState,
};
use crate::gql::Review;
use crate::image::{
    image_id_from_link, image_id_in, image_link, image_link_for, lemma_image_link_read_back,
};
use crate::settings::Settings;
use crate::text::split_on;

verus! {

/// A review's message in the chat: the embed and its row of buttons.
#[derive(Debug)]
pub struct Panel {
    pub title: String,
    pub author: String,
    /// Red, green and blue.
    pub colour: (u8, u8, u8),
    pub timestamp: String,
    pub url: String,
    pub description: Option<String>,
    pub image_url: Option<String>,
    pub buttons: Vec<Button>,
}

/// A star for each point of a rating.
pub open spec fn stars(n: int) -> Seq<char> {
    Seq::new(if n > 0 { n as nat } else { 0 }, |i: int| '\u{2605}')
}

/// The state of a review that nobody has acted on.
pub open spec fn fresh_panel(review_id: Seq<char>, has_image: bool) -> PanelModel {
    PanelModel {
        review_id,
        has_image,
        approval: Approval::Pending,
        actor: None,
        rotation_enabled: rotation_allowed(Approval::Pending, has_image),
    }
}

impl PanelState {
    /// The state of a review that nobody has acted on.
    pub fn fresh(review_id: String, has_image: bool) -> (r: PanelState)
        ensures
            r@ == fresh_panel(review_id@, has_image),
    {
        PanelState {
            review_id,
            has_image,
            approval: Approval::Pending,
            actor: None,
            rotation_enabled: has_image,
        }
    }
}

fn star_line(n: i32) -> (r: String)
    ensures
        r@ == stars(n as int),
{
    let mut line = String::new();
    let mut i: i32 = 0;
    while i < n
        invariant
            0 <= i,
            n > 0 ==> i <= n,
            n <= 0 ==> i == 0,
            line@ == Seq::new(i as nat, |k: int| '\u{2605}'),
        decreases n - i,
    {
        proof {
            reveal_strlit("\u{2605}");
        }
        line.append("\u{2605}");
        i = i + 1;
        assert(line@ =~= Seq::new(i as nat, |k: int| '\u{2605}'));
    }
    assert(line@ =~= stars(n as int));
    line
}

/// The panel that announces a new review: a title with the dish and the
/// rating in stars, the author (or "Anonymous"), the text, the first image,
/// and the buttons of a pending review.
pub fn review_panel(review: Review, settings: &Settings) -> (p: Panel)
    ensures
        p.title@ == review.occurrence.dish.name_de@ + " | "@ + stars(review.stars as int),
        p.author@ == (match review.display_name {
            Some(n) => n@,
            None => "Anonymous"@,
        }),
        p.colour == (255u8, 107u8, 38u8),
        p.timestamp@ == review.created_at.0@,
        p.url@ == settings.mensatt.occurrence_url@ + review.occurrence.id.0@,
        opt_view(p.description) == opt_view(review.text),
        opt_view(p.image_url) == (if review.images@.len() > 0 {
            Some(image_link(settings.image.image_url@, review.images@[0].id.0@, settings.image.key@))
        } else {
            None
        }),
        button_views(p.buttons@) == panel_buttons(
            fresh_panel(review.id.0@, review.images@.len() > 0),
        ),
{
    let Review { id, occurrence, display_name, stars, text, created_at, images } = review;
    let title = occurrence.dish.name_de.concat(" | ").concat(star_line(stars).as_str());
    let author = match display_name {
        Some(name) => name,
        None => String::from_str("Anonymous"),
    };
    let url = settings.mensatt.occurrence_url.clone().concat(occurrence.id.0.as_str());
    let has_image = images.len() > 0;
    let image_url = if has_image {
        Some(image_link_for(&settings.image, images[0].id.0.as_str()))
    } else {
        None
    };
    let state = PanelState::fresh(id.0, has_image);
    Panel {
        title,
        author,
        colour: (255, 107, 38),
        timestamp: created_at.0,
        url,
        description: text,
        image_url,
        buttons: render_buttons(&state),
    }
}

/// One text field of a form.
#[derive(Debug)]
pub struct TextField {
    pub custom_id: String,
    pub label: String,
    pub value: String,
    pub multiline: bool,
}

/// The form that edits a review.
#[derive(Debug)]
pub struct EditForm {
    pub custom_id: String,
    pub title: String,
    pub fields: Vec<TextField>,
}

/// The form for editing the review `review_id`: its author on one line and
/// its description as a paragraph.
pub fn edit_form(review_id: &str) -> (r: EditForm)
    ensures
        r.custom_id@ == "edit_"@ + review_id@,
        r.title@ == "Edit Review"@,
        r.fields@.len() == 2,
        r.fields@[0].custom_id@ == "author_field"@,
        r.fields@[0].label@ == "Author"@,
        r.fields@[0].value@ == "<title>"@,
        !r.fields@[0].multiline,
        r.fields@[1].custom_id@ == "desc_field"@,
        r.fields@[1].label@ == "Description"@,
        r.fields@[1].value@ == "<description>"@,
        r.fields@[1].multiline,
{
    let author = TextField {
        custom_id: String::from_str("author_field"),
        label: String::from_str("Author"),
        value: String::from_str("<title>"),
        multiline: false,
    };
    let description = TextField {
        custom_id: String::from_str("desc_field"),
        label: String::from_str("Description"),
        value: String::from_str("<description>"),
        multiline: true,
    };
    EditForm {
        custom_id: String::from_str("edit_").concat(review_id),
        title: String::from_str("Edit Review"),
        fields: vec![author, description],
    }
}

/// The remote call that an action makes before the panel changes.
pub enum SideEffect {
    SetApproved { review_id: String, approved: bool },
    DeleteReview { review_id: String },
    RotateImage { image_id: String, angle: i32 },
    OpenEditForm { review_id: String },
}

/// The mathematical value of a [`SideEffect`].
pub enum EffectModel {
    SetApproved { review_id: Seq<char>, approved: bool },
    DeleteReview { review_id: Seq<char> },
    RotateImage { image_id: Seq<char>, angle: int },
    OpenEditForm { review_id: Seq<char> },
}

impl View for SideEffect {
    type V = EffectModel;

    open spec fn view(&self) -> EffectModel {
        match self {
            SideEffect::SetApproved { review_id, approved } => EffectModel::SetApproved {
                review_id: review_id@,
                approved: *approved,
            },
            SideEffect::DeleteReview { review_id } => EffectModel::DeleteReview {
                review_id: review_id@,
            },
            SideEffect::RotateImage { image_id, angle } => EffectModel::RotateImage {
                image_id: image_id@,
                angle: *angle as int,
            },
            SideEffect::OpenEditForm { review_id } => EffectModel::OpenEditForm {
                review_id: review_id@,
            },
        }
    }
}

/// Why an interaction is dropped before any remote call.
#[derive(Clone, Copy, Debug, PartialEq, Eq, Structural)]
pub enum InteractionError {
    /// The button's identifier is not understood.
    Malformed(MalformedAction),
    /// The message's buttons are not those of a panel.
    UnreadablePanel,
    /// The review was deleted; nothing more is done with it.
    PanelDeleted,
    /// A rotation was asked for on a review without an image.
    NoImage,
}

/// What an interaction will do: the action, the panel it acts on, and the
/// remote call to make first.
pub struct Plan {
    pub action: ModerationAction,
    pub panel: PanelState,
    pub effect: SideEffect,
}

pub struct PlanModel {
    pub action: ActionModel,
    pub panel: PanelModel,
    pub effect: EffectModel,
}

impl View for Plan {
    type V = PlanModel;

    open spec fn view(&self) -> PlanModel {
        PlanModel { action: self.action@, panel: self.panel@, effect: self.effect@ }
    }
}

/// The image of the service that a panel shows, if it shows one.
pub open spec fn panel_image(base: Seq<char>, image_url: Option<Seq<char>>) -> Option<Seq<char>> {
    match image_url {
        Some(u) => image_id_in(base, u),
        None => None,
    }
}

/// The remote call for an action; a rotation turns `image_id`, the image
/// that the panel shows.
pub open spec fn effect_of(a: ActionModel, image_id: Option<Seq<char>>) -> EffectModel {
    match a {
        ActionModel::Approve { review_id } => EffectModel::SetApproved { review_id, approved: true },
        ActionModel::Reject { review_id } => EffectModel::SetApproved { review_id, approved: false },
        ActionModel::Delete { review_id } => EffectModel::DeleteReview { review_id },
        ActionModel::RotateImage { angle, .. } => EffectModel::RotateImage {
            image_id: match image_id {
                Some(i) => i,
                None => Seq::<char>::empty(),
            },
            angle,
        },
        ActionModel::EditRequest { review_id } => EffectModel::OpenEditForm { review_id },
    }
}

/// What a press of the button `id` does on a message with buttons `bs` and
/// image link `image_url`, where the image service serves from `base`.
pub open spec fn planned(
    id: Seq<char>,
    bs: Seq<ButtonModel>,
    image_url: Option<Seq<char>>,
    base: Seq<char>,
) -> Result<PlanModel, InteractionError> {
    match action_of(id) {
        Err(e) => Err(InteractionError::Malformed(e)),
        Ok(a) => match read_panel(bs) {
            None => Err(InteractionError::UnreadablePanel),
            Some(m) => if m.approval == Approval::Deleted {
                Err(InteractionError::PanelDeleted)
            } else if a is RotateImage && panel_image(base, image_url) is None {
                Err(InteractionError::NoImage)
            } else {
                Ok(PlanModel { action: a, panel: m, effect: effect_of(a, panel_image(base, image_url)) })
            },
        },
    }
}

fn effect_for(action: &ModerationAction, image_id: Option<String>) -> (r: SideEffect)
    ensures
        r@ == effect_of(action@, opt_view(image_id)),
{
    match action {
        ModerationAction::Approve { review_id } => SideEffect::SetApproved {
            review_id: review_id.clone(),
            approved: true,
        },
        ModerationAction::Reject { review_id } => SideEffect::SetApproved {
            review_id: review_id.clone(),
            approved: false,
        },
        ModerationAction::Delete { review_id } => SideEffect::DeleteReview {
            review_id: review_id.clone(),
        },
        ModerationAction::RotateImage { angle, .. } => SideEffect::RotateImage {
            image_id: match image_id {
                Some(i) => i,
                None => String::new(),
            },
            angle: *angle,
        },
        ModerationAction::EditRequest { review_id } => SideEffect::OpenEditForm {
            review_id: review_id.clone(),
        },
    }
}

/// Decides what a button press does, from the button's identifier, the
/// message it sits on, and `image_base`, where the image service serves
/// images from; nothing remote happens before this has succeeded.
pub fn plan_interaction(
    custom_id: &str,
    buttons: &Vec<Button>,
    image_url: &Option<String>,
    image_base: &str,
) -> (r: Result<Plan, InteractionError>)
    ensures
        r is Ok <==> planned(custom_id@, button_views(buttons@), opt_view(*image_url), image_base@) is Ok,
        r matches Ok(p) ==> planned(custom_id@, button_views(buttons@), opt_view(*image_url), image_base@)
            == Ok::<PlanModel, InteractionError>(p@),
        r matches Err(e) ==> planned(custom_id@, button_views(buttons@), opt_view(*image_url), image_base@)
            == Err::<PlanModel, InteractionError>(e),
{
    let action = match parse_action(custom_id) {
        Ok(a) => a,
        Err(e) => {
            return Err(InteractionError::Malformed(e));
        },
    };
    let panel = match read_buttons(buttons) {
        Some(p) => p,
        None => {
            return Err(InteractionError::UnreadablePanel);
        },
    };
    if panel.approval == Approval::Deleted {
        return Err(InteractionError::PanelDeleted);
    }
    let image_id = match image_url {
        Some(u) => image_id_from_link(image_base, u.as_str()),
        None => None,
    };
    if image_id.is_none() {
        if let ModerationAction::RotateImage { .. } = action {
            return Err(InteractionError::NoImage);
        }
    }
    let effect = effect_for(&action, image_id);
    Ok(Plan { action, panel, effect })
}

/// The buttons once the plan's remote call has succeeded, pressed by
/// `requester`.
pub fn settled_buttons(plan: Plan, requester: &str) -> (r: Vec<Button>)
    ensures
        button_views(r@) == panel_buttons(next_panel(plan.panel@, plan.action@, requester@)),
{
    let Plan { action, panel, .. } = plan;
    let next = next_state(panel, &action, requester);
    render_buttons(&next)
}

/// The transitions keep a panel reachable.
pub proof fn lemma_next_wf(m: PanelModel, a: ActionModel, requester: Seq<char>)
    requires
        panel_wf(m),
    ensures
        panel_wf(next_panel(m, a, requester)),
{
}

/// Reading back a panel: on a rendered reachable panel that is not deleted,
/// a press of a button that names an action (with an image, for a rotation)
/// acts on exactly the state that was rendered, and the panel rendered after
/// the transition reads back as the state that the transition table gives.
pub proof fn lemma_round_trip(
    m: PanelModel,
    id: Seq<char>,
    image_url: Option<Seq<char>>,
    base: Seq<char>,
    requester: Seq<char>,
)
    requires
        panel_wf(m),
        m.approval != Approval::Deleted,
        action_of(id) is Ok,
        action_of(id)->Ok_0 is RotateImage ==> panel_image(base, image_url) is Some,
    ensures
        planned(id, panel_buttons(m), image_url, base) == Ok::<PlanModel, InteractionError>(
            (PlanModel {
                action: action_of(id)->Ok_0,
                panel: m,
                effect: effect_of(action_of(id)->Ok_0, panel_image(base, image_url)),
            }),
        ),
        read_panel(panel_buttons(next_panel(m, action_of(id)->Ok_0, requester))) == Some(
            next_panel(m, action_of(id)->Ok_0, requester),
        ),
{
    lemma_read_rendered(m);
    lemma_next_wf(m, action_of(id)->Ok_0, requester);
    lemma_read_rendered(next_panel(m, action_of(id)->Ok_0, requester));
}

/// Deletion is final: once a review has been deleted, every press on its
/// panel, of whatever action, is refused before any remote call.
pub proof fn lemma_delete_is_final(
    m: PanelModel,
    delete: ActionModel,
    requester: Seq<char>,
    id: Seq<char>,
    image_url: Option<Seq<char>>,
    base: Seq<char>,
)
    requires
        panel_wf(m),
        delete is Delete,
        action_of(id) is Ok,
    ensures
        planned(id, panel_buttons(next_panel(m, delete, requester)), image_url, base) == Err::<
            PlanModel,
            InteractionError,
        >(InteractionError::PanelDeleted),
{
    lemma_next_wf(m, delete, requester);
    lemma_read_rendered(next_panel(m, delete, requester));
}

/// An identifier of one segment, or of four or more, is refused as
/// malformed, whatever the panel, before any remote call.
pub proof fn lemma_segment_bounds(
    id: Seq<char>,
    bs: Seq<ButtonModel>,
    image_url: Option<Seq<char>>,
    base: Seq<char>,
)
    requires
        split_on(id, '_').len() < 2 || split_on(id, '_').len() > 3,
    ensures
        planned(id, bs, image_url, base) == Err::<PlanModel, InteractionError>(
            InteractionError::Malformed(MalformedAction::SegmentCount),
        ),
{
}

/// A rotation turns the panel's own image: on a reachable panel that is not
/// deleted and shows the service's link for `image_id`, a rotation press asks
/// the service to rotate exactly `image_id`, whatever the service's key holds.
pub proof fn lemma_rotation_targets_panel_image(
    m: PanelModel,
    id: Seq<char>,
    base: Seq<char>,
    image_id: Seq<char>,
    key: Seq<char>,
)
    requires
        panel_wf(m),
        m.approval != Approval::Deleted,
        action_of(id) matches Ok(ActionModel::RotateImage { .. }),
        !image_id.contains('?'),
    ensures
        planned(id, panel_buttons(m), Some(image_link(base, image_id, key)), base) == Ok::<
            PlanModel,
            InteractionError,
        >(
            (PlanModel {
                action: action_of(id)->Ok_0,
                panel: m,
                effect: EffectModel::RotateImage {
                    image_id,
                    angle: action_of(id)->Ok_0->RotateImage_angle,
                },
            }),
        ),
{
    lemma_image_link_read_back(base, image_id, key);
    lemma_read_rendered(m);
}

} // verus!
