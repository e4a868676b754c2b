use vstd::prelude::*;

use crate::text::{all_digits, digit, digit_of, digits_value, same_text, split, split_on, views};

verus! {

/// What a button press asks for, read from the button's identifier
/// `<verb>_<review id>[_<angle>]`.
pub enum ModerationAction {
    Approve { review_id: String },
    Reject { review_id: String },
    Delete { review_id: String },
    RotateImage { review_id: String, angle: i32 },
    EditRequest { review_id: String },
}

/// The mathematical value of a [`ModerationAction`].
pub enum ActionModel {
    Approve { review_id: Seq<char> },
    Reject { review_id: Seq<char> },
    Delete { review_id: Seq<char> },
    RotateImage { review_id: Seq<char>, angle: int },
    EditRequest { review_id: Seq<char> },
}

impl View for ModerationAction {
    type V = ActionModel;

    open spec fn view(&self) -> ActionModel {
        match self {
            ModerationAction::Approve { review_id } => ActionModel::Approve { review_id: review_id@ },
            ModerationAction::Reject { review_id } => ActionModel::Reject { review_id: review_id@ },
            ModerationAction::Delete { review_id } => ActionModel::Delete { review_id: review_id@ },
            ModerationAction::RotateImage { review_id, angle } => ActionModel::RotateImage {
                review_id: review_id@,
                angle: *angle as int,
            },
            ModerationAction::EditRequest { review_id } => ActionModel::EditRequest {
                review_id: review_id@,
            },
        }
    }
}

impl ActionModel {
    /// The review that the action is about.
    pub open spec fn review_id(self) -> Seq<char> {
        match self {
            ActionModel::Approve { review_id } => review_id,
            ActionModel::Reject { review_id } => review_id,
            ActionModel::Delete { review_id } => review_id,
            ActionModel::RotateImage { review_id, .. } => review_id,
            ActionModel::EditRequest { review_id } => review_id,
        }
    }
}

/// Why an action identifier was not understood.
#[derive(Clone, Copy, Debug, PartialEq, Eq, Structural)]
pub enum MalformedAction {
    /// Not two segments (three for a rotation).
    SegmentCount,
    /// The first segment names no known verb.
    UnknownVerb,
    /// The angle of a rotation is not 90, 180 or 270 written as an integer.
    BadAngle,
}

/// The delimiter between the segments of an action identifier.
pub const SEGMENT_DELIMITER: char = '_';

/// The angle written in `s`, read as an `i32` is read (an optional `+`, then
/// decimal digits), when it is one of the three accepted rotations.
pub open spec fn angle_of(s: Seq<char>) -> Option<int> {
    let u = if s.len() > 0 && s[0] == '+' {
        s.drop_first()
    } else {
        s
    };
    if u.len() > 0 && all_digits(u) && (digits_value(u) == 90 || digits_value(u) == 180
        || digits_value(u) == 270) {
        Some(digits_value(u) as int)
    } else {
        None
    }
}

/// The action that an identifier stands for, or why it stands for none.
pub open spec fn action_of(id: Seq<char>) -> Result<ActionModel, MalformedAction> {
    let segs = split_on(id, '_');
    if segs.len() < 2 || segs.len() > 3 {
        Err(MalformedAction::SegmentCount)
    } else {
        let verb = segs[0];
        let review_id = segs[1];
        if verb == "rotate"@ {
            if segs.len() != 3 {
                Err(MalformedAction::SegmentCount)
            } else {
                match angle_of(segs[2]) {
                    Some(angle) => Ok(ActionModel::RotateImage { review_id, angle }),
                    None => Err(MalformedAction::BadAngle),
                }
            }
        } else if verb == "approve"@ || verb == "reject"@ || verb == "delete"@ || verb
            == "edit"@ {
            if segs.len() != 2 {
                Err(MalformedAction::SegmentCount)
            } else if verb == "approve"@ {
                Ok(ActionModel::Approve { review_id })
            } else if verb == "reject"@ {
                Ok(ActionModel::Reject { review_id })
            } else if verb == "delete"@ {
                Ok(ActionModel::Delete { review_id })
            } else {
                Ok(ActionModel::EditRequest { review_id })
            }
        } else {
            Err(MalformedAction::UnknownVerb)
        }
    }
}

/// Reads the angle of a rotation identifier.
pub fn parse_angle(s: &str) -> (r: Option<i32>)
    ensures
        r is Some <==> angle_of(s@) is Some,
        r matches Some(a) ==> angle_of(s@) == Some(a as int),
{
    let n = s.unicode_len();
    let mut i: usize = 0;
    if n > 0 && s.get_char(0) == '+' {
        i = 1;
    }
    let start = i;
    let ghost u = if s@.len() > 0 && s@[0] == '+' {
        s@.drop_first()
    } else {
        s@
    };
    assert(u =~= s@.subrange(start as int, n as int));
    if i == n {
        return None;
    }
    // The value read so far, capped at 1000.
    let mut v: u32 = 0;
    assert(s@.subrange(start as int, start as int) =~= Seq::<char>::empty());
    while i < n
        invariant
            n == s@.len(),
            start <= i <= n,
            u =~= s@.subrange(start as int, n as int),
            u == (if s@.len() > 0 && s@[0] == '+' {
                s@.drop_first()
            } else {
                s@
            }),
            all_digits(s@.subrange(start as int, i as int)),
            v <= 1000,
            v as nat == if digits_value(s@.subrange(start as int, i as int)) < 1000 {
                digits_value(s@.subrange(start as int, i as int))
            } else {
                1000
            },
        decreases n - i,
    {
        let c = s.get_char(i);
        let ghost prefix = s@.subrange(start as int, i as int);
        let ghost next = s@.subrange(start as int, i + 1);
        assert(next.drop_last() =~= prefix);
        assert(next.last() == c);
        match digit(c) {
            None => {
                assert(u[i - start] == c);
                assert(digit_of(u[i - start]) is None);
                assert(!all_digits(u));
                return None;
            },
            Some(d) => {
                assert forall|j: int| 0 <= j < next.len() implies (#[trigger] digit_of(next[j])) is Some by {
                    if j < prefix.len() {
                        assert(next[j] == prefix[j]);
                    }
                }
                let w = v * 10 + d;
                if w > 1000 {
                    v = 1000;
                } else {
                    v = w;
                }
            },
        }
        i = i + 1;
    }
    assert(s@.subrange(start as int, n as int) =~= u);
    if v == 90 || v == 180 || v == 270 {
        Some(v as i32)
    } else {
        None
    }
}

fn verb_is(verb: &String, name: &str) -> (r: bool)
    ensures
        r == (verb@ == name@),
{
    same_text(verb.as_str(), name)
}

/// Reads an action identifier: the verb, the review and, for a rotation,
/// the angle; anything else is refused.
pub fn parse_action(id: &str) -> (r: Result<ModerationAction, MalformedAction>)
    ensures
        r is Ok <==> action_of(id@) is Ok,
        r matches Ok(a) ==> action_of(id@) == Ok::<ActionModel, MalformedAction>(a@),
        r matches Err(e) ==> action_of(id@) == Err::<ActionModel, MalformedAction>(e),
{
    let segs = split(id, SEGMENT_DELIMITER);
    let ghost sv = split_on(id@, '_');
    assert(segs@.len() == sv.len());
    let count = segs.len();
    if count < 2 || count > 3 {
        return Err(MalformedAction::SegmentCount);
    }
    assert(segs@[0]@ == sv[0]);
    assert(segs@[1]@ == sv[1]);
    let verb = &segs[0];
    let review_id = segs[1].clone();
    if verb_is(verb, "rotate") {
        if count != 3 {
            return Err(MalformedAction::SegmentCount);
        }
        assert(segs@[2]@ == sv[2]);
        match parse_angle(segs[2].as_str()) {
            Some(angle) => Ok(ModerationAction::RotateImage { review_id, angle }),
            None => Err(MalformedAction::BadAngle),
        }
    } else if verb_is(verb, "approve") || verb_is(verb, "reject") || verb_is(verb, "delete")
        || verb_is(verb, "edit") {
        if count != 2 {
            Err(MalformedAction::SegmentCount)
        } else if verb_is(verb, "approve") {
            Ok(ModerationAction::Approve { review_id })
        } else if verb_is(verb, "reject") {
            Ok(ModerationAction::Reject { review_id })
        } else if verb_is(verb, "delete") {
            Ok(ModerationAction::Delete { review_id })
        } else {
            Ok(ModerationAction::EditRequest { review_id })
        }
    } else {
        Err(MalformedAction::UnknownVerb)
    }
}

} // verus!
