//! The rendering rule: from a manager snapshot to an abstract toast card.
//!
//! The host UI layer turns a `ToastCard` into concrete markup; this module
//! only decides *what* renders: nothing, or a single card with a color
//! token, a body text, and possibly a busy indicator.

use vstd::prelude::*;

use crate::manager::spec_will_show;
use crate::manager::ToastKind;
use crate::manager::ToastMgr;
use crate::manager::ToastStateView;

verus! {

/// The color token a toast card is styled with, named after the host CSS
/// framework's scheme: info, success, and danger toasts carry their own
/// token, warnings carry `Warning`, and the waiting toast carries `Primary`.
#[derive(Clone, Copy, Debug, PartialEq, Eq, Structural)]
pub enum ToastColor {
    Info,
    Success,
    Warning,
    Danger,
    Primary,
}

/// Mathematical snapshot of a `ToastCard`.
#[verifier::ext_equal]
pub struct ToastCardView {
    pub color: ToastColor,
    pub body: Seq<char>,
    pub busy: bool,
}

/// One rendered toast card: its color token, its body text, and whether a
/// busy indicator precedes the text. Every card also carries a dismiss
/// control and is exposed as an assertive, atomic live-region alert; those
/// parts are the same for every kind, so the host layer adds them.
#[derive(Clone, Debug)]
pub struct ToastCard {
    pub color: ToastColor,
    pub body: String,
    pub busy: bool,
}

impl View for ToastCard {
    type V = ToastCardView;

    closed spec fn view(&self) -> ToastCardView {
        ToastCardView {
            color: self.color,
            body: self.body@,
            busy: self.busy,
        }
    }
}

/// The rendering rule. A hidden toast or the `Nothing` kind renders
/// nothing; each other kind renders one card. The four message-carrying
/// kinds show the stored message under their own color token; the waiting
/// kind shows the configured waiting message under the `Primary` token
/// with a busy indicator.
pub open spec fn spec_toast_view(s: ToastStateView) -> Option<ToastCardView> {
    if !s.show_toast {
        None
    } else {
        match s.toast_type {
            ToastKind::Nothing => None,
            ToastKind::Info => Some(
                ToastCardView { color: ToastColor::Info, body: s.toast_message, busy: false },
            ),
            ToastKind::Success => Some(
                ToastCardView { color: ToastColor::Success, body: s.toast_message, busy: false },
            ),
            ToastKind::Warning => Some(
                ToastCardView { color: ToastColor::Warning, body: s.toast_message, busy: false },
            ),
            ToastKind::Error => Some(
                ToastCardView { color: ToastColor::Danger, body: s.toast_message, busy: false },
            ),
            ToastKind::Waiting => Some(
                ToastCardView { color: ToastColor::Primary, body: s.wait_msg, busy: true },
            ),
        }
    }
}

/// Renders a snapshot of the manager: `None` when nothing should show,
/// otherwise the one card described by `spec_toast_view`.
pub fn toast_view(manager: &ToastMgr) -> (r: Option<ToastCard>)
    ensures
        (match r {
            Some(c) => spec_toast_view(manager@) == Some(c@),
            None => spec_toast_view(manager@) is None,
        }),
        r is Some <==> spec_will_show(manager@),
{
    if !manager.is_visible() {
        return None;
    }
    match manager.kind() {
        ToastKind::Nothing => None,
        ToastKind::Info => Some(
            ToastCard { color: ToastColor::Info, body: manager.message().clone(), busy: false },
        ),
        ToastKind::Success => Some(
            ToastCard { color: ToastColor::Success, body: manager.message().clone(), busy: false },
        ),
        ToastKind::Warning => Some(
            ToastCard { color: ToastColor::Warning, body: manager.message().clone(), busy: false },
        ),
        ToastKind::Error => Some(
            ToastCard { color: ToastColor::Danger, body: manager.message().clone(), busy: false },
        ),
        ToastKind::Waiting => Some(
            ToastCard { color: ToastColor::Primary, body: manager.waiting_msg().clone(), busy: true },
        ),
    }
}

impl ToastColor {
    /// The token's name in the host CSS framework's color scheme.
    pub fn token(&self) -> (r: &'static str)
        ensures
            self is Info ==> r@ == "info"@,
            self is Success ==> r@ == "success"@,
            self is Warning ==> r@ == "warning"@,
            self is Danger ==> r@ == "danger"@,
            self is Primary ==> r@ == "primary"@,
    {
        match self {
            ToastColor::Info => "info",
            ToastColor::Success => "success",
            ToastColor::Warning => "warning",
            ToastColor::Danger => "danger",
            ToastColor::Primary => "primary",
        }
    }
}

} // verus!
