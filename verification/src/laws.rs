//! Laws of the toast state machine, stated over the spec-level transitions
//! that the executable methods' contracts are written with.

use vstd::prelude::*;

use crate::manager::spec_default_waiting_msg;
use crate::manager::spec_new;
use crate::manager::spec_show;
use crate::manager::spec_turn_off;
use crate::manager::spec_waiting_toast;
use crate::manager::spec_will_show;
use crate::manager::ToastKind;
use crate::manager::ToastStateView;
use crate::view::spec_toast_view;
use crate::view::ToastCardView;
use crate::view::ToastColor;

verus! {

/// After `show_info(m)` from any state, a toast is scheduled to show, and
/// the rendered result is the one info card whose body is exactly `m`.
pub proof fn lemma_show_info_renders(s: ToastStateView, m: Seq<char>)
    ensures
        spec_will_show(spec_show(s, ToastKind::Info, m)),
        spec_toast_view(spec_show(s, ToastKind::Info, m)) == Some(
            ToastCardView { color: ToastColor::Info, body: m, busy: false },
        ),
{
}

/// After `turn_off` from any state — in particular right after any of the
/// message-carrying setters — no toast is scheduled and nothing renders.
pub proof fn lemma_turn_off_hides(s: ToastStateView)
    ensures
        !spec_will_show(spec_turn_off(s)),
        spec_toast_view(spec_turn_off(s)) is None,
{
}

/// `turn_off` is idempotent: from any state, turning off twice leaves the
/// state exactly as turning off once does.
pub proof fn lemma_turn_off_idempotent(s: ToastStateView)
    ensures
        spec_turn_off(spec_turn_off(s)) == spec_turn_off(s),
{
}

/// `waiting_toast` ignores any previously set message: after any of the
/// message-carrying setters, the waiting toast renders the configured
/// waiting message, not the message that setter stored.
pub proof fn lemma_waiting_ignores_message(s: ToastStateView, kind: ToastKind, m: Seq<char>)
    ensures
        spec_toast_view(spec_waiting_toast(spec_show(s, kind, m))) == Some(
            ToastCardView { color: ToastColor::Primary, body: s.wait_msg, busy: true },
        ),
{
}

/// Last call wins: two setters in a row leave exactly the state the second
/// alone would have left, so no trace of the first call remains. With the
/// first kind `Info` and the second `Error`, the one rendered card is the
/// error card whose body is the second message.
pub proof fn lemma_last_call_wins(
    s: ToastStateView,
    k1: ToastKind,
    m1: Seq<char>,
    k2: ToastKind,
    m2: Seq<char>,
)
    ensures
        spec_show(spec_show(s, k1, m1), k2, m2) == spec_show(s, k2, m2),
        spec_toast_view(spec_show(spec_show(s, ToastKind::Info, m1), ToastKind::Error, m2)) == Some(
            ToastCardView { color: ToastColor::Danger, body: m2, busy: false },
        ),
{
}

/// A manager created without a custom waiting message carries the fixed
/// default; one created with a custom message renders exactly that message
/// once the waiting toast shows.
pub proof fn lemma_new_waiting_msg(c: Seq<char>)
    ensures
        spec_new(None).wait_msg == spec_default_waiting_msg(),
        spec_toast_view(spec_waiting_toast(spec_new(Some(c)))) == Some(
            ToastCardView { color: ToastColor::Primary, body: c, busy: true },
        ),
{
}

/// A freshly created manager schedules no toast, whatever waiting message
/// it was given.
pub proof fn lemma_new_hidden(waiting_msg: Option<Seq<char>>)
    ensures
        !spec_will_show(spec_new(waiting_msg)),
        spec_toast_view(spec_new(waiting_msg)) is None,
{
}

} // verus!
